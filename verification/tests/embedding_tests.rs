use vectadb::embeddings::batch::{restore_order, IndexedEmbedding};
use vectadb::embeddings::manager::{
    plugin_config_path, provider_kind, validate_api_key, EmbeddingManager, EmbeddingRoute,
    ProviderKind,
};
use vectadb::embeddings::plugin::{
    default_batch_size, default_cohere_base_url, default_dimension, default_hf_base_url,
    default_input_type, default_openai_base_url, default_timeout, PluginConfig, PluginInfo,
    PluginRegistry, PluginStats, ProviderConfig,
};
use vectadb::embeddings::service::EmbeddingModel;
use vectadb::error::VectaDBError;

#[test]
fn test_embedding_model_dimensions() {
    assert_eq!(EmbeddingModel::AllMiniLML6v2.dimension(), 384);
    assert_eq!(EmbeddingModel::AllMiniLML12v2.dimension(), 384);
    assert_eq!(EmbeddingModel::AllMpnetBaseV2.dimension(), 768);
    assert_eq!(EmbeddingModel::BgeSmallEnV1_5.dimension(), 384);
}

#[test]
fn test_embedding_model_names() {
    assert_eq!(EmbeddingModel::AllMiniLML6v2.name(), "all-MiniLM-L6-v2");
    assert_eq!(EmbeddingModel::AllMiniLML12v2.name(), "all-MiniLM-L12-v2");
    assert_eq!(EmbeddingModel::AllMpnetBaseV2.name(), "all-mpnet-base-v2");
    assert_eq!(EmbeddingModel::BgeSmallEnV1_5.name(), "BAAI/bge-small-en-v1.5");
}

#[test]
fn a_model_is_known_by_its_names() {
    assert_eq!(EmbeddingModel::from_name("all-MiniLM-L6-v2"), EmbeddingModel::AllMiniLML6v2);
    assert_eq!(
        EmbeddingModel::from_name("sentence-transformers/all-MiniLM-L12-v2"),
        EmbeddingModel::AllMiniLML12v2
    );
    assert_eq!(EmbeddingModel::from_name("all-mpnet-base-v2"), EmbeddingModel::AllMpnetBaseV2);
    assert_eq!(EmbeddingModel::from_name("BAAI/bge-small-en-v1.5"), EmbeddingModel::BgeSmallEnV1_5);
    assert_eq!(EmbeddingModel::from_name("something else"), EmbeddingModel::AllMiniLML6v2);
}

#[test]
fn defaults_of_the_providers() {
    assert_eq!(default_openai_base_url(), "https://api.openai.com/v1");
    assert_eq!(default_cohere_base_url(), "https://api.cohere.ai/v1");
    assert_eq!(default_hf_base_url(), "https://api-inference.huggingface.co");
    assert_eq!(default_dimension(), 1536);
    assert_eq!(default_batch_size(), 100);
    assert_eq!(default_timeout(), 30);
    assert_eq!(default_input_type(), "search_document");
}

fn plugin(name: &str, dimension: usize) -> PluginInfo {
    PluginInfo { name: name.to_string(), version: "1".to_string(), dimension, max_batch_size: 96 }
}

#[test]
fn the_first_plugin_registered_is_in_use() {
    let mut registry = PluginRegistry::new();
    assert!(matches!(registry.get_active(), Err(VectaDBError::InvalidInput(m)) if m == "No active plugin set"));
    registry.register(plugin("cohere", 1024));
    registry.register(plugin("voyage", 512));
    assert_eq!(registry.get_active().unwrap().name, "cohere");
    assert_eq!(registry.list_plugins(), vec!["cohere".to_string(), "voyage".to_string()]);
    assert!(registry.set_active("voyage").is_ok());
    assert_eq!(registry.get_active().unwrap().dimension, 512);
    let error = registry.set_active("openai").unwrap_err();
    assert_eq!(error.message(), "Invalid input: Plugin 'openai' not found");
    assert_eq!(registry.get_active().unwrap().name, "voyage");
    assert!(registry.get("cohere").is_some());
    assert!(registry.get("openai").is_none());
    registry.register(plugin("cohere", 2048));
    assert_eq!(registry.plugins.len(), 2);
    assert_eq!(registry.get("cohere").unwrap().dimension, 2048);
}

fn manager(registry: Option<PluginRegistry>, local: Option<EmbeddingModel>, fallback: bool) -> EmbeddingManager {
    EmbeddingManager {
        registry,
        local_model: local,
        provider: "cohere".to_string(),
        fallback_to_local: fallback,
        configured_dimension: 99,
    }
}

#[test]
fn the_local_service_stands_in_only_where_it_is_configured() {
    let mut registry = PluginRegistry::new();
    registry.register(plugin("cohere", 1024));
    let failure = || VectaDBError::Embedding("down".to_string());

    let with_fallback = manager(Some(registry.clone()), Some(EmbeddingModel::AllMpnetBaseV2), true);
    assert_eq!(with_fallback.first_route().unwrap(), EmbeddingRoute::Plugin);
    assert_eq!(with_fallback.after_plugin_failure(failure()).unwrap(), EmbeddingRoute::Local);
    assert_eq!(with_fallback.dimension(), 1024);
    assert_eq!(with_fallback.provider(), "cohere");

    let without = manager(Some(registry.clone()), Some(EmbeddingModel::AllMpnetBaseV2), false);
    assert_eq!(without.after_plugin_failure(failure()).unwrap_err().message(), "Embedding error: down");

    let nobody = manager(Some(registry), None, true);
    assert_eq!(
        nobody.after_plugin_failure(failure()).unwrap_err().message(),
        "Embedding error: No embedding service available"
    );
    assert!(nobody.health_after(Some(true)));
    assert!(!nobody.health_after(Some(false)));
    assert!(!nobody.health_after(None));

    let local_only = manager(None, Some(EmbeddingModel::AllMpnetBaseV2), false);
    assert_eq!(local_only.first_route().unwrap(), EmbeddingRoute::Local);
    assert_eq!(local_only.dimension(), 768);
    assert!(local_only.health_after(None));
    assert!(local_only.health_after(Some(false)));

    let empty = manager(None, None, false);
    assert!(empty.first_route().is_err());
    assert_eq!(empty.dimension(), 99);
    let unset = manager(Some(PluginRegistry::new()), None, false);
    assert_eq!(unset.first_route().unwrap_err().message(), "Invalid input: No active plugin set");
}

#[test]
fn providers_and_their_configuration_files() {
    assert_eq!(provider_kind("openai").unwrap(), ProviderKind::OpenAI);
    assert_eq!(provider_kind("cohere").unwrap(), ProviderKind::Cohere);
    assert_eq!(provider_kind("huggingface").unwrap(), ProviderKind::HuggingFace);
    assert_eq!(provider_kind("voyage").unwrap(), ProviderKind::Voyage);
    assert_eq!(
        provider_kind("acme").unwrap_err().message(),
        "Configuration error: Unknown embedding provider: acme"
    );
    assert_eq!(plugin_config_path("./config/embeddings", "voyage"), "./config/embeddings/voyage.yaml");
}

fn voyage(key: &str) -> PluginConfig {
    PluginConfig {
        name: "voyage".to_string(),
        provider: ProviderConfig::Voyage {
            api_key: key.to_string(),
            model: "voyage-2".to_string(),
            base_url: "https://api.voyageai.com/v1".to_string(),
            dimension: 1024,
            batch_size: 128,
            timeout_secs: 30,
        },
    }
}

#[test]
fn an_api_key_must_be_set_and_filled_in() {
    assert!(validate_api_key(&voyage("pa-123")).is_ok());
    assert!(validate_api_key(&voyage("$")).is_ok());
    assert!(validate_api_key(&voyage("$x{")).is_ok());
    let error = validate_api_key(&voyage("")).unwrap_err();
    assert_eq!(
        error.message(),
        "Configuration error: API key not set for provider 'voyage'. Set the appropriate environment variable."
    );
    assert!(validate_api_key(&voyage("${VOYAGE_API_KEY}")).is_err());
    let local = PluginConfig {
        name: "local".to_string(),
        provider: ProviderConfig::Local { model: "m".to_string(), dimension: 384, batch_size: 32 },
    };
    assert!(validate_api_key(&local).is_ok());
}

#[test]
fn an_answer_is_put_back_into_the_order_of_the_request() {
    let answer = vec![
        IndexedEmbedding { index: 2, embedding: vec![20] },
        IndexedEmbedding { index: 0, embedding: vec![1] },
        IndexedEmbedding { index: 1, embedding: vec![10] },
        IndexedEmbedding { index: 0, embedding: vec![2] },
    ];
    assert_eq!(restore_order(answer), vec![vec![1], vec![2], vec![10], vec![20]]);
    assert!(restore_order(vec![]).is_empty());
}

#[test]
fn statistics_count_requests_and_stop_at_the_top() {
    let stats = PluginStats::new().record(30, 4, false).record(10, 0, true);
    assert_eq!(stats.total_requests, 2);
    assert_eq!(stats.total_embeddings, 4);
    assert_eq!(stats.failed_requests, 1);
    assert_eq!(stats.total_latency_ms, 40);
    assert_eq!(stats.avg_latency_ms(), 20);
    assert_eq!(PluginStats::new().avg_latency_ms(), 0);
    let full = PluginStats { total_latency_ms: u64::MAX - 1, ..PluginStats::new() };
    assert_eq!(full.record(5, 0, false).total_latency_ms, u64::MAX);
}
