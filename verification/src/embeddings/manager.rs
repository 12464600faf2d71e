use crate::embeddings::plugin::{PluginConfig, PluginInfo, PluginRegistry, ProviderConfig};
use crate::embeddings::service::EmbeddingModel;
use crate::error::VectaDBError;
use crate::text::{concat2, owned, str_eq};
use vstd::prelude::*;

verus! {

/// The providers that a plugin exists for.
#[derive(Debug, Clone, Copy, PartialEq, Eq, Structural)]
pub enum ProviderKind {
    OpenAI,
    Cohere,
    HuggingFace,
    Voyage,
}

/// The provider that a configured name stands for, where it stands for one.
pub open spec fn named_provider(name: Seq<char>) -> Option<ProviderKind> {
    if name == "openai"@ {
        Some(ProviderKind::OpenAI)
    } else if name == "cohere"@ {
        Some(ProviderKind::Cohere)
    } else if name == "huggingface"@ {
        Some(ProviderKind::HuggingFace)
    } else if name == "voyage"@ {
        Some(ProviderKind::Voyage)
    } else {
        None
    }
}

/// The provider that a configured name stands for; an error where it stands for none.
pub fn provider_kind(name: &str) -> (result: Result<ProviderKind, VectaDBError>)
    ensures
        match named_provider(name@) {
            Some(kind) => result matches Ok(k) && k == kind,
            None => result matches Err(e) && e is Config && e.detail()
                == "Unknown embedding provider: "@ + name@,
        },
{
    if str_eq(name, "openai") {
        Ok(ProviderKind::OpenAI)
    } else if str_eq(name, "cohere") {
        Ok(ProviderKind::Cohere)
    } else if str_eq(name, "huggingface") {
        Ok(ProviderKind::HuggingFace)
    } else if str_eq(name, "voyage") {
        Ok(ProviderKind::Voyage)
    } else {
        Err(VectaDBError::Config(concat2("Unknown embedding provider: ", name)))
    }
}

/// The file that holds a provider's plugin configuration.
pub fn plugin_config_path(dir: &str, provider: &str) -> (path: String)
    ensures
        path@ == dir@ + "/"@ + provider@ + ".yaml"@,
{
    let mut path = owned(dir);
    path.append("/");
    path.append(provider);
    path.append(".yaml");
    path
}

/// Whether a text begins with `${`, as a variable does that was not filled in.
pub open spec fn is_placeholder(key: Seq<char>) -> bool {
    key.len() >= 2 && key[0] == '$' && key[1] == '{'
}

/// Whether a key is set: it is not empty and is no variable left unfilled.
pub open spec fn key_is_set(key: Seq<char>) -> bool {
    key.len() > 0 && !is_placeholder(key)
}

/// The API key of a provider's configuration, where it has one.
pub open spec fn api_key_of(provider: ProviderConfig) -> Option<Seq<char>> {
    match provider {
        ProviderConfig::OpenAI { api_key, .. } => Some(api_key@),
        ProviderConfig::Cohere { api_key, .. } => Some(api_key@),
        ProviderConfig::HuggingFace { api_key, .. } => Some(api_key@),
        ProviderConfig::Voyage { api_key, .. } => Some(api_key@),
        ProviderConfig::Local { .. } => None,
    }
}

/// Whether a configuration has the key it needs: a local provider needs none.
pub open spec fn has_valid_key(config: PluginConfig) -> bool {
    match api_key_of(config.provider) {
        Some(key) => key_is_set(key),
        None => true,
    }
}

fn check_key(key: &String) -> (set: bool)
    ensures
        set == key_is_set(key@),
{
    let text = key.as_str();
    let len = text.unicode_len();
    if len == 0 {
        false
    } else if len >= 2 && text.get_char(0) == '$' && text.get_char(1) == '{' {
        false
    } else {
        true
    }
}

/// Checks that a plugin's configuration holds the API key it needs.
pub fn validate_api_key(config: &PluginConfig) -> (result: Result<(), VectaDBError>)
    ensures
        result is Ok <==> has_valid_key(*config),
        result matches Err(e) ==> e is Config && e.detail() == "API key not set for provider '"@
            + config.name@ + "'. Set the appropriate environment variable."@,
{
    let valid = match &config.provider {
        ProviderConfig::OpenAI { api_key, .. } => check_key(api_key),
        ProviderConfig::Cohere { api_key, .. } => check_key(api_key),
        ProviderConfig::HuggingFace { api_key, .. } => check_key(api_key),
        ProviderConfig::Voyage { api_key, .. } => check_key(api_key),
        ProviderConfig::Local { .. } => true,
    };
    if !valid {
        let mut text = owned("API key not set for provider '");
        text.append(config.name.as_str());
        text.append("'. Set the appropriate environment variable.");
        return Err(VectaDBError::Config(text));
    }
    Ok(())
}

/// Who embeds a text.
#[derive(Debug, Clone, Copy, PartialEq, Eq, Structural)]
pub enum EmbeddingRoute {
    /// The plugin in use.
    Plugin,
    /// The local service.
    Local,
}

/// What an embedding service is made of: the plugins, the local model, and whether the
/// local service stands in when the plugin fails.
#[derive(Debug, Clone)]
pub struct EmbeddingManager {
    pub registry: Option<PluginRegistry>,
    pub local_model: Option<EmbeddingModel>,
    pub provider: String,
    pub fallback_to_local: bool,
    /// The length of the vectors where neither a plugin nor the local model says.
    pub configured_dimension: usize,
}

/// The message of a request that nobody can serve.
pub open spec fn nobody_text() -> Seq<char> {
    "No embedding service available"@
}

impl EmbeddingManager {
    /// Who is asked first: the plugin in use where there are plugins, else the local
    /// service; an error where there are plugins but none in use, or neither plugins
    /// nor a local service.
    pub fn first_route(&self) -> (result: Result<EmbeddingRoute, VectaDBError>)
        ensures
            match self.registry {
                Some(registry) => match registry.get_active_outcome() {
                    Some(detail) => result matches Err(e) && e is InvalidInput && e.detail()
                        == detail,
                    None => result == Ok::<EmbeddingRoute, VectaDBError>(EmbeddingRoute::Plugin),
                },
                None => match self.local_model {
                    Some(_) => result == Ok::<EmbeddingRoute, VectaDBError>(
                        EmbeddingRoute::Local,
                    ),
                    None => result matches Err(e) && e is Embedding && e.detail()
                        == nobody_text(),
                },
            },
    {
        match &self.registry {
            Some(registry) => match registry.get_active() {
                Ok(_) => Ok(EmbeddingRoute::Plugin),
                Err(e) => Err(e),
            },
            None => match self.local_model {
                Some(_) => Ok(EmbeddingRoute::Local),
                None => Err(VectaDBError::Embedding(owned("No embedding service available"))),
            },
        }
    }

    /// What follows when the plugin failed with `error`: the local service is asked,
    /// once, where it is to stand in and is there; the plugin's error is the answer
    /// where it is not to stand in; and where it is to stand in but is not there,
    /// nobody can serve the request.
    pub fn after_plugin_failure(&self, error: VectaDBError) -> (result: Result<
        EmbeddingRoute,
        VectaDBError,
    >)
        ensures
            if !self.fallback_to_local {
                result == Err::<EmbeddingRoute, VectaDBError>(error)
            } else if self.local_model is Some {
                result == Ok::<EmbeddingRoute, VectaDBError>(EmbeddingRoute::Local)
            } else {
                result matches Err(e) && e is Embedding && e.detail() == nobody_text()
            },
    {
        if !self.fallback_to_local {
            return Err(error);
        }
        match self.local_model {
            Some(_) => Ok(EmbeddingRoute::Local),
            None => Err(VectaDBError::Embedding(owned("No embedding service available"))),
        }
    }

    /// The length of the vectors: that of the plugin in use, else that of the local
    /// model, else the configured one.
    pub fn dimension(&self) -> (dim: usize)
        ensures
            dim == match self.active_plugin() {
                Some(p) => p.dimension,
                None => match self.local_model {
                    Some(model) => model.dimensions() as usize,
                    None => self.configured_dimension,
                },
            },
    {
        if let Some(registry) = &self.registry {
            if let Ok(plugin) = registry.get_active() {
                return plugin.dimension;
            }
        }
        if let Some(model) = &self.local_model {
            return model.dimension();
        }
        self.configured_dimension
    }

    /// The plugin in use, where there are plugins and one of them is in use.
    pub open spec fn active_plugin(&self) -> Option<PluginInfo> {
        match self.registry {
            Some(registry) => match registry.active_plugin {
                Some(name) => match crate::text::first_position(
                    crate::embeddings::plugin::plugin_names(registry.plugins@),
                    name@,
                ) {
                    Some(i) => Some(registry.plugins@[i]),
                    None => None,
                },
                None => None,
            },
            None => None,
        }
    }

    /// The name of the configured provider.
    pub fn provider(&self) -> (name: &str)
        ensures
            name@ == self.provider@,
    {
        self.provider.as_str()
    }

    /// Whether the service can embed, given what the plugin in use says of its health,
    /// or that asking it failed: a plugin that answers decides; when asking fails, the
    /// local service decides by being there; without plugins it decides alone.
    pub fn health_after(&self, plugin_health: Option<bool>) -> (healthy: bool)
        ensures
            healthy == match (self.registry, plugin_health) {
                (Some(_), Some(healthy)) => healthy,
                _ => self.local_model is Some,
            },
    {
        match (&self.registry, plugin_health) {
            (Some(_), Some(healthy)) => healthy,
            _ => self.local_model.is_some(),
        }
    }
}

impl PluginRegistry {
    /// The detail of the error that asking for the plugin in use ends in, if it does.
    pub open spec fn get_active_outcome(&self) -> Option<Seq<char>> {
        match self.active_plugin {
            None => Some("No active plugin set"@),
            Some(name) => match crate::text::first_position(
                crate::embeddings::plugin::plugin_names(self.plugins@),
                name@,
            ) {
                Some(_) => None,
                None => Some(crate::embeddings::plugin::no_plugin_text(name@)),
            },
        }
    }
}

} // verus!
