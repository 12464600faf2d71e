use vstd::prelude::*;

verus! {

/// Where the server listens.
#[derive(Debug, Clone)]
pub struct ServerConfig {
    pub host: String,
    pub port: u16,
}

/// How the graph store is reached.
#[derive(Debug, Clone)]
pub struct SurrealDBConfig {
    pub endpoint: String,
    pub namespace: String,
    pub database: String,
    pub username: String,
    pub password: String,
}

/// How the vector store is reached, and what its collections are named with.
#[derive(Debug, Clone)]
pub struct QdrantConfig {
    pub url: String,
    pub api_key: Option<String>,
    /// What stands before the entity type in the name of a collection.
    pub collection_prefix: String,
}

/// The two stores.
#[derive(Debug, Clone)]
pub struct DatabaseConfig {
    pub surrealdb: SurrealDBConfig,
    pub qdrant: QdrantConfig,
}

/// The embedding model and the length of its vectors.
#[derive(Debug, Clone)]
pub struct EmbeddingConfig {
    pub model: String,
    pub dim: usize,
}

/// The secrets of the API.
#[derive(Debug, Clone)]
pub struct ApiConfig {
    pub key: String,
    pub jwt_secret: String,
}

} // verus!
