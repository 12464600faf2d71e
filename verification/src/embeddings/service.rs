use crate::text::str_eq;
use vstd::prelude::*;

verus! {

/// The local embedding models.
#[derive(Debug, Clone, Copy, PartialEq, Eq, Structural)]
pub enum EmbeddingModel {
    /// all-MiniLM-L6-v2: fast, 384 dimensions.
    AllMiniLML6v2,
    /// all-MiniLM-L12-v2: better quality, 384 dimensions.
    AllMiniLML12v2,
    /// all-mpnet-base-v2: high quality, 768 dimensions.
    AllMpnetBaseV2,
    /// BGE Small English: 384 dimensions.
    BgeSmallEnV1_5,
}

/// How many texts the local service embeds at once where it is not told.
pub const DEFAULT_LOCAL_BATCH_SIZE: usize = 32;

impl EmbeddingModel {
    /// The length of the vectors that the model gives.
    pub open spec fn dimensions(&self) -> nat {
        match *self {
            EmbeddingModel::AllMiniLML6v2 => 384,
            EmbeddingModel::AllMiniLML12v2 => 384,
            EmbeddingModel::AllMpnetBaseV2 => 768,
            EmbeddingModel::BgeSmallEnV1_5 => 384,
        }
    }

    /// The model's name.
    pub open spec fn written(&self) -> Seq<char> {
        match *self {
            EmbeddingModel::AllMiniLML6v2 => "all-MiniLM-L6-v2"@,
            EmbeddingModel::AllMiniLML12v2 => "all-MiniLM-L12-v2"@,
            EmbeddingModel::AllMpnetBaseV2 => "all-mpnet-base-v2"@,
            EmbeddingModel::BgeSmallEnV1_5 => "BAAI/bge-small-en-v1.5"@,
        }
    }

    /// The model that a configured name stands for. A model is known by its name, the
    /// first three also with `sentence-transformers/` before it; any other name stands
    /// for the first model.
    pub open spec fn named(name: Seq<char>) -> EmbeddingModel {
        if name == "all-MiniLM-L12-v2"@ || name == "sentence-transformers/all-MiniLM-L12-v2"@ {
            EmbeddingModel::AllMiniLML12v2
        } else if name == "all-mpnet-base-v2"@ || name
            == "sentence-transformers/all-mpnet-base-v2"@ {
            EmbeddingModel::AllMpnetBaseV2
        } else if name == "BAAI/bge-small-en-v1.5"@ {
            EmbeddingModel::BgeSmallEnV1_5
        } else {
            EmbeddingModel::AllMiniLML6v2
        }
    }

    /// The length of the vectors that the model gives.
    pub fn dimension(&self) -> (dim: usize)
        ensures
            dim == self.dimensions(),
    {
        match self {
            EmbeddingModel::AllMiniLML6v2 => 384,
            EmbeddingModel::AllMiniLML12v2 => 384,
            EmbeddingModel::AllMpnetBaseV2 => 768,
            EmbeddingModel::BgeSmallEnV1_5 => 384,
        }
    }

    /// The model's name.
    pub fn name(&self) -> (name: &'static str)
        ensures
            name@ == self.written(),
    {
        match self {
            EmbeddingModel::AllMiniLML6v2 => "all-MiniLM-L6-v2",
            EmbeddingModel::AllMiniLML12v2 => "all-MiniLM-L12-v2",
            EmbeddingModel::AllMpnetBaseV2 => "all-mpnet-base-v2",
            EmbeddingModel::BgeSmallEnV1_5 => "BAAI/bge-small-en-v1.5",
        }
    }

    /// The model that a configured name stands for.
    pub fn from_name(name: &str) -> (model: Self)
        ensures
            model == EmbeddingModel::named(name@),
    {
        if str_eq(name, "all-MiniLM-L12-v2") || str_eq(
            name,
            "sentence-transformers/all-MiniLM-L12-v2",
        ) {
            EmbeddingModel::AllMiniLML12v2
        } else if str_eq(name, "all-mpnet-base-v2") || str_eq(
            name,
            "sentence-transformers/all-mpnet-base-v2",
        ) {
            EmbeddingModel::AllMpnetBaseV2
        } else if str_eq(name, "BAAI/bge-small-en-v1.5") {
            EmbeddingModel::BgeSmallEnV1_5
        } else {
            EmbeddingModel::AllMiniLML6v2
        }
    }
}

} // verus!
