use crate::config::QdrantConfig;
use crate::query::vector::VectorHit;
use crate::text::{concat2, decimal, decimal_text};
use vstd::prelude::*;

verus! {

/// The names and the answers of the vector store: one collection for each entity type,
/// searched by cosine similarity.
#[derive(Debug, Clone)]
pub struct QdrantClient {
    /// What stands before the entity type in the name of a collection.
    pub collection_prefix: String,
}

/// The identifier of a point of the vector store.
#[derive(Debug, Clone)]
pub enum PointId {
    Uuid(String),
    Num(u64),
    /// The point came without identifier.
    Missing,
}

/// A point that a search found, with its score in billionths.
#[derive(Debug, Clone)]
pub struct ScoredPoint {
    pub id: PointId,
    pub score: i64,
}

/// The identifier of the entity that a point stands for: a text as it is, a number
/// written out; none for a point without identifier.
pub open spec fn entity_id_of(id: PointId) -> Option<Seq<char>> {
    match id {
        PointId::Uuid(text) => Some(text@),
        PointId::Num(n) => Some(decimal(n as nat)),
        PointId::Missing => None,
    }
}

/// The hits that the points of a search stand for, in their order; a point without
/// identifier stands for none.
pub open spec fn hits_of(points: Seq<ScoredPoint>) -> Seq<(Seq<char>, i64)>
    decreases points.len(),
{
    if points.len() == 0 {
        Seq::empty()
    } else {
        match entity_id_of(points.last().id) {
            Some(id) => hits_of(points.drop_last()).push((id, points.last().score)),
            None => hits_of(points.drop_last()),
        }
    }
}

impl QdrantClient {
    /// The names of the vector store under a configuration.
    pub fn new(config: &QdrantConfig) -> (client: Self)
        ensures
            client.collection_prefix@ == config.collection_prefix@,
    {
        QdrantClient { collection_prefix: config.collection_prefix.clone() }
    }

    /// The name of the collection of an entity type: the prefix, then the type.
    pub fn collection_name(&self, entity_type: &str) -> (name: String)
        ensures
            name@ == self.collection_prefix@ + entity_type@,
    {
        concat2(self.collection_prefix.as_str(), entity_type)
    }

    /// Whether a collection has to be created, given what the store said when it was
    /// asked whether it is there: not where it is there; where it is not, and where the
    /// store could not say, it is created.
    pub fn must_create(exists: &Result<bool, String>) -> (create: bool)
        ensures
            create == !(*exists matches Ok(there) && there),
    {
        match exists {
            Ok(true) => false,
            _ => true,
        }
    }

    /// The hits of a search: none where the collection is not there, else those that
    /// the points found stand for, in the order of the points.
    pub fn search_hits(collection_exists: bool, points: &Vec<ScoredPoint>) -> (hits: Vec<VectorHit>)
        ensures
            crate::query::vector::hit_views(hits@) == if collection_exists {
                hits_of(points@)
            } else {
                Seq::empty()
            },
    {
        let mut hits: Vec<VectorHit> = Vec::new();
        assert(crate::query::vector::hit_views(hits@) =~= Seq::<(Seq<char>, i64)>::empty());
        if !collection_exists {
            return hits;
        }
        let mut i: usize = 0;
        assert(points@.take(0) =~= Seq::<ScoredPoint>::empty());
        while i < points.len()
            invariant
                i <= points.len(),
                crate::query::vector::hit_views(hits@) == hits_of(points@.take(i as int)),
            decreases points.len() - i,
        {
            assert(points@.take(i + 1).drop_last() == points@.take(i as int));
            let ghost before = crate::query::vector::hit_views(hits@);
            let id: Option<String> = match &points[i].id {
                PointId::Uuid(text) => Some(text.clone()),
                PointId::Num(n) => Some(decimal_text(*n)),
                PointId::Missing => None,
            };
            if let Some(entity_id) = id {
                hits.push(VectorHit { entity_id, score: points[i].score });
                assert(crate::query::vector::hit_views(hits@) =~= before.push(
                    (entity_id@, points@[i as int].score),
                ));
            }
            i += 1;
        }
        assert(points@.take(points.len() as int) == points@);
        hits
    }
}

} // verus!
