use crate::api::types::{BulkEventIngestionResponse, IngestionError};
use crate::text::{decimal, decimal_text, owned, push_unique, views};
use vstd::prelude::*;

verus! {

/// How often a batch is sent before it is given up.
pub const MAX_ATTEMPTS: u32 = 3;

/// How events are sent to the database: where to, and how many at once.
#[derive(Debug, Clone)]
pub struct VectaDBClient {
    pub endpoint: String,
    pub api_key: Option<String>,
    pub batch_size: usize,
}

/// The answer to a request for the database's health.
#[derive(Debug, Clone)]
pub struct HealthResponse {
    pub status: String,
    pub version: String,
    pub ontology_loaded: bool,
}

/// The seconds to wait after a failed attempt, the first attempt being 1: one second,
/// then two, then four.
pub open spec fn backoff(attempt: u32) -> int {
    if attempt <= 1 {
        1
    } else if attempt == 2 {
        2
    } else {
        4
    }
}

/// A count that has grown by `more`, held within what a count can hold.
pub open spec fn grown(count: usize, more: int) -> usize {
    if count + more > usize::MAX {
        usize::MAX
    } else {
        (count + more) as usize
    }
}

/// The place in the whole upload of the event at `place` of the batch at `batch`.
pub open spec fn global_index(batch: usize, batch_size: usize, place: usize) -> usize {
    grown(grown(0, batch * batch_size), place as int)
}

/// The traces of a list added to those of another, each once.
pub open spec fn with_traces(known: Seq<Seq<char>>, more: Seq<Seq<char>>) -> Seq<Seq<char>>
    decreases more.len(),
{
    if more.len() == 0 {
        known
    } else {
        let before = with_traces(known, more.drop_last());
        if before.contains(more.last()) {
            before
        } else {
            before.push(more.last())
        }
    }
}

/// What is said of each event of a batch that was given up.
pub open spec fn given_up_text(why: Seq<char>) -> Seq<char> {
    "Batch failed after "@ + decimal(MAX_ATTEMPTS as nat) + " retries: "@ + why
}

fn add_held(count: usize, more: usize) -> (sum: usize)
    ensures
        sum == grown(count, more as int),
{
    if count > usize::MAX - more {
        usize::MAX
    } else {
        count + more
    }
}

fn event_index(batch: usize, batch_size: usize, place: usize) -> (index: usize)
    ensures
        index == global_index(batch, batch_size, place),
{
    assert(batch * batch_size <= 0xFFFF_FFFF_FFFF_FFFF * 0xFFFF_FFFF_FFFF_FFFF) by (nonlinear_arith)
        requires
            batch <= 0xFFFF_FFFF_FFFF_FFFF,
            batch_size <= 0xFFFF_FFFF_FFFF_FFFF,
    ;
    let product: u128 = (batch as u128) * (batch_size as u128);
    let offset: usize = if product > usize::MAX as u128 {
        usize::MAX
    } else {
        product as usize
    };
    add_held(offset, place)
}

impl VectaDBClient {
    /// The client that a configuration asks for.
    pub fn new(config: &crate::agent::config::VectaDBConfig) -> (client: Self)
        ensures
            client.endpoint@ == config.endpoint@,
            client.api_key == config.api_key,
            client.batch_size == config.batch_size,
    {
        VectaDBClient {
            endpoint: config.endpoint.clone(),
            api_key: crate::text::clone_opt(&config.api_key),
            batch_size: config.batch_size,
        }
    }

    /// How many events go into one request.
    pub fn batch_size(&self) -> (size: usize)
        ensures
            size == self.batch_size,
    {
        self.batch_size
    }

    /// Where the events are sent to.
    pub fn bulk_url(&self) -> (url: String)
        ensures
            url@ == self.endpoint@ + "/api/v1/events/batch"@,
    {
        crate::text::concat2(self.endpoint.as_str(), "/api/v1/events/batch")
    }

    /// Whether a batch is sent once more after the given number of attempts failed.
    pub fn tries_again(attempts: u32) -> (again: bool)
        ensures
            again == (attempts < MAX_ATTEMPTS),
    {
        attempts < MAX_ATTEMPTS
    }

    /// The seconds to wait after the given attempt failed.
    pub fn backoff_secs(attempt: u32) -> (secs: u64)
        ensures
            secs == backoff(attempt),
    {
        if attempt <= 1 {
            1
        } else if attempt == 2 {
            2
        } else {
            4
        }
    }

    /// Takes the answer to one batch into the answer to the whole upload: the counts
    /// are added, the traces are added each once, and each error is put at the place
    /// of its event in the whole upload.
    pub fn merge_batch(
        &self,
        total: &mut BulkEventIngestionResponse,
        answer: BulkEventIngestionResponse,
        batch: usize,
    )
        ensures
            final(total).ingested == grown(old(total).ingested, answer.ingested as int),
            final(total).failed == grown(old(total).failed, answer.failed as int),
            views(final(total).trace_ids@) == with_traces(
                views(old(total).trace_ids@),
                views(answer.trace_ids@),
            ),
            final(total).errors@.len() == old(total).errors@.len() + answer.errors@.len(),
            forall|i: int|
                0 <= i < old(total).errors@.len() ==> final(total).errors@[i] == old(total).errors@[i],
            forall|i: int|
                0 <= i < answer.errors@.len() ==> {
                    &&& (#[trigger] final(total).errors@[old(total).errors@.len() + i]).index
                        == global_index(batch, self.batch_size, answer.errors@[i].index)
                    &&& final(total).errors@[old(total).errors@.len() + i].error@
                        == answer.errors@[i].error@
                },
    {
        total.ingested = add_held(total.ingested, answer.ingested);
        total.failed = add_held(total.failed, answer.failed);
        let ghost known = views(total.trace_ids@);
        let ghost more = views(answer.trace_ids@);
        let mut t: usize = 0;
        assert(more.take(0) =~= Seq::<Seq<char>>::empty());
        while t < answer.trace_ids.len()
            invariant
                t <= answer.trace_ids.len(),
                more == views(answer.trace_ids@),
                views(total.trace_ids@) == with_traces(known, more.take(t as int)),
                total.ingested == grown(old(total).ingested, answer.ingested as int),
                total.failed == grown(old(total).failed, answer.failed as int),
                total.errors == old(total).errors,
            decreases answer.trace_ids.len() - t,
        {
            assert(more.take(t + 1).drop_last() == more.take(t as int));
            assert(more.take(t + 1).last() == answer.trace_ids@[t as int]@);
            push_unique(&mut total.trace_ids, answer.trace_ids[t].as_str());
            t += 1;
        }
        assert(more.take(answer.trace_ids.len() as int) == more);
        let mut e: usize = 0;
        while e < answer.errors.len()
            invariant
                e <= answer.errors.len(),
                views(total.trace_ids@) == with_traces(known, more),
                total.ingested == grown(old(total).ingested, answer.ingested as int),
                total.failed == grown(old(total).failed, answer.failed as int),
                total.errors@.len() == old(total).errors@.len() + e,
                forall|i: int|
                    0 <= i < old(total).errors@.len() ==> total.errors@[i] == old(total).errors@[i],
                forall|i: int|
                    0 <= i < e ==> {
                        &&& (#[trigger] total.errors@[old(total).errors@.len() + i]).index
                            == global_index(batch, self.batch_size, answer.errors@[i].index)
                        &&& total.errors@[old(total).errors@.len() + i].error@
                            == answer.errors@[i].error@
                    },
            decreases answer.errors.len() - e,
        {
            total.errors.push(
                IngestionError {
                    index: event_index(batch, self.batch_size, answer.errors[e].index),
                    error: answer.errors[e].error.clone(),
                },
            );
            e += 1;
        }
    }

    /// Counts a batch of `events` events that was given up as failed: one error for
    /// each of its events, at the place of the event in the whole upload.
    pub fn fail_batch(
        &self,
        total: &mut BulkEventIngestionResponse,
        batch: usize,
        events: usize,
        why: &str,
    )
        ensures
            final(total).ingested == old(total).ingested,
            final(total).failed == grown(old(total).failed, events as int),
            final(total).trace_ids == old(total).trace_ids,
            final(total).errors@.len() == old(total).errors@.len() + events,
            forall|i: int|
                0 <= i < old(total).errors@.len() ==> final(total).errors@[i] == old(total).errors@[i],
            forall|i: int|
                0 <= i < events ==> {
                    &&& (#[trigger] final(total).errors@[old(total).errors@.len() + i]).index
                        == global_index(batch, self.batch_size, i as usize)
                    &&& final(total).errors@[old(total).errors@.len() + i].error@
                        == given_up_text(why@)
                },
    {
        total.failed = add_held(total.failed, events);
        let attempts = decimal_text(MAX_ATTEMPTS as u64);
        let mut text = owned("Batch failed after ");
        text.append(attempts.as_str());
        text.append(" retries: ");
        text.append(why);
        let mut i: usize = 0;
        while i < events
            invariant
                i <= events,
                text@ == given_up_text(why@),
                total.ingested == old(total).ingested,
                total.failed == grown(old(total).failed, events as int),
                total.trace_ids == old(total).trace_ids,
                total.errors@.len() == old(total).errors@.len() + i,
                forall|k: int|
                    0 <= k < old(total).errors@.len() ==> total.errors@[k] == old(total).errors@[k],
                forall|k: int|
                    0 <= k < i ==> {
                        &&& (#[trigger] total.errors@[old(total).errors@.len() + k]).index
                            == global_index(batch, self.batch_size, k as usize)
                        &&& total.errors@[old(total).errors@.len() + k].error@
                            == given_up_text(why@)
                    },
            decreases events - i,
        {
            total.errors.push(
                IngestionError { index: event_index(batch, self.batch_size, i), error: text.clone() },
            );
            i += 1;
        }
    }
}

} // verus!
