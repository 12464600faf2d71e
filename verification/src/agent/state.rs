use crate::text::{first_position, key_position, owned, str_eq};
use vstd::prelude::*;

verus! {

/// When each log group was last polled.
#[derive(Debug, Clone)]
pub struct AgentState {
    /// The log groups that were polled, each with the time of its last poll in
    /// milliseconds since the start of 1970.
    pub last_poll_times: Vec<(String, i64)>,
}

/// The log groups of a list of poll times.
pub open spec fn polled_groups(times: Seq<(String, i64)>) -> Seq<Seq<char>> {
    times.map_values(|t: (String, i64)| t.0@)
}

/// The time that `lookback_secs` seconds before `now` is, held within what a time can
/// hold.
pub open spec fn looked_back(now: i64, lookback_secs: u64) -> i64 {
    if now - lookback_secs * 1000 < i64::MIN {
        i64::MIN
    } else {
        (now - lookback_secs * 1000) as i64
    }
}

impl AgentState {
    /// The state of an agent that has polled nothing.
    pub fn new() -> (state: Self)
        ensures
            state.last_poll_times@.len() == 0,
    {
        AgentState { last_poll_times: Vec::new() }
    }

    fn position(&self, log_group: &str) -> (pos: Option<usize>)
        ensures
            match pos {
                Some(i) => first_position(polled_groups(self.last_poll_times@), log_group@)
                    == Some(i as int) && i < self.last_poll_times.len(),
                None => first_position(polled_groups(self.last_poll_times@), log_group@)
                    is None,
            },
    {
        let mut i: usize = 0;
        while i < self.last_poll_times.len()
            invariant
                i <= self.last_poll_times.len(),
                first_position(polled_groups(self.last_poll_times@), log_group@) == key_position(
                    polled_groups(self.last_poll_times@),
                    log_group@,
                    i as int,
                ),
            decreases self.last_poll_times.len() - i,
        {
            if str_eq(self.last_poll_times[i].0.as_str(), log_group) {
                return Some(i);
            }
            i += 1;
        }
        None
    }

    /// The time from which a log group is polled at `now`: the time of its last poll,
    /// or, before its first poll, `lookback_secs` seconds before `now`.
    pub fn get_last_poll_time(&self, log_group: &str, lookback_secs: u64, now: i64) -> (time: i64)
        ensures
            time == match first_position(polled_groups(self.last_poll_times@), log_group@) {
                Some(i) => self.last_poll_times@[i].1,
                None => looked_back(now, lookback_secs),
            },
    {
        match self.position(log_group) {
            Some(i) => self.last_poll_times[i].1,
            None => {
                let back: i128 = now as i128 - (lookback_secs as i128) * 1000;
                if back < i64::MIN as i128 {
                    i64::MIN
                } else {
                    back as i64
                }
            },
        }
    }

    /// Notes the time of the last poll of a log group: in the place of the time noted
    /// before, or after the other groups where none was noted.
    pub fn update_last_poll_time(&mut self, log_group: &str, timestamp: i64)
        ensures
            match first_position(polled_groups(old(self).last_poll_times@), log_group@) {
                Some(i) => {
                    &&& final(self).last_poll_times@.len() == old(self).last_poll_times@.len()
                    &&& final(self).last_poll_times@[i].0@ == log_group@
                    &&& final(self).last_poll_times@[i].1 == timestamp
                    &&& forall|j: int|
                        0 <= j < old(self).last_poll_times@.len() && j != i ==> final(self).last_poll_times@[j] == old(self).last_poll_times@[j]
                },
                None => {
                    &&& final(self).last_poll_times@.len() == old(self).last_poll_times@.len() + 1
                    &&& final(self).last_poll_times@.last().0@ == log_group@
                    &&& final(self).last_poll_times@.last().1 == timestamp
                    &&& forall|j: int|
                        0 <= j < old(self).last_poll_times@.len() ==> final(self).last_poll_times@[j] == old(self).last_poll_times@[j]
                },
            },
    {
        match self.position(log_group) {
            Some(i) => {
                let ghost before = polled_groups(self.last_poll_times@);
                proof {
                    crate::text::lemma_key_position(before, log_group@, 0);
                }
                self.last_poll_times.set(i, (owned(log_group), timestamp));
                assert(polled_groups(self.last_poll_times@) =~= before);
            },
            None => {
                self.last_poll_times.push((owned(log_group), timestamp));
            },
        }
    }
}

} // verus!
