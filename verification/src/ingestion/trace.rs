use crate::runtime::fresh_uuid;
use crate::text::{clone_opt, owned};
use vstd::prelude::*;

verus! {

/// How long back a running trace of an agent is taken up again: an hour, in
/// milliseconds.
pub const RECENT_TRACE_MILLIS: i64 = 3_600_000;

/// The session of a trace that is created for an event without session.
pub open spec fn default_session() -> Seq<char> {
    "default"@
}

/// What a trace is in.
#[derive(Debug, Clone, Copy, PartialEq, Eq, Structural)]
pub enum TraceStatus {
    Running,
    Completed,
    Failed,
}

impl TraceStatus {
    /// The status's name.
    pub fn name(&self) -> (text: &'static str)
        ensures
            text@ == match *self {
                TraceStatus::Running => "running"@,
                TraceStatus::Completed => "completed"@,
                TraceStatus::Failed => "failed"@,
            },
    {
        match self {
            TraceStatus::Running => "running",
            TraceStatus::Completed => "completed",
            TraceStatus::Failed => "failed",
        }
    }
}

/// A trace: the events of one session.
#[derive(Debug, Clone)]
pub struct Trace {
    pub id: String,
    pub session_id: String,
    pub agent_id: Option<String>,
    pub status: TraceStatus,
    /// When the trace began, in milliseconds since the start of 1970.
    pub start_time: i64,
    pub created_at: i64,
    pub updated_at: i64,
}

/// What an event says of the trace it belongs to.
#[derive(Debug, Clone)]
pub struct TraceHint {
    pub trace_id: Option<String>,
    pub session_id: Option<String>,
    pub agent_id: Option<String>,
}

/// How the search for an event's trace ends.
pub enum TraceOutcome {
    /// The event belongs to the trace of this identifier, which is there.
    Use(Seq<char>),
    /// A trace is created for the event, for this session and this agent.
    Create { session_id: Seq<char>, agent_id: Option<Seq<char>> },
    /// The event has no trace, and none may be created.
    Fail,
}

/// Where the search for an event's trace stands.
#[derive(Debug, Clone, Copy, PartialEq, Eq, Structural)]
pub enum TraceStage {
    /// The most recent trace of the session is being looked up.
    BySession,
    /// The most recent running trace of the agent is being looked up.
    ByAgent,
    /// The new trace is being stored.
    Creating,
    Resolved,
    Failed,
}

/// What came back from the graph store.
#[derive(Debug)]
pub enum TraceEvent {
    /// The trace that was looked up, by its identifier, or none.
    Found(Option<String>),
    /// The new trace is stored.
    Created,
    StoreFailed(String),
}

/// What the search for a trace asks for next.
#[derive(Debug)]
pub enum TraceAction {
    /// Look up the most recent trace of this session.
    FindBySession(String),
    /// Look up the most recent running trace of this agent that began after `since`.
    FindRecentByAgent { agent_id: String, since: i64 },
    /// Store this trace.
    CreateTrace(Trace),
    /// The event belongs to the trace of this identifier.
    Resolved(String),
    /// The event has no trace; the text says why.
    Fail(String),
}

/// The search for the trace of one event.
#[derive(Debug)]
pub struct TraceResolution {
    pub hint: TraceHint,
    /// Whether a trace is created where none is found.
    pub auto_create: bool,
    /// The time of the search, in milliseconds since the start of 1970.
    pub now: i64,
    /// The identifier of the trace that is being created.
    pub new_trace_id: Option<String>,
    pub stage: TraceStage,
}

/// The characters of an optional string.
pub open spec fn opt_text(value: Option<String>) -> Option<Seq<char>> {
    match value {
        Some(s) => Some(s@),
        None => None,
    }
}

/// How the search for a trace ends, given what the lookups answer where they are
/// made.
///
/// A trace that the event names is used. Else the most recent trace of the event's
/// session is used, if the event has a session and the session a trace. Else the most
/// recent running trace of the event's agent is used, if the event has an agent and
/// the agent such a trace that began within the last hour. Else a trace is created,
/// for the event's session or the default one, where traces may be created; where they
/// may not, the search fails.
pub open spec fn outcome(
    hint: TraceHint,
    by_session: Option<Seq<char>>,
    by_agent: Option<Seq<char>>,
    auto_create: bool,
) -> TraceOutcome {
    if hint.trace_id is Some {
        TraceOutcome::Use(hint.trace_id->0@)
    } else if hint.session_id is Some && by_session is Some {
        TraceOutcome::Use(by_session->0)
    } else if hint.agent_id is Some && by_agent is Some {
        TraceOutcome::Use(by_agent->0)
    } else if auto_create {
        TraceOutcome::Create {
            session_id: match hint.session_id {
                Some(s) => s@,
                None => default_session(),
            },
            agent_id: opt_text(hint.agent_id),
        }
    } else {
        TraceOutcome::Fail
    }
}

/// Why a search failed that may create no trace.
pub open spec fn failure_text(hint: TraceHint) -> Seq<char> {
    if hint.session_id is Some || hint.agent_id is Some {
        "Trace not found and auto-create disabled"@
    } else {
        "No trace specified and auto-create disabled"@
    }
}

/// The earliest start of a trace that counts as recent at `now`.
pub open spec fn recent_since(now: i64) -> i64 {
    if now < i64::MIN + RECENT_TRACE_MILLIS {
        i64::MIN
    } else {
        (now - RECENT_TRACE_MILLIS) as i64
    }
}

impl TraceResolution {
    /// Whether `next` and `action` are what the search comes to when the lookups so
    /// far found nothing and the agent is to be tried next.
    pub open spec fn tries_agent(&self, next: Self, action: TraceAction) -> bool {
        if self.hint.agent_id is Some {
            &&& next.stage == TraceStage::ByAgent
            &&& opt_text(next.new_trace_id) == opt_text(self.new_trace_id)
            &&& action matches TraceAction::FindRecentByAgent { agent_id, since }
            &&& agent_id@ == self.hint.agent_id->0@
            &&& since == recent_since(self.now)
        } else {
            self.creates_or_fails(next, action)
        }
    }

    /// Whether `next` and `action` are what the search comes to when nothing was
    /// found: a new running trace that begins now is to be stored, or the search
    /// fails.
    pub open spec fn creates_or_fails(&self, next: Self, action: TraceAction) -> bool {
        if self.auto_create {
            &&& next.stage == TraceStage::Creating
            &&& action matches TraceAction::CreateTrace(trace)
            &&& next.new_trace_id matches Some(id) && id@ == trace.id@
            &&& trace.session_id@ == match self.hint.session_id {
                Some(s) => s@,
                None => default_session(),
            }
            &&& opt_text(trace.agent_id) == opt_text(self.hint.agent_id)
            &&& trace.status == TraceStatus::Running
            &&& trace.start_time == self.now
            &&& trace.created_at == self.now
            &&& trace.updated_at == self.now
        } else {
            &&& next.stage == TraceStage::Failed
            &&& opt_text(next.new_trace_id) == opt_text(self.new_trace_id)
            &&& action matches TraceAction::Fail(why)
            &&& why@ == failure_text(self.hint)
        }
    }

    /// Whether `next` and `action` are what the search comes to on `event`.
    pub open spec fn leads_to(&self, event: TraceEvent, next: Self, action: TraceAction) -> bool {
        &&& opt_text(next.hint.trace_id) == opt_text(self.hint.trace_id)
        &&& opt_text(next.hint.session_id) == opt_text(self.hint.session_id)
        &&& opt_text(next.hint.agent_id) == opt_text(self.hint.agent_id)
        &&& next.auto_create == self.auto_create
        &&& next.now == self.now
        &&& match (self.stage, event) {
            (TraceStage::BySession, TraceEvent::Found(Some(id))) => {
                &&& next.stage == TraceStage::Resolved
                &&& opt_text(next.new_trace_id) == opt_text(self.new_trace_id)
                &&& action matches TraceAction::Resolved(found)
                &&& found@ == id@
            },
            (TraceStage::ByAgent, TraceEvent::Found(Some(id))) => {
                &&& next.stage == TraceStage::Resolved
                &&& opt_text(next.new_trace_id) == opt_text(self.new_trace_id)
                &&& action matches TraceAction::Resolved(found)
                &&& found@ == id@
            },
            (TraceStage::BySession, TraceEvent::Found(None)) => self.tries_agent(next, action),
            (TraceStage::ByAgent, TraceEvent::Found(None)) => self.creates_or_fails(
                next,
                action,
            ),
            (TraceStage::Creating, TraceEvent::Created) => {
                &&& next.stage == TraceStage::Resolved
                &&& opt_text(next.new_trace_id) == opt_text(self.new_trace_id)
                &&& action matches TraceAction::Resolved(found)
                &&& found@ == match self.new_trace_id {
                    Some(id) => id@,
                    None => Seq::empty(),
                }
            },
            (_, TraceEvent::StoreFailed(why)) => {
                &&& next.stage == TraceStage::Failed
                &&& opt_text(next.new_trace_id) == opt_text(self.new_trace_id)
                &&& action matches TraceAction::Fail(text)
                &&& text@ == why@
            },
            _ => {
                &&& next.stage == TraceStage::Failed
                &&& opt_text(next.new_trace_id) == opt_text(self.new_trace_id)
                &&& action matches TraceAction::Fail(text)
                &&& text@ == "unexpected event"@
            },
        }
    }

    /// Whether `started` is the search for the trace of an event with the given hint,
    /// and what it asks first.
    pub open spec fn begins(
        hint: TraceHint,
        auto_create: bool,
        now: i64,
        started: (Self, TraceAction),
    ) -> bool {
        let blank = TraceResolution {
            hint,
            auto_create,
            now,
            new_trace_id: None,
            stage: TraceStage::BySession,
        };
        &&& opt_text(started.0.hint.trace_id) == opt_text(hint.trace_id)
        &&& opt_text(started.0.hint.session_id) == opt_text(hint.session_id)
        &&& opt_text(started.0.hint.agent_id) == opt_text(hint.agent_id)
        &&& started.0.auto_create == auto_create
        &&& started.0.now == now
        &&& if hint.trace_id is Some {
            &&& started.0.stage == TraceStage::Resolved
            &&& started.0.new_trace_id is None
            &&& started.1 matches TraceAction::Resolved(id)
            &&& id@ == hint.trace_id->0@
        } else if hint.session_id is Some {
            &&& started.0.stage == TraceStage::BySession
            &&& started.0.new_trace_id is None
            &&& started.1 matches TraceAction::FindBySession(session)
            &&& session@ == hint.session_id->0@
        } else {
            blank.tries_agent(started.0, started.1)
        }
    }

    fn create_or_fail(self, fresh: String) -> (next: (Self, TraceAction))
        ensures
            self.creates_or_fails(next.0, next.1),
            next.1 matches TraceAction::CreateTrace(trace) ==> trace.id == fresh,
            next.0.hint == self.hint,
            next.0.auto_create == self.auto_create,
            next.0.now == self.now,
    {
        if self.auto_create {
            let trace = Trace {
                id: fresh.clone(),
                session_id: match &self.hint.session_id {
                    Some(s) => s.clone(),
                    None => owned("default"),
                },
                agent_id: clone_opt(&self.hint.agent_id),
                status: TraceStatus::Running,
                start_time: self.now,
                created_at: self.now,
                updated_at: self.now,
            };
            (
                TraceResolution { new_trace_id: Some(fresh), stage: TraceStage::Creating, ..self },
                TraceAction::CreateTrace(trace),
            )
        } else {
            let why = if self.hint.session_id.is_some() || self.hint.agent_id.is_some() {
                owned("Trace not found and auto-create disabled")
            } else {
                owned("No trace specified and auto-create disabled")
            };
            (TraceResolution { stage: TraceStage::Failed, ..self }, TraceAction::Fail(why))
        }
    }

    fn try_agent(self, fresh: String) -> (next: (Self, TraceAction))
        ensures
            self.tries_agent(next.0, next.1),
            next.1 matches TraceAction::CreateTrace(trace) ==> trace.id == fresh,
            next.0.hint == self.hint,
            next.0.auto_create == self.auto_create,
            next.0.now == self.now,
    {
        match &self.hint.agent_id {
            Some(agent) => {
                let since = if self.now < i64::MIN + RECENT_TRACE_MILLIS {
                    i64::MIN
                } else {
                    self.now - RECENT_TRACE_MILLIS
                };
                let action = TraceAction::FindRecentByAgent { agent_id: agent.clone(), since };
                (TraceResolution { stage: TraceStage::ByAgent, ..self }, action)
            },
            None => self.create_or_fail(fresh),
        }
    }

    /// The start of the search for the trace of an event, where `fresh` is the
    /// identifier of the trace that is created if one has to be.
    pub fn begin_with(hint: TraceHint, auto_create: bool, now: i64, fresh: String) -> (started: (
        Self,
        TraceAction,
    ))
        ensures
            TraceResolution::begins(hint, auto_create, now, started),
            started.1 matches TraceAction::CreateTrace(trace) ==> trace.id == fresh,
    {
        let resolution = TraceResolution {
            hint,
            auto_create,
            now,
            new_trace_id: None,
            stage: TraceStage::BySession,
        };
        if let Some(id) = &resolution.hint.trace_id {
            let action = TraceAction::Resolved(id.clone());
            return (TraceResolution { stage: TraceStage::Resolved, ..resolution }, action);
        }
        if let Some(session) = &resolution.hint.session_id {
            let action = TraceAction::FindBySession(session.clone());
            return (resolution, action);
        }
        resolution.try_agent(fresh)
    }

    /// The start of the search for the trace of an event. A trace that has to be
    /// created has a fresh universally unique identifier.
    pub fn begin(hint: TraceHint, auto_create: bool, now: i64) -> (started: (Self, TraceAction))
        ensures
            TraceResolution::begins(hint, auto_create, now, started),
            started.1 matches TraceAction::CreateTrace(trace) ==> crate::runtime::is_uuid_text(
                trace.id@,
            ),
    {
        TraceResolution::begin_with(hint, auto_create, now, fresh_uuid())
    }

    /// Takes what came back from the graph store, and says what to do next, where
    /// `fresh` is the identifier of the trace that is created if one has to be.
    pub fn advance_with(self, event: TraceEvent, fresh: String) -> (next: (Self, TraceAction))
        ensures
            self.leads_to(event, next.0, next.1),
            next.1 matches TraceAction::CreateTrace(trace) ==> trace.id == fresh,
    {
        match event {
            TraceEvent::StoreFailed(why) => (
                TraceResolution { stage: TraceStage::Failed, ..self },
                TraceAction::Fail(why),
            ),
            TraceEvent::Found(found) => match self.stage {
                TraceStage::BySession => match found {
                    Some(id) => (
                        TraceResolution { stage: TraceStage::Resolved, ..self },
                        TraceAction::Resolved(id),
                    ),
                    None => self.try_agent(fresh),
                },
                TraceStage::ByAgent => match found {
                    Some(id) => (
                        TraceResolution { stage: TraceStage::Resolved, ..self },
                        TraceAction::Resolved(id),
                    ),
                    None => self.create_or_fail(fresh),
                },
                _ => self.unexpected(),
            },
            TraceEvent::Created => match self.stage {
                TraceStage::Creating => {
                    let id = match &self.new_trace_id {
                        Some(id) => id.clone(),
                        None => String::new(),
                    };
                    (
                        TraceResolution { stage: TraceStage::Resolved, ..self },
                        TraceAction::Resolved(id),
                    )
                },
                _ => self.unexpected(),
            },
        }
    }

    /// Takes what came back from the graph store, and says what to do next.
    pub fn advance(self, event: TraceEvent) -> (next: (Self, TraceAction))
        ensures
            self.leads_to(event, next.0, next.1),
            next.1 matches TraceAction::CreateTrace(trace) ==> crate::runtime::is_uuid_text(
                trace.id@,
            ),
    {
        self.advance_with(event, fresh_uuid())
    }

    fn unexpected(self) -> (next: (Self, TraceAction))
        ensures
            next.0 == (TraceResolution { stage: TraceStage::Failed, ..self }),
            next.1 matches TraceAction::Fail(text) && text@ == "unexpected event"@,
    {
        (
            TraceResolution { stage: TraceStage::Failed, ..self },
            TraceAction::Fail(owned("unexpected event")),
        )
    }
}

} // verus!
