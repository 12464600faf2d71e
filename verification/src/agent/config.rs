use crate::text::{owned, views};
use vstd::prelude::*;

verus! {

/// How many events go into one request where a configuration does not say.
pub fn default_batch_size() -> (size: usize)
    ensures
        size == 100,
{
    100
}

/// How many seconds a request may take where a configuration does not say.
pub fn default_timeout() -> (secs: u64)
    ensures
        secs == 30,
{
    30
}

/// How many seconds lie between two polls where a configuration does not say.
pub fn default_poll_interval() -> (secs: u64)
    ensures
        secs == 10,
{
    10
}

/// How many seconds the first poll looks back where a configuration does not say.
pub fn default_lookback() -> (secs: u64)
    ensures
        secs == 300,
{
    300
}

/// The priority of a parser rule where a configuration does not say.
pub fn default_priority() -> (priority: u32)
    ensures
        priority == 100,
{
    100
}

/// What `true` a missing setting stands for.
pub fn default_true() -> (yes: bool)
    ensures
        yes,
{
    true
}

/// Where the logs are read from.
#[derive(Debug, Clone)]
pub struct AwsConfig {
    pub region: String,
    pub profile: Option<String>,
}

/// Where the events are sent to.
#[derive(Debug, Clone)]
pub struct VectaDBConfig {
    pub endpoint: String,
    pub api_key: Option<String>,
    pub batch_size: usize,
    pub timeout_secs: u64,
}

/// The kind of a parser.
#[derive(Debug, Clone, Copy, PartialEq, Eq, Structural)]
pub enum ParserType {
    Json,
    Regex,
    LangChain,
    LlamaIndex,
}

/// A rule by which log entries are parsed.
#[derive(Debug, Clone)]
pub struct ParserRule {
    pub name: String,
    pub parser_type: ParserType,
    /// The pattern of a parser by regular expression.
    pub pattern: Option<String>,
    pub field_mapping: Vec<(String, String)>,
    pub event_type: Option<String>,
    pub priority: u32,
}

/// A log group to read.
#[derive(Debug, Clone)]
pub struct LogGroupConfig {
    pub name: String,
    pub agent_id: Option<String>,
    pub parsers: Vec<ParserRule>,
    pub filter_pattern: Option<String>,
}

/// How the agent polls and what it asks of the ingestion.
#[derive(Debug, Clone, Copy, PartialEq, Eq, Structural)]
pub struct AgentSettings {
    pub poll_interval_secs: u64,
    pub lookback_secs: u64,
    pub auto_create_traces: bool,
    pub generate_embeddings: bool,
}

impl Default for AgentSettings {
    fn default() -> (settings: Self)
        ensures
            settings == (AgentSettings {
                poll_interval_secs: 10,
                lookback_secs: 300,
                auto_create_traces: true,
                generate_embeddings: true,
            }),
    {
        AgentSettings {
            poll_interval_secs: default_poll_interval(),
            lookback_secs: default_lookback(),
            auto_create_traces: true,
            generate_embeddings: true,
        }
    }
}

/// The configuration of the agent.
#[derive(Debug, Clone)]
pub struct AgentConfig {
    pub aws: AwsConfig,
    pub vectadb: VectaDBConfig,
    pub log_groups: Vec<LogGroupConfig>,
    pub agent: AgentSettings,
}

/// What is wrong with a configuration.
pub enum ConfigFault {
    EmptyRegion,
    EmptyEndpoint,
    NoLogGroup,
    EmptyLogGroupName,
    /// The parser of this name works by regular expression and has no pattern.
    MissingPattern(Seq<char>),
}

impl ConfigFault {
    /// The fault in words.
    pub open spec fn text(&self) -> Seq<char> {
        match *self {
            ConfigFault::EmptyRegion => "AWS region cannot be empty"@,
            ConfigFault::EmptyEndpoint => "VectaDB endpoint cannot be empty"@,
            ConfigFault::NoLogGroup => "At least one log group must be configured"@,
            ConfigFault::EmptyLogGroupName => "Log group name cannot be empty"@,
            ConfigFault::MissingPattern(name) => "Regex parser '"@ + name
                + "' must have a pattern"@,
        }
    }
}

/// Whether a parser rule lacks what it needs: it works by regular expression and has
/// no pattern.
pub open spec fn lacks_pattern(rule: ParserRule) -> bool {
    rule.parser_type == ParserType::Regex && rule.pattern is None
}

/// The fault of the first faulty rule at or after `from`.
pub open spec fn rules_fault(rules: Seq<ParserRule>, from: int) -> Option<ConfigFault>
    decreases rules.len() - from,
{
    if from < 0 || from >= rules.len() {
        None
    } else if lacks_pattern(rules[from]) {
        Some(ConfigFault::MissingPattern(rules[from].name@))
    } else {
        rules_fault(rules, from + 1)
    }
}

/// The fault of one log group: an empty name first, a faulty rule second.
pub open spec fn group_fault(group: LogGroupConfig) -> Option<ConfigFault> {
    if group.name@.len() == 0 {
        Some(ConfigFault::EmptyLogGroupName)
    } else {
        rules_fault(group.parsers@, 0)
    }
}

/// The fault of the first faulty log group at or after `from`.
pub open spec fn groups_fault(groups: Seq<LogGroupConfig>, from: int) -> Option<ConfigFault>
    decreases groups.len() - from,
{
    if from < 0 || from >= groups.len() {
        None
    } else {
        match group_fault(groups[from]) {
            Some(fault) => Some(fault),
            None => groups_fault(groups, from + 1),
        }
    }
}

/// The names of a list of log groups.
pub open spec fn group_names(groups: Seq<LogGroupConfig>) -> Seq<Seq<char>> {
    groups.map_values(|g: LogGroupConfig| g.name@)
}

impl AgentConfig {
    /// The first thing wrong with the configuration: an empty region, an empty
    /// endpoint, no log group, or the fault of the first faulty log group.
    pub open spec fn fault(&self) -> Option<ConfigFault> {
        if self.aws.region@.len() == 0 {
            Some(ConfigFault::EmptyRegion)
        } else if self.vectadb.endpoint@.len() == 0 {
            Some(ConfigFault::EmptyEndpoint)
        } else if self.log_groups@.len() == 0 {
            Some(ConfigFault::NoLogGroup)
        } else {
            groups_fault(self.log_groups@, 0)
        }
    }

    /// Checks the configuration and says in words the first thing wrong with it.
    pub fn validate(&self) -> (result: Result<(), String>)
        ensures
            match self.fault() {
                None => result is Ok,
                Some(fault) => result matches Err(text) && text@ == fault.text(),
            },
    {
        if self.aws.region.as_str().unicode_len() == 0 {
            return Err(owned("AWS region cannot be empty"));
        }
        if self.vectadb.endpoint.as_str().unicode_len() == 0 {
            return Err(owned("VectaDB endpoint cannot be empty"));
        }
        if self.log_groups.len() == 0 {
            return Err(owned("At least one log group must be configured"));
        }
        let mut i: usize = 0;
        while i < self.log_groups.len()
            invariant
                i <= self.log_groups.len(),
                self.aws.region@.len() > 0,
                self.vectadb.endpoint@.len() > 0,
                self.log_groups@.len() > 0,
                groups_fault(self.log_groups@, 0) == groups_fault(self.log_groups@, i as int),
            decreases self.log_groups.len() - i,
        {
            let group = &self.log_groups[i];
            if group.name.as_str().unicode_len() == 0 {
                return Err(owned("Log group name cannot be empty"));
            }
            let mut k: usize = 0;
            while k < group.parsers.len()
                invariant
                    k <= group.parsers.len(),
                    i < self.log_groups.len(),
                    *group == self.log_groups@[i as int],
                    group.name@.len() > 0,
                    self.aws.region@.len() > 0,
                    self.vectadb.endpoint@.len() > 0,
                    self.log_groups@.len() > 0,
                    groups_fault(self.log_groups@, 0) == groups_fault(self.log_groups@, i as int),
                    rules_fault(group.parsers@, 0) == rules_fault(group.parsers@, k as int),
                decreases group.parsers.len() - k,
            {
                let rule = &group.parsers[k];
                let by_regex = match rule.parser_type {
                    ParserType::Regex => true,
                    _ => false,
                };
                if by_regex && rule.pattern.is_none() {
                    let mut text = owned("Regex parser '");
                    text.append(rule.name.as_str());
                    text.append("' must have a pattern");
                    return Err(text);
                }
                k += 1;
            }
            i += 1;
        }
        Ok(())
    }

    /// The names of the log groups, in their order.
    pub fn log_group_names(&self) -> (names: Vec<String>)
        ensures
            views(names@) == group_names(self.log_groups@),
    {
        let ghost all = group_names(self.log_groups@);
        let mut names: Vec<String> = Vec::new();
        let mut i: usize = 0;
        assert(views(names@) =~= all.take(0));
        while i < self.log_groups.len()
            invariant
                i <= self.log_groups.len(),
                all == group_names(self.log_groups@),
                views(names@) == all.take(i as int),
            decreases self.log_groups.len() - i,
        {
            let ghost before = views(names@);
            names.push(self.log_groups[i].name.clone());
            assert(views(names@) =~= before.push(all[i as int]));
            assert(all.take(i + 1) =~= all.take(i as int).push(all[i as int]));
            i += 1;
        }
        assert(all.take(self.log_groups.len() as int) == all);
        names
    }
}

} // verus!
