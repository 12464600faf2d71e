use crate::agent::cloudwatch_client::LogEvent;
use crate::agent::config::{LogGroupConfig, ParserRule, ParserType};
use crate::text::{clone_opt, decimal, decimal_text, first_position, key_position, owned, str_eq};
use vstd::prelude::*;

verus! {

/// What a regular expression captures in a text under a group's name: nothing at all
/// where the pattern is no regular expression or matches nowhere in the text; else the
/// part of the first match that the group of that name took, or none where the
/// pattern has no such group or the group took no part in the match.
pub uninterp spec fn regex_group(pattern: Seq<char>, name: Seq<char>, text: Seq<char>) -> Option<
    Option<Seq<char>>,
>;

/// How many groups a regular expression has, the whole match counted as one; none
/// where the pattern is no regular expression.
pub uninterp spec fn regex_groups(pattern: Seq<char>) -> Option<nat>;

/// What was captured, by its characters.
pub open spec fn capture_view(found: Option<Option<String>>) -> Option<Option<Seq<char>>> {
    match found {
        Some(Some(s)) => Some(Some(s@)),
        Some(None) => Some(None),
        None => None,
    }
}

/// Calls `regex::Regex::new` on the pattern, `Regex::captures` on the text, and
/// `Captures::name` on what was captured. The contract names the result, which depends
/// on the three texts alone: none where the pattern does not compile or does not
/// match, else the text of the named group, if it took part.
#[verifier::external_body]
pub(crate) fn capture_group(pattern: &str, name: &str, text: &str) -> (found: Option<
    Option<String>,
>)
    ensures
        capture_view(found) == regex_group(pattern@, name@, text@),
{
    regex::Regex::new(pattern).ok().and_then(
        |re| re.captures(text).map(|caps| caps.name(name).map(|m| m.as_str().to_string())),
    )
}

/// Calls `regex::Regex::new` on the pattern and `Regex::captures_len` on the result.
/// The contract names the result, which depends on the pattern alone: the number of
/// its groups, or none where it does not compile.
#[verifier::external_body]
pub(crate) fn group_count(pattern: &str) -> (count: Option<usize>)
    ensures
        match count {
            Some(n) => regex_groups(pattern@) == Some(n as nat),
            None => regex_groups(pattern@) is None,
        },
{
    regex::Regex::new(pattern).ok().map(|re| re.captures_len())
}

/// The pattern of a tool call as LangChain logs it.
pub open spec fn tool_pattern() -> Seq<char> {
    r"(?i)(?:Entering new|Finished|Running) (?P<tool_name>\w+)(?: tool)?.*?(?:input[:\s]+)?(?P<input>\{.*?\}|[^\n]+)"@
}

/// The pattern of a chain as LangChain logs it.
pub open spec fn chain_pattern() -> Seq<char> {
    r"(?i)(?:Entering new|Finished) (?P<chain_type>\w+) chain.*?(?:with input[:\s]+)?(?P<input>.*)"@
}

/// The pattern of an agent's action as LangChain logs it.
pub open spec fn action_pattern() -> Seq<char> {
    r"(?i)Agent (?P<action>Action|Finished).*?(?:tool[:\s]+)?(?P<tool>\w+)?.*?(?:input[:\s]+)?(?P<input>.*)"@
}

/// The pattern of a query as LlamaIndex logs it.
pub open spec fn query_pattern() -> Seq<char> {
    r"(?i)query[:\s]+(?P<query_text>[^\n]+).*?(?:response[:\s]+)?(?P<response>.*)"@
}

/// The pattern of a retrieval as LlamaIndex logs it.
pub open spec fn retrieve_pattern() -> Seq<char> {
    r"(?i)retrieve.*?(?:query[:\s]+)?(?P<query>[^\n]+).*?(?:nodes[:\s]+)?(?P<node_count>\d+)"@
}

/// The pattern that finds the identifier of a request in a log entry.
pub open spec fn request_id_pattern() -> Seq<char> {
    r"(?i)(?:request[-_]?id|req[-_]?id|trace[-_]?id)[:\s]+(?P<id>[a-zA-Z0-9\-]+)"@
}

/// The pattern that finds the identifier of a session in a log entry.
pub open spec fn session_id_pattern() -> Seq<char> {
    r"(?i)(?:session[-_]?id|sess[-_]?id)[:\s]+(?P<id>[a-zA-Z0-9\-]+)"@
}

/// The pattern that finds the identifier of an agent in a log entry.
pub open spec fn agent_id_pattern() -> Seq<char> {
    r"(?i)(?:agent[-_]?id|agent[-_]?name)[:\s]+(?P<id>[a-zA-Z0-9\-]+)"@
}

/// A value of a parsed log entry.
#[derive(Debug)]
pub enum LogValue {
    Text(String),
    Count(u32),
    Flag(bool),
    /// Any other value, as JSON text.
    Json(String),
}

/// A value of a parsed log entry, by its characters.
pub enum LogValueView {
    Text(Seq<char>),
    Count(u32),
    Flag(bool),
    Json(Seq<char>),
}

impl View for LogValue {
    type V = LogValueView;

    open spec fn view(&self) -> LogValueView {
        match *self {
            LogValue::Text(s) => LogValueView::Text(s@),
            LogValue::Count(n) => LogValueView::Count(n),
            LogValue::Flag(b) => LogValueView::Flag(b),
            LogValue::Json(s) => LogValueView::Json(s@),
        }
    }
}

impl Clone for LogValue {
    fn clone(&self) -> (copy: Self)
        ensures
            copy@ == self@,
    {
        match self {
            LogValue::Text(s) => LogValue::Text(s.clone()),
            LogValue::Count(n) => LogValue::Count(*n),
            LogValue::Flag(b) => LogValue::Flag(*b),
            LogValue::Json(s) => LogValue::Json(s.clone()),
        }
    }
}

/// A named value of a parsed log entry.
#[derive(Debug)]
pub struct LogField {
    pub name: String,
    pub value: LogValue,
}

/// A list of named values by their characters.
pub open spec fn field_views(fields: Seq<LogField>) -> Seq<(Seq<char>, LogValueView)> {
    fields.map_values(|f: LogField| (f.name@, f.value@))
}

/// The names of a list of named values.
pub open spec fn names(fields: Seq<(Seq<char>, LogValueView)>) -> Seq<Seq<char>> {
    fields.map_values(|f: (Seq<char>, LogValueView)| f.0)
}

/// What a log entry is when it is read as JSON.
#[derive(Debug)]
pub enum ParsedMessage {
    /// The entry is no JSON.
    NotJson,
    /// The entry is a JSON object with these members.
    Object(Vec<LogField>),
    /// The entry is another JSON value, given as JSON text.
    Value(String),
}

/// Where a log entry came from.
#[derive(Debug)]
pub struct ShippedSource {
    pub system: String,
    pub log_group: String,
    pub log_stream: String,
    pub log_id: String,
}

/// A log entry as it is sent to the ingestion.
#[derive(Debug)]
pub struct ShippedEvent {
    pub trace_id: Option<String>,
    /// When the entry was logged, in milliseconds since the start of 1970.
    pub timestamp: i64,
    pub event_type: Option<String>,
    pub agent_id: Option<String>,
    pub session_id: Option<String>,
    pub properties: Vec<LogField>,
    pub source: ShippedSource,
}

/// A log entry as it is sent, by its characters.
pub struct ShippedView {
    pub trace_id: Option<Seq<char>>,
    pub timestamp: i64,
    pub event_type: Option<Seq<char>>,
    pub agent_id: Option<Seq<char>>,
    pub session_id: Option<Seq<char>>,
    pub properties: Seq<(Seq<char>, LogValueView)>,
    pub system: Seq<char>,
    pub log_group: Seq<char>,
    pub log_stream: Seq<char>,
    pub log_id: Seq<char>,
}

/// The characters of an optional text.
pub open spec fn chars(value: Option<String>) -> Option<Seq<char>> {
    match value {
        Some(s) => Some(s@),
        None => None,
    }
}

impl View for ShippedEvent {
    type V = ShippedView;

    open spec fn view(&self) -> ShippedView {
        ShippedView {
            trace_id: chars(self.trace_id),
            timestamp: self.timestamp,
            event_type: chars(self.event_type),
            agent_id: chars(self.agent_id),
            session_id: chars(self.session_id),
            properties: field_views(self.properties@),
            system: self.source.system@,
            log_group: self.source.log_group@,
            log_stream: self.source.log_stream@,
            log_id: self.source.log_id@,
        }
    }
}

/// The text that the named group of a pattern took in a text, if the pattern matches
/// and the group took part.
pub open spec fn group(pattern: Seq<char>, name: Seq<char>, text: Seq<char>) -> Option<Seq<char>> {
    match regex_group(pattern, name, text) {
        Some(Some(s)) => Some(s),
        _ => None,
    }
}

/// A list of named values with one more text, where there is one.
pub open spec fn with_text(
    fields: Seq<(Seq<char>, LogValueView)>,
    name: Seq<char>,
    value: Option<Seq<char>>,
) -> Seq<(Seq<char>, LogValueView)> {
    match value {
        Some(v) => fields.push((name, LogValueView::Text(v))),
        None => fields,
    }
}

/// A list of named values with `value` under `name`: in the place of the value of
/// that name, or at the end where there is none.
pub open spec fn upsert(
    fields: Seq<(Seq<char>, LogValueView)>,
    name: Seq<char>,
    value: LogValueView,
) -> Seq<(Seq<char>, LogValueView)> {
    match first_position(names(fields), name) {
        Some(i) => fields.update(i, (name, value)),
        None => fields.push((name, value)),
    }
}

/// The value that a list holds under a name: the first, if there are several.
pub open spec fn lookup(fields: Seq<(Seq<char>, LogValueView)>, name: Seq<char>) -> Option<
    LogValueView,
> {
    match first_position(names(fields), name) {
        Some(i) => Some(fields[i].1),
        None => None,
    }
}

/// The pairs of a mapping by their characters.
pub open spec fn mapping_views(mapping: Seq<(String, String)>) -> Seq<(Seq<char>, Seq<char>)> {
    mapping.map_values(|m: (String, String)| (m.0@, m.1@))
}

/// What a mapping picks from a list of named values: for each pair of the mapping
/// whose first name the list holds, the value under the second name.
pub open spec fn picked(
    fields: Seq<(Seq<char>, LogValueView)>,
    mapping: Seq<(Seq<char>, Seq<char>)>,
) -> Seq<(Seq<char>, LogValueView)>
    decreases mapping.len(),
{
    if mapping.len() == 0 {
        Seq::empty()
    } else {
        let rest = picked(fields, mapping.drop_last());
        match lookup(fields, mapping.last().0) {
            Some(v) => rest.push((mapping.last().1, v)),
            None => rest,
        }
    }
}

/// A list of named values with each of `more` put under its name, one after the other.
pub open spec fn upsert_all(
    fields: Seq<(Seq<char>, LogValueView)>,
    more: Seq<(Seq<char>, LogValueView)>,
) -> Seq<(Seq<char>, LogValueView)>
    decreases more.len(),
{
    if more.len() == 0 {
        fields
    } else {
        upsert(upsert_all(fields, more.drop_last()), more.last().0, more.last().1)
    }
}

/// A list of named values after a mapping was applied: what the mapping picks from
/// the list is put into the list under the new names.
pub open spec fn mapped(
    fields: Seq<(Seq<char>, LogValueView)>,
    mapping: Seq<(Seq<char>, Seq<char>)>,
) -> Seq<(Seq<char>, LogValueView)> {
    upsert_all(fields, picked(fields, mapping))
}

/// How many groups a pattern of `count` groups has beyond the whole match.
pub open spec fn beyond_whole(count: nat) -> nat {
    if count == 0 {
        0
    } else {
        (count - 1) as nat
    }
}

/// The value of a decimal digit.
pub open spec fn digit_value(c: char) -> Option<nat> {
    if c == '0' {
        Some(0)
    } else if c == '1' {
        Some(1)
    } else if c == '2' {
        Some(2)
    } else if c == '3' {
        Some(3)
    } else if c == '4' {
        Some(4)
    } else if c == '5' {
        Some(5)
    } else if c == '6' {
        Some(6)
    } else if c == '7' {
        Some(7)
    } else if c == '8' {
        Some(8)
    } else if c == '9' {
        Some(9)
    } else {
        None
    }
}

/// The number that a text of decimal digits writes, if it is one.
pub open spec fn written_number(text: Seq<char>) -> Option<nat>
    decreases text.len(),
{
    if text.len() == 0 {
        None
    } else if text.len() == 1 {
        digit_value(text[0])
    } else {
        match (written_number(text.drop_last()), digit_value(text.last())) {
            (Some(n), Some(d)) => Some(n * 10 + d),
            _ => None,
        }
    }
}

/// The count that a text writes: a number of decimal digits that is no greater than
/// the greatest count.
pub open spec fn written_count(text: Seq<char>) -> Option<u32> {
    match written_number(text) {
        Some(n) => if n <= u32::MAX {
            Some(n as u32)
        } else {
            None
        },
        None => None,
    }
}

/// The one named value that says which framework logged an entry.
pub open spec fn framework(name: Seq<char>) -> Seq<(Seq<char>, LogValueView)> {
    seq![("framework"@, LogValueView::Text(name))]
}

/// What the patterns capture in one log entry: for each pattern of the frameworks
/// nothing where it does not match, else what its groups took; the identifiers that
/// the entry writes; and for each rule of the log group, in the rules' order, nothing
/// where the rule has no pattern that matches, else what the groups named 0, 1 and so
/// on took.
#[derive(Debug)]
pub struct Captures {
    /// Of a tool call: the name of the tool, and its input.
    pub tool: Option<(Option<String>, Option<String>)>,
    /// Of a chain: its type, and its input.
    pub chain: Option<(Option<String>, Option<String>)>,
    /// Of an agent's action: the action, the tool, and the input.
    pub action: Option<(Option<String>, Option<String>, Option<String>)>,
    /// Of a query: its text, and the response.
    pub query: Option<(Option<String>, Option<String>)>,
    /// Of a retrieval: the query, and the digits of the count of nodes.
    pub retrieval: Option<(Option<String>, Option<String>)>,
    pub session_id: Option<String>,
    pub request_id: Option<String>,
    pub agent_id: Option<String>,
    pub rules: Vec<Option<Vec<Option<String>>>>,
}

/// What the patterns capture in one log entry, by its characters.
pub struct CapturesView {
    pub tool: Option<(Option<Seq<char>>, Option<Seq<char>>)>,
    pub chain: Option<(Option<Seq<char>>, Option<Seq<char>>)>,
    pub action: Option<(Option<Seq<char>>, Option<Seq<char>>, Option<Seq<char>>)>,
    pub query: Option<(Option<Seq<char>>, Option<Seq<char>>)>,
    pub retrieval: Option<(Option<Seq<char>>, Option<Seq<char>>)>,
    pub session_id: Option<Seq<char>>,
    pub request_id: Option<Seq<char>>,
    pub agent_id: Option<Seq<char>>,
    pub rules: Seq<Option<Seq<Option<Seq<char>>>>>,
}

/// Two optional texts by their characters.
pub open spec fn pair_chars(pair: Option<(Option<String>, Option<String>)>) -> Option<
    (Option<Seq<char>>, Option<Seq<char>>),
> {
    match pair {
        Some(p) => Some((chars(p.0), chars(p.1))),
        None => None,
    }
}

/// Three optional texts by their characters.
pub open spec fn triple_chars(triple: Option<(Option<String>, Option<String>, Option<String>)>) -> Option<
    (Option<Seq<char>>, Option<Seq<char>>, Option<Seq<char>>),
> {
    match triple {
        Some(p) => Some((chars(p.0), chars(p.1), chars(p.2))),
        None => None,
    }
}

/// A list of optional texts by their characters.
pub open spec fn list_chars(list: Seq<Option<String>>) -> Seq<Option<Seq<char>>> {
    list.map_values(|x: Option<String>| chars(x))
}

/// What the rules' patterns captured, by its characters.
pub open spec fn rules_chars(rules: Seq<Option<Vec<Option<String>>>>) -> Seq<
    Option<Seq<Option<Seq<char>>>>,
> {
    rules.map_values(
        |r: Option<Vec<Option<String>>>|
            match r {
                Some(groups) => Some(list_chars(groups@)),
                None => None,
            },
    )
}

impl View for Captures {
    type V = CapturesView;

    open spec fn view(&self) -> CapturesView {
        CapturesView {
            tool: pair_chars(self.tool),
            chain: pair_chars(self.chain),
            action: triple_chars(self.action),
            query: pair_chars(self.query),
            retrieval: pair_chars(self.retrieval),
            session_id: chars(self.session_id),
            request_id: chars(self.request_id),
            agent_id: chars(self.agent_id),
            rules: rules_chars(self.rules@),
        }
    }
}

/// What the first two groups of a pattern take in a text, the first standing for the
/// match.
pub open spec fn two_groups(
    pattern: Seq<char>,
    first: Seq<char>,
    second: Seq<char>,
    text: Seq<char>,
) -> Option<(Option<Seq<char>>, Option<Seq<char>>)> {
    match regex_group(pattern, first, text) {
        Some(taken) => Some((taken, group(pattern, second, text))),
        None => None,
    }
}

/// What the groups of a pattern with the names 0, 1, and so on below `count` took in
/// a text.
pub open spec fn numbered_groups(pattern: Seq<char>, text: Seq<char>, count: nat) -> Seq<
    Option<Seq<char>>,
> {
    Seq::new(count, |k: int| group(pattern, decimal(k as nat), text))
}

/// What the pattern of a rule captures in a log entry: nothing where the rule goes by
/// no pattern, where its pattern is no regular expression, or where it does not
/// match.
pub open spec fn rule_captures(rule: ParserRule, text: Seq<char>) -> Option<Seq<Option<Seq<char>>>> {
    if rule.parser_type == ParserType::Regex {
        match rule.pattern {
            Some(p) => match regex_groups(p@) {
                Some(n) => if regex_group(p@, Seq::empty(), text) is Some {
                    Some(numbered_groups(p@, text, beyond_whole(n)))
                } else {
                    None
                },
                None => None,
            },
            None => None,
        }
    } else {
        None
    }
}

/// What the patterns of the library and of the rules capture in a log entry.
pub open spec fn captured(text: Seq<char>, rules: Seq<ParserRule>) -> CapturesView {
    CapturesView {
        tool: two_groups(tool_pattern(), "tool_name"@, "input"@, text),
        chain: two_groups(chain_pattern(), "chain_type"@, "input"@, text),
        action: match regex_group(action_pattern(), "action"@, text) {
            Some(taken) => Some(
                (
                    taken,
                    group(action_pattern(), "tool"@, text),
                    group(action_pattern(), "input"@, text),
                ),
            ),
            None => None,
        },
        query: two_groups(query_pattern(), "query_text"@, "response"@, text),
        retrieval: two_groups(retrieve_pattern(), "query"@, "node_count"@, text),
        session_id: group(session_id_pattern(), "id"@, text),
        request_id: group(request_id_pattern(), "id"@, text),
        agent_id: group(agent_id_pattern(), "id"@, text),
        rules: Seq::new(rules.len(), |i: int| rule_captures(rules[i], text)),
    }
}

/// The named values of numbered groups: each group that took part, under its number.
pub open spec fn numbered(groups: Seq<Option<Seq<char>>>) -> Seq<(Seq<char>, LogValueView)>
    decreases groups.len(),
{
    if groups.len() == 0 {
        Seq::empty()
    } else {
        with_text(
            numbered(groups.drop_last()),
            decimal((groups.len() - 1) as nat),
            groups.last(),
        )
    }
}

/// What the LangChain patterns make of a log entry, the first that matches: a tool
/// call, the execution of a chain, or an agent's action, with what the groups took.
pub open spec fn langchain(c: CapturesView) -> Option<
    (Option<Seq<char>>, Seq<(Seq<char>, LogValueView)>),
> {
    match c.tool {
        Some(tool) => Some(
            (
                Some("tool_call"@),
                with_text(with_text(framework("langchain"@), "tool_name"@, tool.0), "input"@, tool.1),
            ),
        ),
        None => match c.chain {
            Some(chain) => Some(
                (
                    Some("chain_execution"@),
                    with_text(
                        with_text(framework("langchain"@), "chain_type"@, chain.0),
                        "input"@,
                        chain.1,
                    ),
                ),
            ),
            None => match c.action {
                Some(action) => Some(
                    (
                        Some("agent_action"@),
                        with_text(
                            with_text(
                                with_text(framework("langchain"@), "action"@, action.0),
                                "tool"@,
                                action.1,
                            ),
                            "input"@,
                            action.2,
                        ),
                    ),
                ),
                None => None,
            },
        },
    }
}

/// The count of nodes of a retrieval, where the entry writes one.
pub open spec fn node_count(digits: Option<Seq<char>>) -> Option<u32> {
    match digits {
        Some(text) => written_count(text),
        None => None,
    }
}

/// What the LlamaIndex patterns make of a log entry, the first that matches: a query
/// or a retrieval, with what the groups took.
pub open spec fn llamaindex(c: CapturesView) -> Option<
    (Option<Seq<char>>, Seq<(Seq<char>, LogValueView)>),
> {
    match c.query {
        Some(query) => Some(
            (
                Some("query"@),
                with_text(
                    with_text(framework("llamaindex"@), "query"@, query.0),
                    "response"@,
                    query.1,
                ),
            ),
        ),
        None => match c.retrieval {
            Some(retrieval) => {
                let named = with_text(framework("llamaindex"@), "query"@, retrieval.0);
                Some(
                    (
                        Some("retrieval"@),
                        match node_count(retrieval.1) {
                            Some(n) => named.push(("node_count"@, LogValueView::Count(n))),
                            None => named,
                        },
                    ),
                )
            },
            None => None,
        },
    }
}

/// The members that a log entry read as JSON has: its own where it is an object, the
/// one member `message` where it is another value, none where it is no JSON.
pub open spec fn json_members(parsed: ParsedMessage) -> Option<Seq<(Seq<char>, LogValueView)>> {
    match parsed {
        ParsedMessage::NotJson => None,
        ParsedMessage::Object(fields) => Some(field_views(fields@)),
        ParsedMessage::Value(json) => Some(seq![("message"@, LogValueView::Json(json@))]),
    }
}

/// What the pattern of the rule at `place` captured, if it matched.
pub open spec fn rule_groups(c: CapturesView, place: int) -> Option<Seq<Option<Seq<char>>>> {
    if 0 <= place < c.rules.len() {
        c.rules[place]
    } else {
        None
    }
}

/// What the rule at `place` makes of a log entry, if it applies: the type of the event
/// and its named values.
///
/// A rule for JSON applies to an entry that is JSON, and a rule with a pattern to an
/// entry that the pattern matches; both apply their mapping. The rules for LangChain
/// and LlamaIndex apply where one of their patterns matches, and name the type of the
/// event themselves.
pub open spec fn rule_outcome(rule: ParserRule, place: int, parsed: ParsedMessage, c: CapturesView) -> Option<
    (Option<Seq<char>>, Seq<(Seq<char>, LogValueView)>),
> {
    match rule.parser_type {
        ParserType::Json => match json_members(parsed) {
            Some(members) => Some(
                (chars(rule.event_type), mapped(members, mapping_views(rule.field_mapping@))),
            ),
            None => None,
        },
        ParserType::Regex => match rule_groups(c, place) {
            Some(groups) => Some(
                (
                    chars(rule.event_type),
                    mapped(numbered(groups), mapping_views(rule.field_mapping@)),
                ),
            ),
            None => None,
        },
        ParserType::LangChain => langchain(c),
        ParserType::LlamaIndex => llamaindex(c),
    }
}

/// The rule among the first `upto` that is taken for a log entry: of the rules that
/// apply the one of the least priority number, and of several such the first.
pub open spec fn best_rule(
    rules: Seq<ParserRule>,
    parsed: ParsedMessage,
    c: CapturesView,
    upto: nat,
) -> Option<int>
    decreases upto,
{
    if upto == 0 || upto > rules.len() {
        None
    } else {
        let before = best_rule(rules, parsed, c, (upto - 1) as nat);
        let rule = rules[upto - 1];
        if (before is None || rule.priority < rules[before->0].priority) && rule_outcome(
            rule,
            upto - 1,
            parsed,
            c,
        ) is Some {
            Some(upto - 1)
        } else {
            before
        }
    }
}

/// What is sent for an entry that no rule applies to: the entry as it is.
pub open spec fn fallback(message: Seq<char>) -> Seq<(Seq<char>, LogValueView)> {
    seq![("message"@, LogValueView::Text(message)), ("raw_log"@, LogValueView::Flag(true))]
}

/// The session of a log entry: the identifier of a session that the entry writes, or
/// else that of a request.
pub open spec fn session_of(c: CapturesView) -> Option<Seq<char>> {
    match c.session_id {
        Some(id) => Some(id),
        None => c.request_id,
    }
}

/// The agent of a log entry: that of its log group, or else the one that the entry
/// writes.
pub open spec fn agent_of(config: LogGroupConfig, c: CapturesView) -> Option<Seq<char>> {
    match config.agent_id {
        Some(id) => Some(id@),
        None => c.agent_id,
    }
}

/// What is sent for a log entry, given what the patterns captured in it: what the rule
/// taken makes of it, or the entry as it is where no rule applies; with the session
/// and the agent found in it, and where it came from.
pub open spec fn shipped_from(
    event: LogEvent,
    config: LogGroupConfig,
    parsed: ParsedMessage,
    c: CapturesView,
) -> ShippedView {
    let taken = match best_rule(config.parsers@, parsed, c, config.parsers@.len()) {
        Some(i) => rule_outcome(config.parsers@[i], i, parsed, c)->0,
        None => (None, fallback(event.message@)),
    };
    ShippedView {
        trace_id: None,
        timestamp: event.timestamp,
        event_type: taken.0,
        agent_id: agent_of(config, c),
        session_id: session_of(c),
        properties: taken.1,
        system: "cloudwatch"@,
        log_group: event.log_group@,
        log_stream: event.log_stream@,
        log_id: event.event_id@,
    }
}

/// What is sent for a log entry: what follows from what the patterns capture in it.
pub open spec fn shipped(event: LogEvent, config: LogGroupConfig, parsed: ParsedMessage) -> ShippedView {
    shipped_from(event, config, parsed, captured(event.message@, config.parsers@))
}

/// The rule taken applies, and no rule that applies comes before it: none has a
/// smaller priority number, and none of the same number stands earlier. Where no rule
/// is taken, none applies.
pub proof fn the_rule_taken_comes_first(
    rules: Seq<ParserRule>,
    parsed: ParsedMessage,
    c: CapturesView,
    upto: nat,
)
    requires
        upto <= rules.len(),
    ensures
        match best_rule(rules, parsed, c, upto) {
            Some(i) => {
                &&& 0 <= i < upto
                &&& rule_outcome(rules[i], i, parsed, c) is Some
                &&& forall|j: int|
                    0 <= j < upto && rule_outcome(#[trigger] rules[j], j, parsed, c) is Some
                        ==> rules[i].priority < rules[j].priority || (rules[i].priority
                        == rules[j].priority && i <= j)
            },
            None => forall|j: int|
                0 <= j < upto ==> rule_outcome(#[trigger] rules[j], j, parsed, c) is None,
        },
    decreases upto,
{
    if upto > 0 {
        the_rule_taken_comes_first(rules, parsed, c, (upto - 1) as nat);
    }
}

/// Copies of a list of named values.
pub fn clone_fields(fields: &Vec<LogField>) -> (copy: Vec<LogField>)
    ensures
        field_views(copy@) == field_views(fields@),
{
    let mut copy: Vec<LogField> = Vec::new();
    let mut i: usize = 0;
    while i < fields.len()
        invariant
            i <= fields.len(),
            field_views(copy@) == field_views(fields@).take(i as int),
        decreases fields.len() - i,
    {
        let ghost before = field_views(copy@);
        copy.push(LogField { name: fields[i].name.clone(), value: fields[i].value.clone() });
        assert(field_views(copy@) =~= before.push(field_views(fields@)[i as int]));
        assert(field_views(fields@).take(i + 1) =~= before.push(field_views(fields@)[i as int]));
        i += 1;
    }
    assert(field_views(fields@).take(fields.len() as int) =~= field_views(fields@));
    copy
}

/// Where a name first stands in a list of named values.
fn field_position(fields: &Vec<LogField>, name: &str) -> (pos: Option<usize>)
    ensures
        match pos {
            Some(i) => first_position(names(field_views(fields@)), name@) == Some(i as int) && i
                < fields.len(),
            None => first_position(names(field_views(fields@)), name@) is None,
        },
{
    let ghost keys = names(field_views(fields@));
    let mut i: usize = 0;
    while i < fields.len()
        invariant
            i <= fields.len(),
            keys == names(field_views(fields@)),
            first_position(keys, name@) == key_position(keys, name@, i as int),
        decreases fields.len() - i,
    {
        assert(keys[i as int] == fields@[i as int].name@);
        if str_eq(fields[i].name.as_str(), name) {
            return Some(i);
        }
        i += 1;
    }
    None
}

/// Puts a value into a list under a name: in the place of the value of that name, or
/// at the end.
fn put_field(fields: &mut Vec<LogField>, name: String, value: LogValue)
    ensures
        field_views(final(fields)@) == upsert(field_views(old(fields)@), name@, value@),
{
    let ghost before = field_views(fields@);
    match field_position(fields, name.as_str()) {
        Some(i) => {
            fields.set(i, LogField { name, value });
            assert(field_views(fields@) =~= before.update(i as int, (name@, value@)));
        },
        None => {
            fields.push(LogField { name, value });
            assert(field_views(fields@) =~= before.push((name@, value@)));
        },
    }
}

/// Adds a text to a list of named values, where there is one.
fn add_text(fields: &mut Vec<LogField>, name: &str, value: Option<String>)
    ensures
        field_views(final(fields)@) == with_text(field_views(old(fields)@), name@, chars(value)),
{
    let ghost before = field_views(fields@);
    match value {
        Some(v) => {
            fields.push(LogField { name: owned(name), value: LogValue::Text(v) });
            assert(field_views(fields@) =~= before.push((name@, LogValueView::Text(v@))));
        },
        None => {},
    }
}

/// The text that the named group of a pattern took in a text.
fn group_text(pattern: &str, name: &str, text: &str) -> (found: Option<String>)
    ensures
        chars(found) == group(pattern@, name@, text@),
{
    match capture_group(pattern, name, text) {
        Some(Some(s)) => Some(s),
        _ => None,
    }
}

/// Applies a mapping to a list of named values.
fn apply_mapping(fields: Vec<LogField>, mapping: &Vec<(String, String)>) -> (out: Vec<LogField>)
    ensures
        field_views(out@) == mapped(field_views(fields@), mapping_views(mapping@)),
{
    let ghost start = field_views(fields@);
    let ghost pairs = mapping_views(mapping@);
    let mut picks: Vec<LogField> = Vec::new();
    let mut i: usize = 0;
    assert(pairs.take(0) =~= Seq::empty());
    while i < mapping.len()
        invariant
            i <= mapping.len(),
            start == field_views(fields@),
            pairs == mapping_views(mapping@),
            field_views(picks@) == picked(start, pairs.take(i as int)),
        decreases mapping.len() - i,
    {
        let ghost before = field_views(picks@);
        assert(pairs.take(i + 1).drop_last() =~= pairs.take(i as int));
        assert(pairs.take(i + 1).last() == (mapping@[i as int].0@, mapping@[i as int].1@));
        match field_position(&fields, mapping[i].0.as_str()) {
            Some(at) => {
                assert(start[at as int].1 == fields@[at as int].value@);
                picks.push(LogField { name: mapping[i].1.clone(), value: fields[at].value.clone() });
                assert(field_views(picks@) =~= before.push(
                    (mapping@[i as int].1@, fields@[at as int].value@),
                ));
            },
            None => {},
        }
        i += 1;
    }
    assert(pairs.take(mapping.len() as int) =~= pairs);
    let ghost all = field_views(picks@);
    let mut out = fields;
    let mut k: usize = 0;
    assert(all.take(0) =~= Seq::empty());
    while k < picks.len()
        invariant
            k <= picks.len(),
            all == field_views(picks@),
            field_views(out@) == upsert_all(start, all.take(k as int)),
        decreases picks.len() - k,
    {
        assert(all.take(k + 1).drop_last() =~= all.take(k as int));
        assert(all.take(k + 1).last() == (picks@[k as int].name@, picks@[k as int].value@));
        put_field(&mut out, picks[k].name.clone(), picks[k].value.clone());
        k += 1;
    }
    assert(all.take(picks.len() as int) =~= all);
    out
}

/// The value of a decimal digit.
fn digit_of(c: char) -> (value: Option<u64>)
    ensures
        match value {
            Some(d) => digit_value(c) == Some(d as nat) && d < 10,
            None => digit_value(c) is None,
        },
{
    if c == '0' {
        Some(0)
    } else if c == '1' {
        Some(1)
    } else if c == '2' {
        Some(2)
    } else if c == '3' {
        Some(3)
    } else if c == '4' {
        Some(4)
    } else if c == '5' {
        Some(5)
    } else if c == '6' {
        Some(6)
    } else if c == '7' {
        Some(7)
    } else if c == '8' {
        Some(8)
    } else if c == '9' {
        Some(9)
    } else {
        None
    }
}

/// A text of digits writes no number once a part of it from the start writes none,
/// and a number that only grows with every further digit.
proof fn lemma_written_grows(text: Seq<char>, k: int)
    requires
        1 <= k <= text.len(),
    ensures
        written_number(text.take(k)) is None ==> written_number(text) is None,
        written_number(text.take(k)) is Some && written_number(text) is Some ==> written_number(
            text.take(k),
        )->0 <= written_number(text)->0,
    decreases text.len() - k,
{
    if k < text.len() {
        lemma_written_grows(text, k + 1);
        assert(text.take(k + 1).drop_last() =~= text.take(k));
    } else {
        assert(text.take(k) =~= text);
    }
}

/// The count that a text writes.
pub fn parse_count(text: &str) -> (count: Option<u32>)
    ensures
        count == written_count(text@),
{
    let n = text.unicode_len();
    if n == 0 {
        return None;
    }
    let mut total: u64 = 0;
    let mut i: usize = 0;
    while i < n
        invariant
            i <= n,
            n == text@.len(),
            n > 0,
            total <= u32::MAX,
            i > 0 ==> written_number(text@.take(i as int)) == Some(total as nat),
            i == 0 ==> total == 0,
        decreases n - i,
    {
        let digit = digit_of(text.get_char(i));
        proof {
            assert(text@.take(i + 1).drop_last() =~= text@.take(i as int));
            assert(text@.take(i + 1).last() == text@[i as int]);
            if i == 0 {
                assert(text@.take(1)[0] == text@[0]);
            }
            lemma_written_grows(text@, i + 1);
        }
        match digit {
            Some(d) => {
                let next: u64 = total * 10 + d;
                assert(written_number(text@.take(i + 1)) == Some(next as nat));
                if next > 4294967295 {
                    return None;
                }
                total = next;
            },
            None => {
                return None;
            },
        }
        i += 1;
    }
    assert(text@.take(n as int) =~= text@);
    Some(total as u32)
}

/// What the first two groups of a pattern take in a text.
fn capture_two(pattern: &str, first: &str, second: &str, text: &str) -> (taken: Option<
    (Option<String>, Option<String>),
>)
    ensures
        pair_chars(taken) == two_groups(pattern@, first@, second@, text@),
{
    match capture_group(pattern, first, text) {
        Some(one) => Some((one, group_text(pattern, second, text))),
        None => None,
    }
}

/// What the pattern of a rule captures in a log entry.
fn capture_rule(rule: &ParserRule, text: &str) -> (taken: Option<Vec<Option<String>>>)
    ensures
        match taken {
            Some(groups) => rule_captures(*rule, text@) == Some(list_chars(groups@)),
            None => rule_captures(*rule, text@) is None,
        },
{
    match rule.parser_type {
        ParserType::Regex => {},
        _ => {
            return None;
        },
    }
    let pattern = match &rule.pattern {
        Some(p) => p.as_str(),
        None => {
            return None;
        },
    };
    let count = match group_count(pattern) {
        Some(n) => n,
        None => {
            return None;
        },
    };
    proof {
        reveal_strlit("");
        assert(""@ =~= Seq::<char>::empty());
    }
    if capture_group(pattern, "", text).is_none() {
        return None;
    }
    let mut groups: Vec<Option<String>> = Vec::new();
    let mut i: usize = 0;
    while i + 1 < count
        invariant
            i + 1 <= count || i == 0,
            groups@.len() == i,
            forall|k: int|
                0 <= k < i ==> chars(#[trigger] groups@[k]) == group(
                    pattern@,
                    decimal(k as nat),
                    text@,
                ),
        decreases count - i,
    {
        let name = decimal_text(i as u64);
        groups.push(group_text(pattern, name.as_str(), text));
        i += 1;
    }
    assert(list_chars(groups@) =~= numbered_groups(pattern@, text@, beyond_whole(count as nat)));
    Some(groups)
}

/// The named values of numbered groups.
fn numbered_fields(groups: &Vec<Option<String>>) -> (fields: Vec<LogField>)
    ensures
        field_views(fields@) == numbered(list_chars(groups@)),
{
    let ghost all = list_chars(groups@);
    let mut fields: Vec<LogField> = Vec::new();
    let mut i: usize = 0;
    assert(all.take(0) =~= Seq::empty());
    assert(field_views(fields@) =~= Seq::empty());
    while i < groups.len()
        invariant
            i <= groups.len(),
            all == list_chars(groups@),
            field_views(fields@) == numbered(all.take(i as int)),
        decreases groups.len() - i,
    {
        assert(all.take(i + 1).drop_last() =~= all.take(i as int));
        assert(all.take(i + 1).last() == chars(groups@[i as int]));
        let name = decimal_text(i as u64);
        add_text(&mut fields, name.as_str(), clone_opt(&groups[i]));
        i += 1;
    }
    assert(all.take(groups.len() as int) =~= all);
    fields
}

/// Reads log entries by the rules of their log group.
#[derive(Debug, Clone, Copy)]
pub struct LogParser;

impl LogParser {
    pub fn new() -> (parser: Self) {
        LogParser
    }

    /// What the patterns of the library and of the rules capture in a log entry.
    pub fn capture(message: &str, rules: &Vec<ParserRule>) -> (c: Captures)
        ensures
            c@ == captured(message@, rules@),
    {
        let tool = r"(?i)(?:Entering new|Finished|Running) (?P<tool_name>\w+)(?: tool)?.*?(?:input[:\s]+)?(?P<input>\{.*?\}|[^\n]+)";
        let chain = r"(?i)(?:Entering new|Finished) (?P<chain_type>\w+) chain.*?(?:with input[:\s]+)?(?P<input>.*)";
        let action = r"(?i)Agent (?P<action>Action|Finished).*?(?:tool[:\s]+)?(?P<tool>\w+)?.*?(?:input[:\s]+)?(?P<input>.*)";
        let query = r"(?i)query[:\s]+(?P<query_text>[^\n]+).*?(?:response[:\s]+)?(?P<response>.*)";
        let retrieve = r"(?i)retrieve.*?(?:query[:\s]+)?(?P<query>[^\n]+).*?(?:nodes[:\s]+)?(?P<node_count>\d+)";
        let session = r"(?i)(?:session[-_]?id|sess[-_]?id)[:\s]+(?P<id>[a-zA-Z0-9\-]+)";
        let request = r"(?i)(?:request[-_]?id|req[-_]?id|trace[-_]?id)[:\s]+(?P<id>[a-zA-Z0-9\-]+)";
        let agent = r"(?i)(?:agent[-_]?id|agent[-_]?name)[:\s]+(?P<id>[a-zA-Z0-9\-]+)";
        let mut taken: Vec<Option<Vec<Option<String>>>> = Vec::new();
        let mut i: usize = 0;
        while i < rules.len()
            invariant
                i <= rules.len(),
                taken@.len() == i,
                forall|k: int|
                    0 <= k < i ==> (#[trigger] rules_chars(taken@)[k]) == rule_captures(
                        rules@[k],
                        message@,
                    ),
            decreases rules.len() - i,
        {
            let ghost before = rules_chars(taken@);
            let one = capture_rule(&rules[i], message);
            taken.push(one);
            assert forall|k: int| 0 <= k < i + 1 implies (#[trigger] rules_chars(taken@)[k])
                == rule_captures(rules@[k], message@) by {
                if k < i {
                    assert(rules_chars(taken@)[k] == before[k]);
                }
            }
            i += 1;
        }
        let c = Captures {
            tool: capture_two(tool, "tool_name", "input", message),
            chain: capture_two(chain, "chain_type", "input", message),
            action: match capture_group(action, "action", message) {
                Some(one) => Some(
                    (
                        one,
                        group_text(action, "tool", message),
                        group_text(action, "input", message),
                    ),
                ),
                None => None,
            },
            query: capture_two(query, "query_text", "response", message),
            retrieval: capture_two(retrieve, "query", "node_count", message),
            session_id: group_text(session, "id", message),
            request_id: group_text(request, "id", message),
            agent_id: group_text(agent, "id", message),
            rules: taken,
        };
        assert(c@.rules =~= captured(message@, rules@).rules);
        c
    }

    fn framed(framework: &str) -> (fields: Vec<LogField>)
        ensures
            field_views(fields@) == self::framework(framework@),
    {
        let mut fields: Vec<LogField> = Vec::new();
        fields.push(LogField { name: owned("framework"), value: LogValue::Text(owned(framework)) });
        assert(field_views(fields@) =~= self::framework(framework@));
        fields
    }

    /// What the LangChain patterns make of what was captured.
    pub fn try_langchain(c: &Captures) -> (outcome: Option<(Option<String>, Vec<LogField>)>)
        ensures
            outcome_view(outcome) == langchain(c@),
    {
        let mut fields = LogParser::framed("langchain");
        match &c.tool {
            Some(tool) => {
                add_text(&mut fields, "tool_name", clone_opt(&tool.0));
                add_text(&mut fields, "input", clone_opt(&tool.1));
                return Some((Some(owned("tool_call")), fields));
            },
            None => {},
        }
        match &c.chain {
            Some(chain) => {
                add_text(&mut fields, "chain_type", clone_opt(&chain.0));
                add_text(&mut fields, "input", clone_opt(&chain.1));
                return Some((Some(owned("chain_execution")), fields));
            },
            None => {},
        }
        match &c.action {
            Some(action) => {
                add_text(&mut fields, "action", clone_opt(&action.0));
                add_text(&mut fields, "tool", clone_opt(&action.1));
                add_text(&mut fields, "input", clone_opt(&action.2));
                Some((Some(owned("agent_action")), fields))
            },
            None => None,
        }
    }

    /// What the LlamaIndex patterns make of what was captured.
    pub fn try_llamaindex(c: &Captures) -> (outcome: Option<(Option<String>, Vec<LogField>)>)
        ensures
            outcome_view(outcome) == llamaindex(c@),
    {
        let mut fields = LogParser::framed("llamaindex");
        match &c.query {
            Some(query) => {
                add_text(&mut fields, "query", clone_opt(&query.0));
                add_text(&mut fields, "response", clone_opt(&query.1));
                return Some((Some(owned("query")), fields));
            },
            None => {},
        }
        match &c.retrieval {
            Some(retrieval) => {
                add_text(&mut fields, "query", clone_opt(&retrieval.0));
                let count = match &retrieval.1 {
                    Some(digits) => parse_count(digits.as_str()),
                    None => None,
                };
                match count {
                    Some(n) => {
                        let ghost before = field_views(fields@);
                        fields.push(LogField { name: owned("node_count"), value: LogValue::Count(n) });
                        assert(field_views(fields@) =~= before.push(
                            ("node_count"@, LogValueView::Count(n)),
                        ));
                    },
                    None => {},
                }
                Some((Some(owned("retrieval")), fields))
            },
            None => None,
        }
    }

    /// What the rule at `place` makes of a log entry, given what was captured.
    pub fn try_rule(rule: &ParserRule, place: usize, parsed: &ParsedMessage, c: &Captures) -> (outcome:
        Option<(Option<String>, Vec<LogField>)>)
        ensures
            outcome_view(outcome) == rule_outcome(*rule, place as int, *parsed, c@),
    {
        match rule.parser_type {
            ParserType::Json => {
                let members = match parsed {
                    ParsedMessage::NotJson => {
                        return None;
                    },
                    ParsedMessage::Object(fields) => clone_fields(fields),
                    ParsedMessage::Value(json) => {
                        let mut one: Vec<LogField> = Vec::new();
                        one.push(
                            LogField { name: owned("message"), value: LogValue::Json(json.clone()) },
                        );
                        assert(field_views(one@) =~= seq![
                            ("message"@, LogValueView::Json(json@)),
                        ]);
                        one
                    },
                };
                Some((clone_opt(&rule.event_type), apply_mapping(members, &rule.field_mapping)))
            },
            ParserType::Regex => {
                if place >= c.rules.len() {
                    return None;
                }
                assert(c@.rules[place as int] == rules_chars(c.rules@)[place as int]);
                match &c.rules[place] {
                    Some(groups) => {
                        let fields = numbered_fields(groups);
                        Some(
                            (
                                clone_opt(&rule.event_type),
                                apply_mapping(fields, &rule.field_mapping),
                            ),
                        )
                    },
                    None => None,
                }
            },
            ParserType::LangChain => LogParser::try_langchain(c),
            ParserType::LlamaIndex => LogParser::try_llamaindex(c),
        }
    }

    /// What is sent for a log entry of a log group, where `parsed` is the entry read
    /// as JSON and `c` what the patterns captured in it.
    pub fn parse_captured(
        &self,
        event: &LogEvent,
        config: &LogGroupConfig,
        parsed: &ParsedMessage,
        c: &Captures,
    ) -> (sent: ShippedEvent)
        ensures
            sent@ == shipped_from(*event, *config, *parsed, c@),
    {
        let rules = &config.parsers;
        let mut taken: Option<(u32, Option<String>, Vec<LogField>)> = None;
        let ghost mut at: Option<int> = None;
        let mut i: usize = 0;
        while i < rules.len()
            invariant
                i <= rules.len(),
                *rules == config.parsers,
                at == best_rule(rules@, *parsed, c@, i as nat),
                match taken {
                    Some(t) => at is Some && 0 <= at->0 < i && t.0 == rules@[at->0].priority
                        && outcome_view(Some((t.1, t.2))) == rule_outcome(
                        rules@[at->0],
                        at->0,
                        *parsed,
                        c@,
                    ),
                    None => at is None,
                },
            decreases rules.len() - i,
        {
            let rule = &rules[i];
            let better = match &taken {
                Some(t) => rule.priority < t.0,
                None => true,
            };
            if better {
                match LogParser::try_rule(rule, i, parsed, c) {
                    Some(outcome) => {
                        taken = Some((rule.priority, outcome.0, outcome.1));
                        proof {
                            at = Some(i as int);
                        }
                    },
                    None => {},
                }
            }
            i += 1;
        }
        let (event_type, properties) = match taken {
            Some(t) => (t.1, t.2),
            None => {
                let mut raw: Vec<LogField> = Vec::new();
                raw.push(
                    LogField {
                        name: owned("message"),
                        value: LogValue::Text(event.message.clone()),
                    },
                );
                raw.push(LogField { name: owned("raw_log"), value: LogValue::Flag(true) });
                assert(field_views(raw@) =~= fallback(event.message@));
                (None, raw)
            },
        };
        let session_id = match &c.session_id {
            Some(id) => Some(id.clone()),
            None => clone_opt(&c.request_id),
        };
        let agent_id = match &config.agent_id {
            Some(id) => Some(id.clone()),
            None => clone_opt(&c.agent_id),
        };
        ShippedEvent {
            trace_id: None,
            timestamp: event.timestamp,
            event_type,
            agent_id,
            session_id,
            properties,
            source: ShippedSource {
                system: owned("cloudwatch"),
                log_group: event.log_group.clone(),
                log_stream: event.log_stream.clone(),
                log_id: event.event_id.clone(),
            },
        }
    }

    /// What is sent for a log entry of a log group, where `parsed` is the entry read
    /// as JSON.
    pub fn parse(&self, event: &LogEvent, config: &LogGroupConfig, parsed: &ParsedMessage) -> (sent:
        ShippedEvent)
        ensures
            sent@ == shipped(*event, *config, *parsed),
    {
        let c = LogParser::capture(event.message.as_str(), &config.parsers);
        self.parse_captured(event, config, parsed, &c)
    }
}

/// What a rule made of a log entry, by its characters.
pub open spec fn outcome_view(outcome: Option<(Option<String>, Vec<LogField>)>) -> Option<
    (Option<Seq<char>>, Seq<(Seq<char>, LogValueView)>),
> {
    match outcome {
        Some(o) => Some((chars(o.0), field_views(o.1@))),
        None => None,
    }
}

} // verus!
