use vectadb::agent::cloudwatch_client::LogEvent;
use vectadb::agent::config::{LogGroupConfig, ParserRule, ParserType};
use vectadb::agent::parser::{
    parse_count, Captures, LogField, LogParser, LogValue, ParsedMessage, ShippedEvent,
};

fn s(text: &str) -> String {
    text.to_string()
}

fn entry(message: &str) -> LogEvent {
    LogEvent {
        log_group: s("/test"),
        log_stream: s("stream-1"),
        event_id: s("1"),
        message: s(message),
        timestamp: 1700000000000,
    }
}

fn rule(name: &str, parser_type: ParserType, priority: u32) -> ParserRule {
    ParserRule {
        name: s(name),
        parser_type,
        pattern: None,
        field_mapping: vec![],
        event_type: None,
        priority,
    }
}

fn group(agent: Option<&str>, parsers: Vec<ParserRule>) -> LogGroupConfig {
    LogGroupConfig { name: s("/test"), agent_id: agent.map(s), parsers, filter_pattern: None }
}

/// Reads a log entry as JSON, as the program around the library does.
fn read(message: &str) -> ParsedMessage {
    match serde_json::from_str::<serde_json::Value>(message) {
        Err(_) => ParsedMessage::NotJson,
        Ok(serde_json::Value::Object(map)) => ParsedMessage::Object(
            map.iter()
                .map(|(k, v)| LogField {
                    name: k.clone(),
                    value: match v {
                        serde_json::Value::String(text) => LogValue::Text(text.clone()),
                        serde_json::Value::Bool(b) => LogValue::Flag(*b),
                        other => LogValue::Json(other.to_string()),
                    },
                })
                .collect(),
        ),
        Ok(other) => ParsedMessage::Value(other.to_string()),
    }
}

fn parse(message: &str, config: &LogGroupConfig) -> ShippedEvent {
    LogParser::new().parse(&entry(message), config, &read(message))
}

fn shown(event: &ShippedEvent) -> Vec<(String, String)> {
    event
        .properties
        .iter()
        .map(|f| {
            let value = match &f.value {
                LogValue::Text(t) => format!("text {}", t),
                LogValue::Count(n) => format!("count {}", n),
                LogValue::Flag(b) => format!("flag {}", b),
                LogValue::Json(j) => format!("json {}", j),
            };
            (f.name.clone(), value)
        })
        .collect()
}

fn pairs(list: &[(&str, &str)]) -> Vec<(String, String)> {
    list.iter().map(|(a, b)| (s(a), s(b))).collect()
}

#[test]
fn test_langchain_pattern() {
    let parser = LogParser::new();
    let event = LogEvent {
        log_group: "/test".to_string(),
        log_stream: "stream-1".to_string(),
        event_id: "1".to_string(),
        message: "Running WebSearch tool with input: weather forecast".to_string(),
        timestamp: 1700000000000,
    };

    let config = LogGroupConfig {
        name: "/test".to_string(),
        agent_id: Some("langchain-agent".to_string()),
        parsers: vec![ParserRule {
            name: "langchain".to_string(),
            parser_type: ParserType::LangChain,
            pattern: None,
            field_mapping: vec![],
            event_type: None,
            priority: 10,
        }],
        filter_pattern: None,
    };

    let parsed = parser.parse(&event, &config, &read(&event.message));
    assert_eq!(parsed.event_type, Some("tool_call".to_string()));
    assert_eq!(parsed.agent_id, Some("langchain-agent".to_string()));
}

#[test]
fn a_json_entry_keeps_its_members_and_names_its_source() {
    let mut json = rule("json", ParserType::Json, 10);
    json.event_type = Some(s("test"));
    let config = group(None, vec![json]);
    let sent = parse(r#"{"level":"INFO","message":"test","request_id: req-123":true}"#, &config);
    assert_eq!(sent.event_type.as_deref(), Some("test"));
    assert_eq!(sent.session_id.as_deref(), Some("req-123"));
    assert_eq!(sent.agent_id, None);
    assert_eq!(sent.trace_id, None);
    assert_eq!(sent.timestamp, 1700000000000);
    assert_eq!(
        shown(&sent),
        pairs(&[("level", "text INFO"), ("message", "text test"), ("request_id: req-123", "flag true")])
    );
    assert_eq!(
        (
            sent.source.system.as_str(),
            sent.source.log_group.as_str(),
            sent.source.log_stream.as_str(),
            sent.source.log_id.as_str()
        ),
        ("cloudwatch", "/test", "stream-1", "1")
    );

    let other = parse("[1, 2]", &config);
    assert_eq!(shown(&other), pairs(&[("message", "json [1,2]")]));
    let plain = parse("not json at all", &config);
    assert_eq!(plain.event_type, None);
    assert_eq!(shown(&plain), pairs(&[("message", "text not json at all"), ("raw_log", "flag true")]));
}

#[test]
fn a_mapping_copies_values_under_new_names() {
    let mut json = rule("json", ParserType::Json, 1);
    json.field_mapping = vec![
        (s("level"), s("severity")),
        (s("absent"), s("never")),
        (s("message"), s("level")),
        (s("level"), s("message")),
    ];
    let sent = parse(r#"{"level":"INFO","message":"hello"}"#, &group(None, vec![json]));
    assert_eq!(
        shown(&sent),
        pairs(&[("level", "text hello"), ("message", "text INFO"), ("severity", "text INFO")])
    );
}

#[test]
fn the_rule_of_the_least_priority_number_is_taken() {
    let mut named = rule("json", ParserType::Json, 5);
    named.event_type = Some(s("json"));
    let mut early = rule("early", ParserType::Json, 5);
    early.event_type = Some(s("second of equals"));
    let chain = rule("langchain", ParserType::LangChain, 1);
    let mut pattern = rule("pattern", ParserType::Regex, 0);
    pattern.pattern = Some(s("^never matches this$"));
    let config = group(Some("a"), vec![named, early, chain, pattern]);

    let sent = parse(r#"{"text":"Finished LLM chain with input: x"}"#, &config);
    assert_eq!(sent.event_type.as_deref(), Some("tool_call"));
    let sent = parse(r#"{"text":"nothing to see"}"#, &config);
    assert_eq!(sent.event_type.as_deref(), Some("json"));
    let sent = parse("nothing to see", &config);
    assert_eq!(sent.event_type, None);
    assert_eq!(shown(&sent)[1], (s("raw_log"), s("flag true")));
}

#[test]
fn a_rule_with_a_pattern_applies_where_the_pattern_matches() {
    let mut pattern = rule("pattern", ParserType::Regex, 1);
    pattern.pattern = Some(s(r"user=(?P<user>\w+) took (\d+)ms"));
    pattern.event_type = Some(s("timing"));
    let config = group(None, vec![pattern]);
    let sent = parse("user=ann took 12ms, session_id: s-1 agent-name: bot-7", &config);
    assert_eq!(sent.event_type.as_deref(), Some("timing"));
    assert_eq!(shown(&sent), Vec::<(String, String)>::new());
    assert_eq!(sent.session_id.as_deref(), Some("s-1"));
    assert_eq!(sent.agent_id.as_deref(), Some("bot-7"));
    let missed = parse("user=ann was quick", &config);
    assert_eq!(missed.event_type, None);

    let mut broken = rule("broken", ParserType::Regex, 1);
    broken.pattern = Some(s("(unclosed"));
    let none = rule("none", ParserType::Regex, 2);
    let sent = parse("(unclosed", &group(None, vec![broken, none]));
    assert_eq!(sent.event_type, None);
    assert_eq!(shown(&sent)[0], (s("message"), s("text (unclosed")));
}

#[test]
fn the_patterns_of_the_frameworks_name_the_event() {
    let config = group(None, vec![rule("l", ParserType::LangChain, 2), rule("i", ParserType::LlamaIndex, 1)]);
    let sent = parse("Running WebSearch tool with input: weather forecast", &config);
    assert_eq!(sent.event_type.as_deref(), Some("tool_call"));
    assert_eq!(shown(&sent)[0], (s("framework"), s("text langchain")));
    assert_eq!(shown(&sent)[1], (s("tool_name"), s("text WebSearch")));
    assert_eq!(shown(&sent)[2].0, "input");

    let sent = parse("Agent Action taken", &config);
    assert_eq!(sent.event_type.as_deref(), Some("agent_action"));
    assert_eq!(shown(&sent)[1], (s("action"), s("text Action")));

    let sent = parse("query: what is rust", &config);
    assert_eq!(sent.event_type.as_deref(), Some("query"));
    assert_eq!(shown(&sent)[0], (s("framework"), s("text llamaindex")));
    assert_eq!(shown(&sent)[1], (s("query"), s("text what is rust")));

    let sent = parse("retrieve docs nodes: 42", &config);
    assert_eq!(sent.event_type.as_deref(), Some("retrieval"));
    let fields = shown(&sent);
    assert_eq!(fields.last().unwrap().0, "node_count");
    assert!(fields.last().unwrap().1.starts_with("count "));
}

#[test]
fn a_count_is_a_number_of_decimal_digits_that_fits() {
    assert_eq!(parse_count("0"), Some(0));
    assert_eq!(parse_count("007"), Some(7));
    assert_eq!(parse_count("4294967295"), Some(u32::MAX));
    assert_eq!(parse_count("4294967296"), None);
    assert_eq!(parse_count("99999999999999999999999"), None);
    assert_eq!(parse_count(""), None);
    assert_eq!(parse_count("+1"), None);
    assert_eq!(parse_count("12a"), None);
    assert_eq!(parse_count("١٢"), None);
}

#[test]
fn the_session_is_the_session_written_or_else_the_request() {
    let config = group(Some("fixed"), vec![]);
    let sent = parse("trace-id: t-9 then sess_id: s-2 agent_id: other", &config);
    assert_eq!(sent.session_id.as_deref(), Some("s-2"));
    assert_eq!(sent.agent_id.as_deref(), Some("fixed"));
    let sent = parse("REQUEST-ID: R-1", &config);
    assert_eq!(sent.session_id.as_deref(), Some("R-1"));
    let sent = parse("no identifiers", &group(None, vec![]));
    assert_eq!((sent.session_id, sent.agent_id), (None, None));
}

#[test]
fn the_session_is_sought_in_the_text_of_the_entry_as_it_is_written() {
    let mut json = rule("json", ParserType::Json, 10);
    json.event_type = Some(s("test"));
    let config = group(None, vec![json]);
    let sent = parse(r#"{"level":"INFO","message":"test","request_id":"req-123"}"#, &config);
    assert_eq!(sent.event_type, Some("test".to_string()));
    assert_eq!(sent.session_id, None);
    let sent = parse(r#"{"level":"INFO","message":"request_id: req-123"}"#, &config);
    assert_eq!(sent.session_id, Some("req-123".to_string()));
}

fn nothing_captured(rules: usize) -> Captures {
    Captures {
        tool: None,
        chain: None,
        action: None,
        query: None,
        retrieval: None,
        session_id: None,
        request_id: None,
        agent_id: None,
        rules: (0..rules).map(|_| None).collect(),
    }
}

#[test]
fn what_was_captured_decides_what_is_sent() {
    let mut timing = rule("timing", ParserType::Regex, 3);
    timing.pattern = Some(s("ignored here"));
    timing.event_type = Some(s("timing"));
    timing.field_mapping = vec![(s("0"), s("user")), (s("1"), s("never"))];
    let config = group(
        None,
        vec![rule("index", ParserType::LlamaIndex, 7), timing, rule("chain", ParserType::LangChain, 7)],
    );
    let parser = LogParser::new();
    let entry = entry("whatever the entry says");

    let mut c = nothing_captured(3);
    c.rules[1] = Some(vec![Some(s("ann")), None, Some(s("12"))]);
    c.retrieval = Some((Some(s("docs")), Some(s("42"))));
    c.request_id = Some(s("r-1"));
    c.agent_id = Some(s("bot"));
    let sent = parser.parse_captured(&entry, &config, &ParsedMessage::NotJson, &c);
    assert_eq!(sent.event_type.as_deref(), Some("timing"));
    assert_eq!(shown(&sent), pairs(&[("0", "text ann"), ("2", "text 12"), ("user", "text ann")]));
    assert_eq!(sent.session_id.as_deref(), Some("r-1"));
    assert_eq!(sent.agent_id.as_deref(), Some("bot"));

    c.rules[1] = None;
    c.session_id = Some(s("s-1"));
    let sent = parser.parse_captured(&entry, &config, &ParsedMessage::NotJson, &c);
    assert_eq!(sent.event_type.as_deref(), Some("retrieval"));
    assert_eq!(
        shown(&sent),
        pairs(&[("framework", "text llamaindex"), ("query", "text docs"), ("node_count", "count 42")])
    );
    assert_eq!(sent.session_id.as_deref(), Some("s-1"));

    c.retrieval = Some((None, Some(s("4294967296"))));
    let sent = parser.parse_captured(&entry, &config, &ParsedMessage::NotJson, &c);
    assert_eq!(shown(&sent), pairs(&[("framework", "text llamaindex")]));

    c.retrieval = None;
    c.action = Some((Some(s("Action")), None, Some(s("x"))));
    let sent = parser.parse_captured(&entry, &config, &ParsedMessage::NotJson, &c);
    assert_eq!(sent.event_type.as_deref(), Some("agent_action"));
    assert_eq!(
        shown(&sent),
        pairs(&[("framework", "text langchain"), ("action", "text Action"), ("input", "text x")])
    );
    c.chain = Some((Some(s("LLM")), None));
    let sent = parser.parse_captured(&entry, &config, &ParsedMessage::NotJson, &c);
    assert_eq!(sent.event_type.as_deref(), Some("chain_execution"));
    c.tool = Some((None, None));
    let sent = parser.parse_captured(&entry, &config, &ParsedMessage::NotJson, &c);
    assert_eq!(sent.event_type.as_deref(), Some("tool_call"));
    assert_eq!(shown(&sent), pairs(&[("framework", "text langchain")]));

    let short = nothing_captured(0);
    let sent = parser.parse_captured(&entry, &config, &ParsedMessage::NotJson, &short);
    assert_eq!(sent.event_type, None);
    assert_eq!(
        shown(&sent),
        pairs(&[("message", "text whatever the entry says"), ("raw_log", "flag true")])
    );
}

#[test]
fn the_patterns_capture_what_their_groups_take() {
    let mut timing = rule("timing", ParserType::Regex, 1);
    timing.pattern = Some(s(r"user=(?P<user>\w+) took (\d+)ms"));
    let mut broken = rule("broken", ParserType::Regex, 1);
    broken.pattern = Some(s("(unclosed"));
    let rules = vec![timing, rule("json", ParserType::Json, 1), broken, rule("none", ParserType::Regex, 1)];
    let c = LogParser::capture("Running WebSearch tool, user=ann took 12ms sess-id: s-9 agent_name: bot", &rules);
    assert_eq!(c.tool.as_ref().unwrap().0.as_deref(), Some("WebSearch"));
    assert!(c.chain.is_none());
    assert!(c.action.is_none());
    assert!(c.query.is_none());
    assert!(c.retrieval.is_none());
    assert_eq!(c.session_id.as_deref(), Some("s-9"));
    assert_eq!(c.request_id, None);
    assert_eq!(c.agent_id.as_deref(), Some("bot"));
    assert_eq!(c.rules.len(), 4);
    assert_eq!(c.rules[0], Some(vec![None, None]));
    assert_eq!(c.rules[1], None);
    assert_eq!(c.rules[2], None);
    assert_eq!(c.rules[3], None);
    let missed = LogParser::capture("nothing", &rules);
    assert_eq!(missed.rules[0], None);
    assert!(missed.tool.is_none());
}
