use vectadb::agent::cloudwatch_client::LogEvent;
use vectadb::agent::config::{
    default_batch_size, default_lookback, default_poll_interval, default_priority,
    default_timeout, default_true, AgentConfig, AgentSettings, AwsConfig, LogGroupConfig,
    ParserRule, ParserType, VectaDBConfig,
};
use vectadb::agent::state::AgentState;
use vectadb::agent::vectadb_client::{VectaDBClient, MAX_ATTEMPTS};
use vectadb::api::types::{BulkEventIngestionResponse, IngestionError};

fn config_with(region: &str, groups: Vec<LogGroupConfig>) -> AgentConfig {
    AgentConfig {
        aws: AwsConfig { region: region.to_string(), profile: None },
        vectadb: VectaDBConfig {
            endpoint: "http://localhost:8080".to_string(),
            api_key: None,
            batch_size: 100,
            timeout_secs: 30,
        },
        log_groups: groups,
        agent: AgentSettings::default(),
    }
}

fn group(name: &str, parsers: Vec<ParserRule>) -> LogGroupConfig {
    LogGroupConfig { name: name.to_string(), agent_id: None, parsers, filter_pattern: None }
}

fn rule(name: &str, parser_type: ParserType, pattern: Option<&str>) -> ParserRule {
    ParserRule {
        name: name.to_string(),
        parser_type,
        pattern: pattern.map(|p| p.to_string()),
        field_mapping: Vec::new(),
        event_type: None,
        priority: default_priority(),
    }
}

#[test]
fn test_default_settings() {
    let settings = AgentSettings::default();
    assert_eq!(settings.poll_interval_secs, 10);
    assert_eq!(settings.lookback_secs, 300);
    assert!(settings.auto_create_traces);
    assert!(settings.generate_embeddings);
}

#[test]
fn test_config_validation() {
    let config = AgentConfig {
        aws: AwsConfig { region: "us-east-1".to_string(), profile: None },
        vectadb: VectaDBConfig {
            endpoint: "http://localhost:8080".to_string(),
            api_key: None,
            batch_size: 100,
            timeout_secs: 30,
        },
        log_groups: vec![LogGroupConfig {
            name: "/aws/lambda/test".to_string(),
            agent_id: None,
            parsers: vec![],
            filter_pattern: None,
        }],
        agent: AgentSettings::default(),
    };

    assert!(config.validate().is_ok());
}

#[test]
fn test_invalid_config() {
    let config = AgentConfig {
        aws: AwsConfig { region: "".to_string(), profile: None },
        vectadb: VectaDBConfig {
            endpoint: "http://localhost:8080".to_string(),
            api_key: None,
            batch_size: 100,
            timeout_secs: 30,
        },
        log_groups: vec![],
        agent: AgentSettings::default(),
    };

    assert!(config.validate().is_err());
}

#[test]
fn each_config_fault_has_its_message() {
    assert_eq!(
        config_with("", vec![]).validate().unwrap_err(),
        "AWS region cannot be empty"
    );
    let mut no_endpoint = config_with("eu", vec![group("g", vec![])]);
    no_endpoint.vectadb.endpoint = String::new();
    assert_eq!(no_endpoint.validate().unwrap_err(), "VectaDB endpoint cannot be empty");
    assert_eq!(
        config_with("eu", vec![]).validate().unwrap_err(),
        "At least one log group must be configured"
    );
    assert_eq!(
        config_with("eu", vec![group("a", vec![]), group("", vec![])]).validate().unwrap_err(),
        "Log group name cannot be empty"
    );
    let rules = vec![
        rule("json", ParserType::Json, None),
        rule("good", ParserType::Regex, Some("a+")),
        rule("bad", ParserType::Regex, None),
    ];
    assert_eq!(
        config_with("eu", vec![group("a", rules)]).validate().unwrap_err(),
        "Regex parser 'bad' must have a pattern"
    );
    let fine = vec![rule("chain", ParserType::LangChain, None), rule("llama", ParserType::LlamaIndex, None)];
    assert!(config_with("eu", vec![group("a", fine)]).validate().is_ok());
}

#[test]
fn log_group_names_come_in_order() {
    let config = config_with("eu", vec![group("/a", vec![]), group("/b", vec![])]);
    assert_eq!(config.log_group_names(), vec!["/a".to_string(), "/b".to_string()]);
    assert!(config_with("eu", vec![]).log_group_names().is_empty());
}

#[test]
fn defaults_of_the_agent_configuration() {
    assert_eq!(default_batch_size(), 100);
    assert_eq!(default_timeout(), 30);
    assert_eq!(default_poll_interval(), 10);
    assert_eq!(default_lookback(), 300);
    assert_eq!(default_priority(), 100);
    assert!(default_true());
}

#[test]
fn poll_times_are_kept_per_log_group() {
    let mut state = AgentState::new();
    assert_eq!(state.get_last_poll_time("/a", 300, 1_000_000), 700_000);
    state.update_last_poll_time("/a", 5);
    state.update_last_poll_time("/b", 7);
    state.update_last_poll_time("/a", 9);
    assert_eq!(state.last_poll_times.len(), 2);
    assert_eq!(state.get_last_poll_time("/a", 300, 1_000_000), 9);
    assert_eq!(state.get_last_poll_time("/b", 300, 1_000_000), 7);
    assert_eq!(state.get_last_poll_time("/c", 1, 0), -1000);
    assert_eq!(state.get_last_poll_time("/c", u64::MAX, i64::MIN), i64::MIN);
}

#[test]
fn test_log_event_timestamp_conversion() {
    let event = LogEvent {
        log_group: "/test".to_string(),
        log_stream: "stream-1".to_string(),
        event_id: "1".to_string(),
        message: "test message".to_string(),
        timestamp: 1700000000000,
    };

    let (seconds, millis) = event.seconds_and_millis();
    assert!(seconds > 0);
    assert_eq!((seconds, millis), (1_700_000_000, 0));
}

#[test]
fn a_time_before_1970_has_its_milliseconds_counted_up() {
    let mut event = LogEvent {
        log_group: String::new(),
        log_stream: String::new(),
        event_id: String::new(),
        message: String::new(),
        timestamp: -1,
    };
    assert_eq!(event.seconds_and_millis(), (-1, 999));
    event.timestamp = -2000;
    assert_eq!(event.seconds_and_millis(), (-2, 0));
    event.timestamp = 1234;
    assert_eq!(event.seconds_and_millis(), (1, 234));
    event.timestamp = i64::MIN;
    let (s, m) = event.seconds_and_millis();
    assert_eq!(s as i128 * 1000 + m as i128, i64::MIN as i128);
}

#[test]
fn test_client_creation() {
    let config = VectaDBConfig {
        endpoint: "http://localhost:8080".to_string(),
        api_key: None,
        batch_size: 100,
        timeout_secs: 30,
    };

    let client = VectaDBClient::new(&config);
    assert_eq!(client.batch_size(), 100);
    assert_eq!(client.bulk_url(), "http://localhost:8080/api/v1/events/batch");
}

#[test]
fn batches_are_retried_merged_and_given_up() {
    let client = VectaDBClient { endpoint: "e".to_string(), api_key: None, batch_size: 10 };
    assert_eq!(MAX_ATTEMPTS, 3);
    assert!(VectaDBClient::tries_again(0) && VectaDBClient::tries_again(2));
    assert!(!VectaDBClient::tries_again(3));
    assert_eq!(
        (1..=3).map(VectaDBClient::backoff_secs).collect::<Vec<u64>>(),
        vec![1, 2, 4]
    );

    let mut total = BulkEventIngestionResponse::new();
    let first = BulkEventIngestionResponse {
        ingested: 9,
        failed: 1,
        trace_ids: vec!["t1".to_string(), "t2".to_string()],
        errors: vec![IngestionError { index: 3, error: "bad".to_string() }],
    };
    client.merge_batch(&mut total, first, 0);
    let second = BulkEventIngestionResponse {
        ingested: 8,
        failed: 2,
        trace_ids: vec!["t2".to_string(), "t3".to_string()],
        errors: vec![
            IngestionError { index: 0, error: "x".to_string() },
            IngestionError { index: 7, error: "y".to_string() },
        ],
    };
    client.merge_batch(&mut total, second, 1);
    client.fail_batch(&mut total, 2, 2, "timeout");
    assert_eq!(total.ingested, 17);
    assert_eq!(total.failed, 5);
    assert_eq!(total.trace_ids, vec!["t1", "t2", "t3"]);
    let errors: Vec<(usize, &str)> = total.errors.iter().map(|e| (e.index, e.error.as_str())).collect();
    assert_eq!(
        errors,
        vec![
            (3, "bad"),
            (10, "x"),
            (17, "y"),
            (20, "Batch failed after 3 retries: timeout"),
            (21, "Batch failed after 3 retries: timeout"),
        ]
    );
    let huge = VectaDBClient { endpoint: "e".to_string(), api_key: None, batch_size: usize::MAX };
    huge.fail_batch(&mut total, 2, 1, "late");
    assert_eq!(total.errors.last().unwrap().index, usize::MAX);
}
