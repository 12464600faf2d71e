use vectadb::analytics::aggregator::{parse_time_window, requested_window, TimeWindow};
use vectadb::analytics::AnalyticsQueryParams;
use vectadb::models::agent::Agent;
use vectadb::models::log::{Log, LogLevel};
use vectadb::models::task::{Task, TaskStatus};
use vectadb::models::thought::Thought;
use vectadb::models::{MetadataField, MetadataValue};

fn text(key: &str, value: &str) -> MetadataField {
    MetadataField { key: key.to_string(), value: MetadataValue::Text(value.to_string()) }
}

fn list(key: &str, items: Vec<Option<&str>>) -> MetadataField {
    MetadataField {
        key: key.to_string(),
        value: MetadataValue::List(items.into_iter().map(|i| i.map(|s| s.to_string())).collect()),
    }
}

#[test]
fn test_log_level_display() {
    assert_eq!(LogLevel::Info.to_string(), "INFO");
    assert_eq!(LogLevel::Error.to_string(), "ERROR");
}

#[test]
fn test_log_creation() {
    let log = Log::new(
        "agent123".to_string(),
        Some("task456".to_string()),
        LogLevel::Info,
        "Processing data".to_string(),
        vec![MetadataField { key: "step".to_string(), value: MetadataValue::Other { json: "1".to_string() } }],
    );

    assert_eq!(log.agent_id, "agent123");
    assert_eq!(log.task_id, Some("task456".to_string()));
    assert_eq!(log.level, LogLevel::Info);
    assert_eq!(log.message, "Processing data");
    assert_eq!(log.id.len(), 10);
}

#[test]
fn test_is_error() {
    let info_log = Log::new("agent123".to_string(), None, LogLevel::Info, "test".to_string(), vec![]);
    assert!(!info_log.is_error());

    let error_log = Log::new("agent123".to_string(), None, LogLevel::Error, "test".to_string(), vec![]);
    assert!(error_log.is_error());

    let critical_log =
        Log::new("agent123".to_string(), None, LogLevel::Critical, "test".to_string(), vec![]);
    assert!(critical_log.is_error());
}

#[test]
fn a_log_is_searched_by_level_and_message() {
    let log = Log::with_id("l".to_string(), "a".to_string(), None, LogLevel::Warning, "disk full".to_string(), vec![], 5);
    assert_eq!(log.to_searchable_text(), "WARNING | disk full");
    assert_eq!(log.timestamp, 5);
    assert_eq!(LogLevel::default(), LogLevel::Info);
    assert_eq!(LogLevel::Debug.name(), "DEBUG");
    assert_eq!(LogLevel::Critical.name(), "CRITICAL");
}

#[test]
fn test_agent_creation() {
    let agent = Agent::new(
        "researcher".to_string(),
        "analyze data patterns".to_string(),
        vec![list("skills", vec![Some("ML"), Some("statistics")])],
    );

    assert_eq!(agent.role, "researcher");
    assert_eq!(agent.goal, "analyze data patterns");
    assert_eq!(agent.id.len(), 10);
}

#[test]
fn agent_test_searchable_text() {
    let agent = Agent::new(
        "researcher".to_string(),
        "analyze data".to_string(),
        vec![list("skills", vec![Some("ML"), Some("statistics")]), text("specialty", "time series")],
    );

    let text = agent.to_searchable_text();
    assert!(text.contains("researcher"));
    assert!(text.contains("analyze data"));
    assert!(text.contains("skills"));
    assert!(text.contains("specialty"));
    assert_eq!(
        text,
        "researcher | analyze data | skills: ML, statistics | specialty: time series"
    );
}

#[test]
fn only_texts_are_searched() {
    let agent = Agent::with_id(
        "a".to_string(),
        "r".to_string(),
        "g".to_string(),
        vec![
            list("mixed", vec![None, Some("x"), None]),
            list("numbers", vec![None, None]),
            MetadataField { key: "n".to_string(), value: MetadataValue::Other { json: "3".to_string() } },
        ],
        1,
    );
    assert_eq!(agent.to_searchable_text(), "r | g | mixed: x");
    assert!(agent.id.chars().all(|c| c == 'a'));
}

#[test]
fn generated_ids_are_made_of_the_safe_alphabet() {
    for _ in 0..20 {
        let agent = Agent::new("r".to_string(), "g".to_string(), vec![]);
        assert_eq!(agent.id.chars().count(), 10);
        assert!(agent.id.chars().all(|c| c.is_ascii_alphanumeric() || c == '_' || c == '-'));
    }
    let a = Agent::new("r".to_string(), "g".to_string(), vec![]);
    let b = Agent::new("r".to_string(), "g".to_string(), vec![]);
    assert_ne!(a.id, b.id);
    assert!(a.created_at > 1_600_000_000_000);
}

#[test]
fn test_task_creation() {
    let task = Task::new(
        "agent123".to_string(),
        "analyze_dataset".to_string(),
        vec![text("dataset", "Q4_earnings")],
    );

    assert_eq!(task.agent_id, "agent123");
    assert_eq!(task.name, "analyze_dataset");
    assert_eq!(task.status, TaskStatus::Pending);
    assert_eq!(task.id.len(), 10);
}

#[test]
fn test_task_completion() {
    let mut task = Task::new("agent123".to_string(), "test_task".to_string(), vec![]);

    task.complete();

    assert_eq!(task.status, TaskStatus::Completed);
    assert!(task.completed_at.is_some());
    assert!(task.duration_ms.is_some());
    assert!(task.duration_ms.unwrap() >= 0);
}

#[test]
fn test_task_failure() {
    let mut task = Task::new("agent123".to_string(), "test_task".to_string(), vec![]);

    task.fail();

    assert_eq!(task.status, TaskStatus::Failed);
    assert!(task.completed_at.is_some());
    assert!(task.duration_ms.is_some());
}

#[test]
fn a_task_takes_the_time_since_it_was_created() {
    let mut task = Task::with_id("t".to_string(), "a".to_string(), "n".to_string(), vec![text("k", "v")], 1000);
    assert_eq!(task.to_searchable_text(), "n | status: Pending | k: v");
    task.end_at(TaskStatus::Cancelled, 1750);
    assert_eq!(task.duration_ms, Some(750));
    assert_eq!(task.completed_at, Some(1750));
    assert_eq!(task.updated_at, Some(1750));
    assert_eq!(task.to_searchable_text(), "n | status: Cancelled | k: v");
    let mut early = Task::with_id("t".to_string(), "a".to_string(), "n".to_string(), vec![], i64::MAX);
    early.end_at(TaskStatus::Failed, i64::MIN);
    assert_eq!(early.duration_ms, Some(i64::MIN));
    assert_eq!(TaskStatus::default(), TaskStatus::Pending);
}

#[test]
fn test_thought_creation() {
    let thought = Thought::new(
        "agent123".to_string(),
        Some("task456".to_string()),
        "I need to analyze the dataset first".to_string(),
        Some(1),
        vec![text("reasoning_type", "planning")],
    );

    assert_eq!(thought.agent_id, "agent123");
    assert_eq!(thought.task_id, Some("task456".to_string()));
    assert_eq!(thought.content, "I need to analyze the dataset first");
    assert_eq!(thought.sequence, Some(1));
    assert_eq!(thought.id.len(), 10);
}

#[test]
fn thought_test_searchable_text() {
    let thought_with_seq =
        Thought::new("agent123".to_string(), None, "Analyzing data".to_string(), Some(3), vec![]);
    assert_eq!(thought_with_seq.to_searchable_text(), "Step 3: Analyzing data");

    let thought_without_seq =
        Thought::new("agent123".to_string(), None, "Analyzing data".to_string(), None, vec![]);
    assert_eq!(thought_without_seq.to_searchable_text(), "Analyzing data");
}

#[test]
fn a_step_may_be_negative_or_long() {
    let t = |n: i32| Thought::with_id("i".to_string(), "a".to_string(), None, "c".to_string(), Some(n), vec![], 0);
    assert_eq!(t(-12).to_searchable_text(), "Step -12: c");
    assert_eq!(t(0).to_searchable_text(), "Step 0: c");
    assert_eq!(t(i32::MAX).to_searchable_text(), "Step 2147483647: c");
    assert_eq!(t(i32::MIN).to_searchable_text(), "Step -2147483648: c");
}

#[test]
fn test_parse_time_window() {
    assert!(matches!(parse_time_window(Some("hour")).unwrap(), TimeWindow::Hour));
    assert!(matches!(parse_time_window(Some("day")).unwrap(), TimeWindow::Day));
    assert!(parse_time_window(Some("invalid")).is_err());
}

#[test]
fn windows_have_names_and_lengths() {
    assert_eq!(parse_time_window(Some("minute")).unwrap(), TimeWindow::Minute);
    assert_eq!(parse_time_window(Some("week")).unwrap(), TimeWindow::Week);
    assert_eq!(parse_time_window(None).unwrap(), TimeWindow::Hour);
    assert_eq!(parse_time_window(Some("Hour")).unwrap_err(), "Invalid time window: Hour");
    assert_eq!(TimeWindow::Minute.duration_ms(), 60_000);
    assert_eq!(TimeWindow::Hour.duration_ms(), 3_600_000);
    assert_eq!(TimeWindow::Day.duration_ms(), 86_400_000);
    assert_eq!(TimeWindow::Week.duration_ms(), 604_800_000);
    let params = AnalyticsQueryParams { window: Some("day".to_string()), metric: None };
    assert_eq!(requested_window(&params).unwrap(), TimeWindow::Day);
    let none = AnalyticsQueryParams { window: None, metric: None };
    assert_eq!(requested_window(&none).unwrap(), TimeWindow::Hour);
}
