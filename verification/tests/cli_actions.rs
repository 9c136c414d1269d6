use serde_json::Value;
use ticktick_cli::{
    api::HttpMethod,
    cli::{Action, Cli, JsonInput, JsonSource},
    error::TickTickError,
};

fn args(items: &[&str]) -> Vec<String> {
    items.iter().map(|s| s.to_string()).collect()
}

fn json(text: &str) -> Value {
    serde_json::from_str(text).unwrap()
}

/// The contents of the JSON files the tests name; the program reads such files
/// and hands their text to the library.
fn file_text(path: &str) -> Option<String> {
    match path {
        "/tmp/ticktick-cli-habit.json" => Some(r#"{"name":"Read"}"#.to_string()),
        "/tmp/ticktick-cli-task-filter.json" => {
            Some(r#"{"projectIds":["p1"],"tag":["deep"],"status":[0]}"#.to_string())
        }
        "/tmp/ticktick-cli-project.json" => Some(r#"{"name":"Errands"}"#.to_string()),
        _ => None,
    }
}

/// The JSON text a command line names in a file.
fn fetch(cli: &Cli) -> Option<String> {
    match cli.json_source().unwrap() {
        Some(JsonSource::File(path)) => file_text(&path),
        _ => None,
    }
}

#[test]
fn oauth_authorize_command_returns_pretty_json_action() {
    let cli = Cli::try_parse_from(&args(&[
        "ticktick",
        "--client-id",
        "client-123",
        "oauth",
        "authorize",
        "--redirect-uri",
        "https://localhost/callback",
        "--state",
        "opaque-state",
    ]))
    .unwrap();

    let action = cli.into_action(None).unwrap();
    match action {
        Action::PrintJson(value) => assert_eq!(
            value,
            json(
                r#"{
                "authorize_url": "https://ticktick.com/oauth/authorize?client_id=client-123&scope=tasks%3Aread+tasks%3Awrite&state=opaque-state&redirect_uri=https%3A%2F%2Flocalhost%2Fcallback&response_type=code"
            }"#
            )
        ),
        other => panic!("expected PrintJson action, got {other:?}"),
    }
}

#[test]
fn oauth_exchange_command_requires_client_secret() {
    let cli = Cli::try_parse_from(&args(&[
        "ticktick",
        "--client-id",
        "client-123",
        "oauth",
        "exchange",
        "--code",
        "code-123",
        "--redirect-uri",
        "https://localhost/callback",
    ]))
    .unwrap();

    let error = cli.into_action(None).unwrap_err();
    assert!(matches!(error, TickTickError::MissingClientSecret));
}

#[test]
fn into_request_uses_default_token_when_cli_token_is_missing() {
    let cli = Cli::try_parse_from(&args(&[
        "ticktick",
        "task",
        "get",
        "--project-id",
        "proj-1",
        "--task-id",
        "task-1",
    ]))
    .unwrap();

    let request = cli
        .into_request(Some("fallback-token".into()), None)
        .unwrap();
    assert_eq!(request.method, HttpMethod::Get);
    assert_eq!(request.path, "/open/v1/project/proj-1/task/task-1");
    assert_eq!(request.token.as_deref(), Some("fallback-token"));
}

#[test]
fn into_request_errors_when_no_token_is_available() {
    let cli = Cli::try_parse_from(&args(&["ticktick", "project", "list"])).unwrap();

    let error = cli.into_request(None, None).unwrap_err();
    assert!(matches!(error, TickTickError::MissingAccessToken));
}

#[test]
fn cli_parses_project_and_focus_commands_into_expected_requests() {
    let project_create = Cli::try_parse_from(&args(&[
        "ticktick",
        "--token",
        "tok",
        "project",
        "create",
        "--json",
        r#"{"name":"Inbox"}"#,
    ]))
    .unwrap()
    .into_request(None, None)
    .unwrap();
    assert_eq!(project_create.method, HttpMethod::Post);
    assert_eq!(project_create.path, "/open/v1/project");
    assert_eq!(project_create.body, Some(json(r#"{"name": "Inbox"}"#)));

    let focus_list = Cli::try_parse_from(&args(&[
        "ticktick", "--token", "tok", "focus", "list", "--from", "20260401", "--to", "20260407",
        "--type", "1",
    ]))
    .unwrap()
    .into_request(None, None)
    .unwrap();
    assert_eq!(focus_list.method, HttpMethod::Get);
    assert_eq!(focus_list.path, "/open/v1/focus");
    assert_eq!(
        focus_list.query,
        vec![
            ("from".to_string(), "20260401".to_string()),
            ("to".to_string(), "20260407".to_string()),
            ("type".to_string(), "1".to_string()),
        ]
    );
}

#[test]
fn cli_parses_habit_and_task_json_commands_from_files() {
    let habit_path = "/tmp/ticktick-cli-habit.json";
    let task_path = "/tmp/ticktick-cli-task-filter.json";

    let habit_cli = Cli::try_parse_from(&args(&[
        "ticktick",
        "--token",
        "tok",
        "habit",
        "create",
        "--json-file",
        habit_path,
    ]))
    .unwrap();
    let fetched = fetch(&habit_cli);
    let habit_request = habit_cli.into_request(None, fetched).unwrap();
    assert_eq!(habit_request.path, "/open/v1/habit");
    assert_eq!(habit_request.body, Some(json(r#"{"name": "Read"}"#)));

    let task_cli = Cli::try_parse_from(&args(&[
        "ticktick",
        "--token",
        "tok",
        "task",
        "filter",
        "--json-file",
        task_path,
    ]))
    .unwrap();
    let fetched = fetch(&task_cli);
    let task_request = task_cli.into_request(None, fetched).unwrap();
    assert_eq!(task_request.path, "/open/v1/task/filter");
    assert_eq!(
        task_request.body,
        Some(json(r#"{"projectIds": ["p1"], "tag": ["deep"], "status": [0]}"#))
    );
}

#[test]
fn json_input_reads_inline_and_file_json() {
    let input = JsonInput {
        json: Some(r#"{"projectId":"p1","title":"Ship tests"}"#.into()),
        json_file: None,
        json_stdin: false,
    };
    assert_eq!(
        input.read_required_json(None).unwrap(),
        json(r#"{"projectId": "p1", "title": "Ship tests"}"#)
    );

    let file_input = JsonInput {
        json: None,
        json_file: Some("/tmp/ticktick-cli-project.json".into()),
        json_stdin: false,
    };
    let fetched = match file_input.source().unwrap() {
        Some(JsonSource::File(p)) => file_text(&p),
        _ => None,
    };
    assert_eq!(
        file_input.read_required_json(fetched).unwrap(),
        json(r#"{"name": "Errands"}"#)
    );
}

#[test]
fn json_input_rejects_missing_conflicting_invalid_and_missing_file_cases() {
    let missing = JsonInput {
        json: None,
        json_file: None,
        json_stdin: false,
    }
    .read_required_json(None)
    .unwrap_err();
    assert!(matches!(missing, TickTickError::MissingJsonInput));

    let conflicting = JsonInput {
        json: Some("{}".into()),
        json_file: Some("/tmp/ignored.json".into()),
        json_stdin: false,
    }
    .read_required_json(None)
    .unwrap_err();
    assert!(matches!(conflicting, TickTickError::ConflictingJsonInput));

    let invalid = JsonInput {
        json: Some("{".into()),
        json_file: None,
        json_stdin: false,
    }
    .read_required_json(None)
    .unwrap_err();
    assert!(matches!(invalid, TickTickError::InvalidJson(_)));

    // The file itself is read by the program around the library; the library
    // names the file to read.
    let missing_file = JsonInput {
        json: None,
        json_file: Some("/definitely/not/here.json".into()),
        json_stdin: false,
    };
    match missing_file.source().unwrap() {
        Some(JsonSource::File(path)) => {
            assert_eq!(path, "/definitely/not/here.json");
            assert!(file_text(&path).is_none());
        }
        other => panic!("expected ReadJsonFile error, got {other:?}"),
    }
}
