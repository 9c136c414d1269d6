use serde_json::Value;
use ticktick_cli::{
    api::{ApiClient, HttpMethod},
    cli::Cli,
    config::AuthUrlConfig,
};

fn args(items: &[&str]) -> Vec<String> {
    items.iter().map(|s| s.to_string()).collect()
}

#[test]
fn builds_authorize_url_from_docs() {
    let cfg = AuthUrlConfig {
        client_id: "client_id".into(),
        scope: "tasks:read tasks:write".into(),
        state: "state123".into(),
        redirect_uri: "https://localhost/callback".into(),
    };

    let url = cfg.build_url().unwrap();
    assert_eq!(
        url.as_str(),
        "https://ticktick.com/oauth/authorize?client_id=client_id&scope=tasks%3Aread+tasks%3Awrite&state=state123&redirect_uri=https%3A%2F%2Flocalhost%2Fcallback&response_type=code"
    );
}

#[test]
fn oauth_authorize_requires_state_per_docs() {
    let result = Cli::try_parse_from(&args(&[
        "ticktick",
        "oauth",
        "authorize",
        "--client-id",
        "client_id",
        "--redirect-uri",
        "https://localhost/callback",
    ]));

    assert!(result.is_err());
    let err = result.unwrap_err();
    let rendered = err.to_string();
    assert!(
        rendered.contains("--state"),
        "unexpected clap error: {rendered}"
    );
}

#[test]
fn parses_habit_checkins_cli_args() {
    let cli = Cli::try_parse_from(&args(&[
        "ticktick",
        "habit",
        "checkins",
        "--habit-ids",
        "h1,h2",
        "--from",
        "20260401",
        "--to",
        "20260407",
        "--token",
        "tok",
    ]))
    .unwrap();

    let request = cli.into_request(None, None).unwrap();
    assert_eq!(request.method, HttpMethod::Get);
    assert_eq!(request.path, "/open/v1/habit/checkins");
    assert_eq!(
        request.query,
        vec![
            ("habitIds".to_string(), "h1,h2".to_string()),
            ("from".to_string(), "20260401".to_string()),
            ("to".to_string(), "20260407".to_string()),
        ]
    );
    assert_eq!(request.token.as_deref(), Some("tok"));
}

#[test]
fn builds_filter_tasks_request_with_json() {
    let cli = Cli::try_parse_from(&args(&[
        "ticktick",
        "task",
        "filter",
        "--token",
        "tok",
        "--json",
        r#"{"projectIds":["p1"],"priority":[0],"tag":["urgent"],"status":[0]}"#,
    ]))
    .unwrap();

    let request = cli.into_request(None, None).unwrap();
    assert_eq!(request.method, HttpMethod::Post);
    assert_eq!(request.path, "/open/v1/task/filter");
    let expected: Value = serde_json::from_str(
        r#"{
            "projectIds": ["p1"],
            "priority": [0],
            "tag": ["urgent"],
            "status": [0]
        }"#,
    )
    .unwrap();
    assert_eq!(request.body, Some(expected));
}

#[test]
fn builds_focus_delete_request_with_required_query() {
    let request = ApiClient::new("https://api.ticktick.com")
        .delete_focus("focus-1", 0, Some("tok".into()))
        .unwrap();

    assert_eq!(request.method, HttpMethod::Delete);
    assert_eq!(request.path, "/open/v1/focus/focus-1");
    assert_eq!(request.query, vec![("type".to_string(), "0".to_string())]);
}

#[test]
fn builds_oauth_token_exchange_request() {
    let request = ApiClient::new("https://ticktick.com")
        .oauth_exchange_code(
            "client-id",
            "client-secret",
            "code-123",
            "tasks:read tasks:write",
            "https://localhost/callback",
        )
        .unwrap();

    assert_eq!(request.method, HttpMethod::Post);
    assert_eq!(request.path, "/oauth/token");
    assert_eq!(
        request.basic_auth.as_deref(),
        Some("client-id:client-secret")
    );
    assert_eq!(
        request.form,
        vec![
            ("code".to_string(), "code-123".to_string()),
            ("grant_type".to_string(), "authorization_code".to_string()),
            ("scope".to_string(), "tasks:read tasks:write".to_string()),
            ("redirect_uri".to_string(), "https://localhost/callback".to_string()),
        ]
    );
}
