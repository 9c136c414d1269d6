use serde_json::Value;
use ticktick_cli::{
    address::{append_query_pairs, url_from_parts, UrlParts},
    api::{ApiClient, ApiRequest, HttpMethod},
    config::API_BASE_URL,
    error::TickTickError,
    http::{interpret_response, ResponseBody},
    output::format_json,
    text::{parse_i32, trim_trailing_slashes},
};

fn json(text: &str) -> Value {
    serde_json::from_str(text).unwrap()
}

fn request(base_url: &str, path: &str, query: Vec<(&str, &str)>) -> ApiRequest {
    ApiRequest {
        method: HttpMethod::Get,
        base_url: base_url.into(),
        path: path.into(),
        query: query
            .into_iter()
            .map(|(k, v)| (k.to_string(), v.to_string()))
            .collect(),
        body: None,
        form: Vec::new(),
        token: None,
        basic_auth: None,
    }
}

#[test]
fn url_keeps_existing_query_and_fragment() {
    let req = request("https://x.example", "/p?x=1#frag", vec![("k", "v w")]);
    assert_eq!(req.url().unwrap(), "https://x.example/p?x=1&k=v+w#frag");
}

#[test]
fn url_without_pairs_is_the_parsed_url() {
    let req = request("https://x.example/", "/p?x=1#frag", vec![]);
    assert_eq!(req.url().unwrap(), "https://x.example/p?x=1#frag");
    let req = request("https://x.example", "/p", vec![]);
    assert_eq!(req.url().unwrap(), "https://x.example/p");
}

#[test]
fn url_reports_unparsable_base() {
    let req = request("not a url", "/p", vec![]);
    match req.url() {
        Err(TickTickError::Url(e)) => assert_eq!(e, url::ParseError::RelativeUrlWithoutBase),
        other => panic!("expected a URL error, got {other:?}"),
    }
}

#[test]
fn url_ignores_any_number_of_trailing_slashes() {
    let a = request("https://api.ticktick.com", "/open/v1/project", vec![("a", "1")]);
    let b = request("https://api.ticktick.com///", "/open/v1/project", vec![("a", "1")]);
    assert_eq!(a.url().unwrap(), b.url().unwrap());
    assert_eq!(trim_trailing_slashes("https://a.example//"), "https://a.example");
    assert_eq!(trim_trailing_slashes("///"), "");
    assert_eq!(trim_trailing_slashes("a/b"), "a/b");
}

#[test]
fn url_from_parts_appends_to_the_query() {
    let parts = UrlParts {
        before_query: "https://h.example/p".into(),
        query: Some("".into()),
        fragment: None,
    };
    let pairs = vec![("a".to_string(), "1".to_string()), ("b".to_string(), "2".to_string())];
    assert_eq!(url_from_parts(&parts, &pairs), "https://h.example/p?a=1&b=2");

    let parts = UrlParts {
        before_query: "https://h.example/p".into(),
        query: None,
        fragment: Some("top".into()),
    };
    assert_eq!(url_from_parts(&parts, &pairs), "https://h.example/p?a=1&b=2#top");
    assert_eq!(url_from_parts(&parts, &Vec::new()), "https://h.example/p#top");
}

#[test]
fn query_pairs_are_form_urlencoded() {
    let pairs = vec![("é*-._~ /".to_string(), "a=b&c".to_string())];
    assert_eq!(
        append_query_pairs(String::new(), &pairs),
        "%C3%A9*-._%7E+%2F=a%3Db%26c"
    );
    assert_eq!(append_query_pairs("x=1".to_string(), &pairs), "x=1&%C3%A9*-._%7E+%2F=a%3Db%26c");
    assert_eq!(append_query_pairs("x=1".to_string(), &Vec::new()), "x=1");
}

#[test]
fn negative_focus_type_is_rendered_in_decimal() {
    let req = ApiClient::new("https://api.ticktick.com")
        .get_focus("f", -5, None)
        .unwrap();
    assert_eq!(req.query, vec![("type".to_string(), "-5".to_string())]);
    let req = ApiClient::new("https://api.ticktick.com")
        .habit_checkins("h", i32::MIN, i32::MAX, None)
        .unwrap();
    assert_eq!(
        req.query,
        vec![
            ("habitIds".to_string(), "h".to_string()),
            ("from".to_string(), "-2147483648".to_string()),
            ("to".to_string(), "2147483647".to_string()),
        ]
    );
}

#[test]
fn decimal_text_reads_back() {
    for x in [0, 7, -7, 20260401, i32::MIN, i32::MAX] {
        assert_eq!(parse_i32(&x.to_string()), Some(x));
    }
    assert_eq!(parse_i32("+7"), Some(7));
    assert_eq!(parse_i32("007"), Some(7));
    assert_eq!(parse_i32("2147483648"), None);
    assert_eq!(parse_i32("-2147483649"), None);
    assert_eq!(parse_i32("99999999999999999999"), None);
    assert_eq!(parse_i32(""), None);
    assert_eq!(parse_i32("-"), None);
    assert_eq!(parse_i32("1a"), None);
    assert_eq!(parse_i32(" 1"), None);
}

#[test]
fn default_client_and_empty_base_exchange_use_the_api_host() {
    let client = ApiClient::default();
    let req = client.list_projects(None).unwrap();
    assert_eq!(req.base_url, API_BASE_URL);
    let req = ApiClient::new("").oauth_exchange_code("a", "b", "c", "d", "e").unwrap();
    assert_eq!(req.base_url, "https://api.ticktick.com");
    let req = ApiClient::new("https://other.example")
        .oauth_exchange_code("a", "b", "c", "d", "e")
        .unwrap();
    assert_eq!(req.base_url, "https://other.example");
}

#[test]
fn headers_carry_token_credentials_and_content_types() {
    let client = ApiClient::new("https://api.ticktick.com");
    let req = client.list_projects(Some("tok".into())).unwrap();
    assert_eq!(
        req.headers(),
        vec![
            ("accept".to_string(), "application/json".to_string()),
            ("authorization".to_string(), "Bearer tok".to_string()),
        ]
    );
    let req = client.create_task(json(r#"{"a": 1}"#), None).unwrap();
    assert_eq!(
        req.headers(),
        vec![
            ("accept".to_string(), "application/json".to_string()),
            ("content-type".to_string(), "application/json".to_string()),
        ]
    );
    let req = client
        .oauth_exchange_code("client-id", "client-secret", "c", "s", "r")
        .unwrap();
    assert_eq!(
        req.headers(),
        vec![
            ("accept".to_string(), "application/json".to_string()),
            (
                "authorization".to_string(),
                "Basic Y2xpZW50LWlkOmNsaWVudC1zZWNyZXQ=".to_string()
            ),
            (
                "content-type".to_string(),
                "application/x-www-form-urlencoded".to_string()
            ),
        ]
    );
}

#[test]
fn payload_is_the_form_or_the_compact_body() {
    let client = ApiClient::new("https://ticktick.com");
    let req = client
        .oauth_exchange_code(
            "client-id",
            "client-secret",
            "code-123",
            "tasks:read tasks:write",
            "https://localhost/callback",
        )
        .unwrap();
    assert_eq!(
        req.payload().as_deref(),
        Some("code=code-123&grant_type=authorization_code&scope=tasks%3Aread+tasks%3Awrite&redirect_uri=https%3A%2F%2Flocalhost%2Fcallback")
    );
    let req = client
        .create_task(json(r#"{ "title" : "T",  "projectId": "p" }"#), None)
        .unwrap();
    assert_eq!(req.payload().as_deref(), Some(r#"{"projectId":"p","title":"T"}"#));
    let req = client.list_habits(None).unwrap();
    assert_eq!(req.payload(), None);
}

#[test]
fn responses_are_interpreted_by_status_and_body() {
    match interpret_response(404, "nope".to_string()) {
        Err(TickTickError::ApiStatus { status, body }) => {
            assert_eq!(status, 404);
            assert_eq!(body, "nope");
        }
        other => panic!("expected an API status error, got {other:?}"),
    }
    assert!(matches!(
        interpret_response(199, String::new()),
        Err(TickTickError::ApiStatus { status: 199, .. })
    ));
    assert!(matches!(
        interpret_response(300, String::new()),
        Err(TickTickError::ApiStatus { status: 300, .. })
    ));
    assert!(matches!(
        interpret_response(200, " \n\t\u{3000}".to_string()),
        Ok(ResponseBody::Null)
    ));
    assert!(matches!(interpret_response(204, String::new()), Ok(ResponseBody::Null)));
    match interpret_response(299, r#"{"a": [1, 2]}"#.to_string()) {
        Ok(ResponseBody::Json(v)) => assert_eq!(v, json(r#"{"a": [1, 2]}"#)),
        other => panic!("expected JSON, got {other:?}"),
    }
    match interpret_response(200, "plain text".to_string()) {
        Ok(ResponseBody::Text(t)) => assert_eq!(t, "plain text"),
        other => panic!("expected text, got {other:?}"),
    }
}

#[test]
fn format_json_renders_exactly() {
    assert_eq!(
        format_json(&json(r#"{"b": [1, true], "a": null}"#)).unwrap(),
        "{\n  \"a\": null,\n  \"b\": [\n    1,\n    true\n  ]\n}"
    );
    assert_eq!(format_json(&json("\"x\"")).unwrap(), "\"x\"");
}

#[test]
fn requests_need_a_token_or_basic_credentials() {
    let client = ApiClient::new("https://x.example");
    let bare = client.list_projects(None).unwrap();
    assert!(matches!(bare.require_credentials(), Err(TickTickError::MissingAccessToken)));
    let with_token = client.list_projects(Some("t".into())).unwrap();
    let kept = with_token.require_credentials().unwrap();
    assert_eq!(kept.token.as_deref(), Some("t"));
    let exchange = client.oauth_exchange_code("id", "secret", "c", "s", "r").unwrap();
    let kept = exchange.require_credentials().unwrap();
    assert_eq!(kept.basic_auth.as_deref(), Some("id:secret"));
}

#[test]
fn project_list_without_token_is_refused_before_sending() {
    let argv: Vec<String> = vec!["ticktick-cli".into(), "project".into(), "list".into()];
    let cli = ticktick_cli::cli::Cli::try_parse_with_env(&argv, None, None, None).unwrap();
    match cli.into_action(None).unwrap() {
        ticktick_cli::cli::Action::Api(request) => {
            assert!(matches!(request.require_credentials(), Err(TickTickError::MissingAccessToken)));
        }
        other => panic!("unexpected action {other:?}"),
    }
}

#[test]
fn authorize_url_query_reads_back_its_fields() {
    let cfg = ticktick_cli::config::AuthUrlConfig {
        client_id: "a&b=c".into(),
        scope: "tasks:read tasks+write".into(),
        state: "?#%20é".into(),
        redirect_uri: "https://h.example/p?q=1#f".into(),
    };
    let text = cfg.build_url().unwrap();
    let parsed = url::Url::parse(&text).unwrap();
    let pairs: Vec<(String, String)> = parsed.query_pairs().into_owned().collect();
    assert_eq!(
        pairs,
        vec![
            ("client_id".to_string(), "a&b=c".to_string()),
            ("scope".to_string(), "tasks:read tasks+write".to_string()),
            ("state".to_string(), "?#%20é".to_string()),
            ("redirect_uri".to_string(), "https://h.example/p?q=1#f".to_string()),
            ("response_type".to_string(), "code".to_string()),
        ]
    );
    assert_eq!(parsed.host_str(), Some("ticktick.com"));
    assert_eq!(parsed.path(), "/oauth/authorize");
}

#[test]
fn request_url_query_reads_back_its_pairs() {
    let req = request("https://x.example//", "/a", vec![("k", "1 2"), ("k", "&="), ("ü", "")]);
    let text = req.url().unwrap();
    let parsed = url::Url::parse(&text).unwrap();
    let pairs: Vec<(String, String)> = parsed.query_pairs().into_owned().collect();
    assert_eq!(
        pairs,
        vec![
            ("k".to_string(), "1 2".to_string()),
            ("k".to_string(), "&=".to_string()),
            ("ü".to_string(), "".to_string()),
        ]
    );
    let bare = request("https://x.example/", "/a", vec![]);
    assert_eq!(url::Url::parse(&bare.url().unwrap()).unwrap().query(), None);
}
