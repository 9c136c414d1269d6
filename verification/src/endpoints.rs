//! Where each command's request goes, written out per command: the method, the
//! endpoint path with the identifiers in their places, the query, the body and
//! the form, and what a request is sent with.
use vstd::prelude::*;
use vstd::utf8::encode_utf8;

use crate::address::{extended_query, pairs_view};
use crate::api::{ApiRequest, HttpMethod};
use crate::cli::{
    action_outcome, json_read, request_outcome, Action, Cli, Command, FocusCommand, HabitCommand,
    OAuthCommand, ProjectCommand, TaskCommand,
};
use crate::config::OAUTH_BASE_URL;
use crate::error::TickTickError;
use crate::http::{base64_encode, json_compact, request_headers, request_payload};
use crate::text::decimal;

verus! {

/// The request goes to the command line's base URL with its token, and carries
/// no form and no basic credentials.
pub open spec fn sent_as_api_call(req: ApiRequest, cli: Cli) -> bool {
    &&& req.base_url@ == cli.base_url@
    &&& req.token == cli.token
    &&& req.form@.len() == 0
    &&& req.basic_auth is None
}

/// A request without query or body.
pub open spec fn bare(req: ApiRequest) -> bool {
    req.query@.len() == 0 && req.body is None
}

/// The request carries the decoded JSON input as its body and no query; an input
/// that cannot be read is the answer instead.
pub open spec fn with_json_body(
    r: Result<Action, TickTickError>,
    cli: Cli,
    input: crate::cli::JsonInput,
    fetched: Option<String>,
    method: HttpMethod,
    path: Seq<char>,
) -> bool {
    match json_read(input, fetched) {
        Ok(v) => r matches Ok(Action::Api(req)) && req.method == method && req.path@ == path
            && req.body == Some(v) && req.query@.len() == 0 && sent_as_api_call(req, cli),
        Err(e) => r == Err::<Action, TickTickError>(e),
    }
}

/// Each task command is sent to its endpoint: the method, the path with the
/// project and task identifiers in their places, and the JSON input as body for
/// the commands that send one.
pub proof fn task_commands_reach_their_endpoints(cli: Cli, fetched: Option<String>, r: Result<Action, TickTickError>)
    requires
        cli.command is Task,
        action_outcome(cli, fetched, r),
    ensures
        match cli.command {
            Command::Task { command } => match command {
                TaskCommand::Get { project_id, task_id } => r matches Ok(Action::Api(req))
                    && req.method == HttpMethod::Get && req.path@ == "/open/v1/project/"@
                    + project_id@ + "/task/"@ + task_id@ && bare(req) && sent_as_api_call(req, cli),
                TaskCommand::Create { input } => with_json_body(
                    r,
                    cli,
                    input,
                    fetched,
                    HttpMethod::Post,
                    "/open/v1/task"@,
                ),
                TaskCommand::Update { task_id, input } => with_json_body(
                    r,
                    cli,
                    input,
                    fetched,
                    HttpMethod::Post,
                    "/open/v1/task/"@ + task_id@,
                ),
                TaskCommand::Complete { project_id, task_id } => r matches Ok(Action::Api(req))
                    && req.method == HttpMethod::Post && req.path@ == "/open/v1/project/"@
                    + project_id@ + "/task/"@ + task_id@ + "/complete"@ && bare(req)
                    && sent_as_api_call(req, cli),
                TaskCommand::Delete { project_id, task_id } => r matches Ok(Action::Api(req))
                    && req.method == HttpMethod::Delete && req.path@ == "/open/v1/project/"@
                    + project_id@ + "/task/"@ + task_id@ && bare(req) && sent_as_api_call(req, cli),
                TaskCommand::Move { input } => with_json_body(
                    r,
                    cli,
                    input,
                    fetched,
                    HttpMethod::Post,
                    "/open/v1/task/move"@,
                ),
                TaskCommand::Completed { input } => with_json_body(
                    r,
                    cli,
                    input,
                    fetched,
                    HttpMethod::Post,
                    "/open/v1/task/completed"@,
                ),
                TaskCommand::Filter { input } => with_json_body(
                    r,
                    cli,
                    input,
                    fetched,
                    HttpMethod::Post,
                    "/open/v1/task/filter"@,
                ),
            },
            _ => true,
        },
{
}

/// Each project command is sent to its endpoint.
pub proof fn project_commands_reach_their_endpoints(
    cli: Cli,
    fetched: Option<String>,
    r: Result<Action, TickTickError>,
)
    requires
        cli.command is Project,
        action_outcome(cli, fetched, r),
    ensures
        match cli.command {
            Command::Project { command } => match command {
                ProjectCommand::List => r matches Ok(Action::Api(req)) && req.method == HttpMethod::Get
                    && req.path@ == "/open/v1/project"@ && bare(req) && sent_as_api_call(req, cli),
                ProjectCommand::Get { project_id } => r matches Ok(Action::Api(req)) && req.method
                    == HttpMethod::Get && req.path@ == "/open/v1/project/"@ + project_id@ && bare(req)
                    && sent_as_api_call(req, cli),
                ProjectCommand::Data { project_id } => r matches Ok(Action::Api(req)) && req.method
                    == HttpMethod::Get && req.path@ == "/open/v1/project/"@ + project_id@ + "/data"@
                    && bare(req) && sent_as_api_call(req, cli),
                ProjectCommand::Create { input } => with_json_body(
                    r,
                    cli,
                    input,
                    fetched,
                    HttpMethod::Post,
                    "/open/v1/project"@,
                ),
                ProjectCommand::Update { project_id, input } => with_json_body(
                    r,
                    cli,
                    input,
                    fetched,
                    HttpMethod::Post,
                    "/open/v1/project/"@ + project_id@,
                ),
                ProjectCommand::Delete { project_id } => r matches Ok(Action::Api(req)) && req.method
                    == HttpMethod::Delete && req.path@ == "/open/v1/project/"@ + project_id@ && bare(req)
                    && sent_as_api_call(req, cli),
            },
            _ => true,
        },
{
}

/// Each focus command is sent to its endpoint, with its query pairs in order.
pub proof fn focus_commands_reach_their_endpoints(
    cli: Cli,
    fetched: Option<String>,
    r: Result<Action, TickTickError>,
)
    requires
        cli.command is Focus,
        action_outcome(cli, fetched, r),
    ensures
        match cli.command {
            Command::Focus { command } => match command {
                FocusCommand::Get { focus_id, focus_type } => r matches Ok(Action::Api(req))
                    && req.method == HttpMethod::Get && req.path@ == "/open/v1/focus/"@ + focus_id@
                    && pairs_view(req.query@) == seq![("type"@, decimal(focus_type as int))]
                    && req.body is None && sent_as_api_call(req, cli),
                FocusCommand::List { from, to, focus_type } => r matches Ok(Action::Api(req))
                    && req.method == HttpMethod::Get && req.path@ == "/open/v1/focus"@ && pairs_view(
                    req.query@,
                ) == seq![("from"@, from@), ("to"@, to@), ("type"@, decimal(focus_type as int))]
                    && req.body is None && sent_as_api_call(req, cli),
                FocusCommand::Delete { focus_id, focus_type } => r matches Ok(Action::Api(req))
                    && req.method == HttpMethod::Delete && req.path@ == "/open/v1/focus/"@ + focus_id@
                    && pairs_view(req.query@) == seq![("type"@, decimal(focus_type as int))]
                    && req.body is None && sent_as_api_call(req, cli),
            },
            _ => true,
        },
{
}

/// Each habit command is sent to its endpoint: a check-in goes to the habit's
/// `checkin` endpoint, an update to the habit itself.
pub proof fn habit_commands_reach_their_endpoints(
    cli: Cli,
    fetched: Option<String>,
    r: Result<Action, TickTickError>,
)
    requires
        cli.command is Habit,
        action_outcome(cli, fetched, r),
    ensures
        match cli.command {
            Command::Habit { command } => match command {
                HabitCommand::Get { habit_id } => r matches Ok(Action::Api(req)) && req.method
                    == HttpMethod::Get && req.path@ == "/open/v1/habit/"@ + habit_id@ && bare(req)
                    && sent_as_api_call(req, cli),
                HabitCommand::List => r matches Ok(Action::Api(req)) && req.method == HttpMethod::Get
                    && req.path@ == "/open/v1/habit"@ && bare(req) && sent_as_api_call(req, cli),
                HabitCommand::Create { input } => with_json_body(
                    r,
                    cli,
                    input,
                    fetched,
                    HttpMethod::Post,
                    "/open/v1/habit"@,
                ),
                HabitCommand::Update { habit_id, input } => with_json_body(
                    r,
                    cli,
                    input,
                    fetched,
                    HttpMethod::Post,
                    "/open/v1/habit/"@ + habit_id@,
                ),
                HabitCommand::Checkin { habit_id, input } => with_json_body(
                    r,
                    cli,
                    input,
                    fetched,
                    HttpMethod::Post,
                    "/open/v1/habit/"@ + habit_id@ + "/checkin"@,
                ),
                HabitCommand::Checkins { habit_ids, from, to } => r matches Ok(Action::Api(req))
                    && req.method == HttpMethod::Get && req.path@ == "/open/v1/habit/checkins"@
                    && pairs_view(req.query@) == seq![
                    ("habitIds"@, habit_ids@),
                    ("from"@, decimal(from as int)),
                    ("to"@, decimal(to as int)),
                ] && req.body is None && sent_as_api_call(req, cli),
            },
            _ => true,
        },
{
}

/// The form of the code exchange, written out: the code, the grant type, the
/// `--scope` value and the `--redirect-uri` value, each under its own name.
pub open spec fn written_exchange_form(code: Seq<char>, scope: Seq<char>, redirect_uri: Seq<char>) -> Seq<
    (Seq<char>, Seq<char>),
> {
    seq![
        ("code"@, code),
        ("grant_type"@, "authorization_code"@),
        ("scope"@, scope),
        ("redirect_uri"@, redirect_uri),
    ]
}

/// The code exchange (`into_action`) is a POST of the code, grant type, scope and
/// redirect URI, each under its own name, to `https://ticktick.com/oauth/token`,
/// with `client_id:client_secret` as basic credentials.
pub proof fn exchange_sends_each_field_under_its_name(
    cli: Cli,
    fetched: Option<String>,
    r: Result<Action, TickTickError>,
)
    requires
        cli.command is OAuth,
        cli.client_id is Some,
        cli.client_secret is Some,
        action_outcome(cli, fetched, r),
    ensures
        match cli.command {
            Command::OAuth { command: OAuthCommand::Exchange { code, scope, redirect_uri } } => r matches Ok(
                Action::Api(req),
            ) && req.method == HttpMethod::Post && req.base_url@ == OAUTH_BASE_URL@ && req.path@
                == "/oauth/token"@ && pairs_view(req.form@) == written_exchange_form(
                code@,
                scope@,
                redirect_uri@,
            ) && req.basic_auth is Some && req.basic_auth->0@ == cli.client_id->0@ + ":"@
                + cli.client_secret->0@ && req.body is None && req.query@.len() == 0,
            _ => true,
        },
{
}

/// The same for the request `into_request` yields.
pub proof fn exchange_request_sends_each_field_under_its_name(
    cli: Cli,
    default_token: Option<String>,
    fetched: Option<String>,
    r: Result<ApiRequest, TickTickError>,
)
    requires
        cli.command is OAuth,
        cli.client_id is Some,
        cli.client_secret is Some,
        request_outcome(cli, default_token, fetched, r),
    ensures
        match cli.command {
            Command::OAuth { command: OAuthCommand::Exchange { code, scope, redirect_uri } } => r matches Ok(
                req,
            ) && req.method == HttpMethod::Post && req.base_url@ == OAUTH_BASE_URL@ && req.path@
                == "/oauth/token"@ && pairs_view(req.form@) == written_exchange_form(
                code@,
                scope@,
                redirect_uri@,
            ) && req.basic_auth is Some && req.basic_auth->0@ == cli.client_id->0@ + ":"@
                + cli.client_secret->0@,
            _ => true,
        },
{
}

/// What a request is sent with: `accept` first; the bearer token if it has one;
/// the basic credentials, base64-encoded, if it has them; the JSON content type
/// if it has a body; the form content type if it has a form; and nothing else.
/// Each of these is there whatever the request's other fields are.
pub proof fn headers_follow_the_request(req: ApiRequest)
    ensures
        request_headers(req).len() > 0,
        request_headers(req)[0] == ("accept"@, "application/json"@),
        req.token matches Some(t) ==> request_headers(req).contains(("authorization"@, "Bearer "@ + t@)),
        req.basic_auth matches Some(c) ==> request_headers(req).contains(
            ("authorization"@, "Basic "@ + base64_encode(encode_utf8(c@))),
        ),
        req.body is Some ==> request_headers(req).contains(("content-type"@, "application/json"@)),
        req.form@.len() > 0 ==> request_headers(req).contains(
            ("content-type"@, "application/x-www-form-urlencoded"@),
        ),
        request_headers(req).len() == 1 + (if req.token is Some { 1int } else { 0 }) + (
        if req.basic_auth is Some { 1int } else { 0 }) + (if req.body is Some { 1int } else { 0 }) + (
        if req.form@.len() > 0 { 1int } else { 0 }),
        request_headers(req).contains(("content-type"@, "application/json"@)) ==> req.body is Some,
{
    let h = request_headers(req);
    reveal_strlit("content-type");
    reveal_strlit("accept");
    reveal_strlit("authorization");
    if let Some(t) = req.token {
        let k = 1int;
        assert(h[k] == ("authorization"@, "Bearer "@ + t@));
    }
    if let Some(c) = req.basic_auth {
        let k = if req.token is Some { 2int } else { 1int };
        assert(h[k] == ("authorization"@, "Basic "@ + base64_encode(encode_utf8(c@))));
    }
    let before_body = 1 + (if req.token is Some { 1int } else { 0 }) + (if req.basic_auth is Some {
        1int
    } else {
        0
    });
    if req.body is Some {
        assert(h[before_body] == ("content-type"@, "application/json"@));
    }
    if req.form@.len() > 0 {
        let k = before_body + if req.body is Some { 1int } else { 0 };
        assert(h[k] == ("content-type"@, "application/x-www-form-urlencoded"@));
    }
    if h.contains(("content-type"@, "application/json"@)) {
        let k = choose|k: int| 0 <= k < h.len() && h[k] == ("content-type"@, "application/json"@);
        if req.body is None {
            assert("application/x-www-form-urlencoded"@.len() != "application/json"@.len()) by {
                reveal_strlit("application/x-www-form-urlencoded");
                reveal_strlit("application/json");
            }
            assert("authorization"@[0] != "content-type"@[0]);
            assert("accept"@.len() != "content-type"@.len());
        }
    }
}

/// What a request is sent with as payload: its form, urlencoded, if it has one;
/// otherwise its JSON body, compact; otherwise nothing.
pub proof fn payload_follows_the_request(req: ApiRequest)
    ensures
        req.form@.len() > 0 ==> request_payload(req) == Some(extended_query(seq![], pairs_view(req.form@))),
        req.form@.len() == 0 && req.body is Some ==> request_payload(req) == Some(json_compact(req.body->0)),
        req.form@.len() == 0 && req.body is None ==> request_payload(req) is None,
{
}

} // verus!
