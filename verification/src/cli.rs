//! Commands, their JSON input, and what each command does: an API request to
//! send, or a JSON value to print.
use vstd::prelude::*;
use vstd::string::*;

use crate::address::{url_parsed, url_text};
use crate::api::{
    body_shape, exchange_shape, plain_shape, query_shape, ApiClient, ApiRequest, HttpMethod,
};
use crate::config::{authorize_base, authorize_pairs, AuthUrlConfig, OAUTH_BASE_URL};
use crate::error::TickTickError;
use crate::json::{decode_json, json_decoded, json_string_member, string_member_object};
use crate::text::decimal;

verus! {

/// A parsed command line.
#[derive(Debug, Clone)]
pub struct Cli {
    pub token: Option<String>,
    pub client_id: Option<String>,
    pub client_secret: Option<String>,
    pub base_url: String,
    pub command: Command,
}

/// The command groups.
#[derive(Debug, Clone)]
pub enum Command {
    OAuth { command: OAuthCommand },
    Task { command: TaskCommand },
    Project { command: ProjectCommand },
    Focus { command: FocusCommand },
    Habit { command: HabitCommand },
}

/// What a command line asks for.
#[derive(Debug)]
pub enum Action {
    /// Send this request and print the answer.
    Api(ApiRequest),
    /// Print this value.
    PrintJson(serde_json::Value),
}

/// The OAuth commands.
#[derive(Debug, Clone)]
pub enum OAuthCommand {
    /// Build the TickTick OAuth authorization URL.
    Authorize { scope: String, state: String, redirect_uri: String },
    /// Exchange an OAuth authorization code for an access token.
    Exchange { code: String, scope: String, redirect_uri: String },
}

/// The task commands.
#[derive(Debug, Clone)]
pub enum TaskCommand {
    Get { project_id: String, task_id: String },
    Create { input: JsonInput },
    Update { task_id: String, input: JsonInput },
    Complete { project_id: String, task_id: String },
    Delete { project_id: String, task_id: String },
    Move { input: JsonInput },
    Completed { input: JsonInput },
    Filter { input: JsonInput },
}

/// The project commands.
#[derive(Debug, Clone)]
pub enum ProjectCommand {
    List,
    Get { project_id: String },
    Data { project_id: String },
    Create { input: JsonInput },
    Update { project_id: String, input: JsonInput },
    Delete { project_id: String },
}

/// The focus commands.
#[derive(Debug, Clone)]
pub enum FocusCommand {
    Get { focus_id: String, focus_type: i32 },
    List { from: String, to: String, focus_type: i32 },
    Delete { focus_id: String, focus_type: i32 },
}

/// The habit commands.
#[derive(Debug, Clone)]
pub enum HabitCommand {
    Get { habit_id: String },
    List,
    Create { input: JsonInput },
    Update { habit_id: String, input: JsonInput },
    Checkin { habit_id: String, input: JsonInput },
    Checkins { habit_ids: String, from: i32, to: i32 },
}

/// Where a command's JSON body comes from: `--json`, `--json-file` or `--json-stdin`.
#[derive(Debug, Clone)]
pub struct JsonInput {
    pub json: Option<String>,
    pub json_file: Option<String>,
    pub json_stdin: bool,
}

/// The one source a JSON input names.
#[derive(Debug, Clone, PartialEq, Eq)]
pub enum JsonSource {
    /// The text given with `--json`.
    Inline,
    /// The file at this path.
    File(String),
    /// Standard input.
    Stdin,
}

/// How many of the three sources are given.
pub open spec fn source_count(j: JsonInput) -> nat {
    (if j.json is Some { 1nat } else { 0nat }) + (if j.json_file is Some { 1nat } else { 0nat }) + (
    if j.json_stdin { 1nat } else { 0nat })
}

/// Whether the JSON text of `j` has to be read from outside (a file or standard input).
pub open spec fn needs_fetch(j: JsonInput) -> bool {
    source_count(j) <= 1 && j.json is None && (j.json_file is Some || j.json_stdin)
}

/// The outcome of decoding `text` as JSON, with the decoder's error as `InvalidJson`.
pub open spec fn decoded_json(text: Seq<char>) -> Result<serde_json::Value, TickTickError> {
    match json_decoded(text) {
        Ok(v) => Ok(v),
        Err(e) => Err(TickTickError::InvalidJson(e)),
    }
}

/// The JSON value of an input, where `fetched` is the text read for a file or
/// standard input: a conflict if several sources are given, a missing input if
/// none is, otherwise the decoded text.
pub open spec fn json_read(j: JsonInput, fetched: Option<String>) -> Result<
    serde_json::Value,
    TickTickError,
> {
    if source_count(j) > 1 {
        Err(TickTickError::ConflictingJsonInput)
    } else {
        match j.json {
            Some(raw) => decoded_json(raw@),
            None => if j.json_file is Some || j.json_stdin {
                match fetched {
                    Some(t) => decoded_json(t@),
                    None => Err(TickTickError::MissingJsonInput),
                }
            } else {
                Err(TickTickError::MissingJsonInput)
            },
        }
    }
}

impl JsonInput {
    /// The source this input names: an error if more than one is given, `None` if none is.
    pub fn source(&self) -> (r: Result<Option<JsonSource>, TickTickError>)
        ensures
            r == (if source_count(*self) > 1 {
                Err(TickTickError::ConflictingJsonInput)
            } else if self.json is Some {
                Ok(Some(JsonSource::Inline))
            } else if self.json_file is Some {
                Ok(Some(JsonSource::File(self.json_file->0)))
            } else if self.json_stdin {
                Ok(Some(JsonSource::Stdin))
            } else {
                Ok(None)
            }),
    {
        let count: u8 = (if self.json.is_some() { 1u8 } else { 0u8 }) + (if self.json_file.is_some() {
            1u8
        } else {
            0u8
        }) + (if self.json_stdin { 1u8 } else { 0u8 });
        if count > 1 {
            return Err(TickTickError::ConflictingJsonInput);
        }
        if self.json.is_some() {
            return Ok(Some(JsonSource::Inline));
        }
        if let Some(path) = &self.json_file {
            return Ok(Some(JsonSource::File(path.clone())));
        }
        if self.json_stdin {
            return Ok(Some(JsonSource::Stdin));
        }
        Ok(None)
    }

    /// The JSON value of this input. `fetched` is the text the caller read from the
    /// file or standard input that the input names.
    pub fn read_required_json(&self, fetched: Option<String>) -> (r: Result<
        serde_json::Value,
        TickTickError,
    >)
        requires
            needs_fetch(*self) ==> fetched is Some,
        ensures
            r == json_read(*self, fetched),
    {
        match self.read_json(fetched) {
            Err(e) => Err(e),
            Ok(Some(v)) => Ok(v),
            Ok(None) => Err(TickTickError::MissingJsonInput),
        }
    }

    /// The JSON value of this input, or `None` where no source is given.
    fn read_json(&self, fetched: Option<String>) -> (r: Result<Option<serde_json::Value>, TickTickError>)
        requires
            needs_fetch(*self) ==> fetched is Some,
        ensures
            r == (if source_count(*self) == 0 {
                Ok(None)
            } else {
                match json_read(*self, fetched) {
                    Ok(v) => Ok(Some(v)),
                    Err(e) => Err(e),
                }
            }),
    {
        match self.source() {
            Err(e) => Err(e),
            Ok(None) => Ok(None),
            Ok(Some(JsonSource::Inline)) => {
                let raw = self.json.as_ref().unwrap();
                match Self::decode(raw.as_str()) {
                    Ok(v) => Ok(Some(v)),
                    Err(e) => Err(e),
                }
            },
            Ok(Some(_)) => {
                let text = fetched.unwrap();
                match Self::decode(text.as_str()) {
                    Ok(v) => Ok(Some(v)),
                    Err(e) => Err(e),
                }
            },
        }
    }

    fn decode(text: &str) -> (r: Result<serde_json::Value, TickTickError>)
        ensures
            r == decoded_json(text@),
    {
        match decode_json(text) {
            Ok(v) => Ok(v),
            Err(e) => Err(TickTickError::InvalidJson(e)),
        }
    }
}

} // verus!

verus! {

/// The JSON input of a command that sends a body.
pub open spec fn command_input(cmd: Command) -> Option<JsonInput> {
    match cmd {
        Command::Task { command } => match command {
            TaskCommand::Create { input } => Some(input),
            TaskCommand::Update { input, .. } => Some(input),
            TaskCommand::Move { input } => Some(input),
            TaskCommand::Completed { input } => Some(input),
            TaskCommand::Filter { input } => Some(input),
            _ => None,
        },
        Command::Project { command } => match command {
            ProjectCommand::Create { input } => Some(input),
            ProjectCommand::Update { input, .. } => Some(input),
            _ => None,
        },
        Command::Habit { command } => match command {
            HabitCommand::Create { input } => Some(input),
            HabitCommand::Update { input, .. } => Some(input),
            HabitCommand::Checkin { input, .. } => Some(input),
            _ => None,
        },
        _ => None,
    }
}

/// `body_shape` for the body `body` holds, if it holds one.
pub open spec fn with_body(
    req: ApiRequest,
    method: HttpMethod,
    base: Seq<char>,
    path: Seq<char>,
    body: Option<serde_json::Value>,
) -> bool {
    body matches Some(v) && body_shape(req, method, base, path, v)
}

/// The request (token aside) that an API command yields against `base`, where
/// `body` is the decoded JSON input of a command that sends one.
pub open spec fn command_shape(
    cmd: Command,
    base: Seq<char>,
    body: Option<serde_json::Value>,
    req: ApiRequest,
) -> bool {
    match cmd {
        Command::Task { command } => match command {
            TaskCommand::Get { project_id, task_id } => plain_shape(
                req,
                HttpMethod::Get,
                base,
                "/open/v1/project/"@ + project_id@ + "/task/"@ + task_id@,
            ),
            TaskCommand::Create { .. } => with_body(
                req,
                HttpMethod::Post,
                base,
                "/open/v1/task"@,
                body,
            ),
            TaskCommand::Update { task_id, .. } => with_body(
                req,
                HttpMethod::Post,
                base,
                "/open/v1/task/"@ + task_id@,
                body,
            ),
            TaskCommand::Complete { project_id, task_id } => plain_shape(
                req,
                HttpMethod::Post,
                base,
                "/open/v1/project/"@ + project_id@ + "/task/"@ + task_id@ + "/complete"@,
            ),
            TaskCommand::Delete { project_id, task_id } => plain_shape(
                req,
                HttpMethod::Delete,
                base,
                "/open/v1/project/"@ + project_id@ + "/task/"@ + task_id@,
            ),
            TaskCommand::Move { .. } => with_body(
                req,
                HttpMethod::Post,
                base,
                "/open/v1/task/move"@,
                body,
            ),
            TaskCommand::Completed { .. } => with_body(
                req,
                HttpMethod::Post,
                base,
                "/open/v1/task/completed"@,
                body,
            ),
            TaskCommand::Filter { .. } => with_body(
                req,
                HttpMethod::Post,
                base,
                "/open/v1/task/filter"@,
                body,
            ),
        },
        Command::Project { command } => match command {
            ProjectCommand::List => plain_shape(req, HttpMethod::Get, base, "/open/v1/project"@),
            ProjectCommand::Get { project_id } => plain_shape(
                req,
                HttpMethod::Get,
                base,
                "/open/v1/project/"@ + project_id@,
            ),
            ProjectCommand::Data { project_id } => plain_shape(
                req,
                HttpMethod::Get,
                base,
                "/open/v1/project/"@ + project_id@ + "/data"@,
            ),
            ProjectCommand::Create { .. } => with_body(
                req,
                HttpMethod::Post,
                base,
                "/open/v1/project"@,
                body,
            ),
            ProjectCommand::Update { project_id, .. } => with_body(
                req,
                HttpMethod::Post,
                base,
                "/open/v1/project/"@ + project_id@,
                body,
            ),
            ProjectCommand::Delete { project_id } => plain_shape(
                req,
                HttpMethod::Delete,
                base,
                "/open/v1/project/"@ + project_id@,
            ),
        },
        Command::Focus { command } => match command {
            FocusCommand::Get { focus_id, focus_type } => query_shape(
                req,
                HttpMethod::Get,
                base,
                "/open/v1/focus/"@ + focus_id@,
                seq![("type"@, decimal(focus_type as int))],
            ),
            FocusCommand::List { from, to, focus_type } => query_shape(
                req,
                HttpMethod::Get,
                base,
                "/open/v1/focus"@,
                seq![("from"@, from@), ("to"@, to@), ("type"@, decimal(focus_type as int))],
            ),
            FocusCommand::Delete { focus_id, focus_type } => query_shape(
                req,
                HttpMethod::Delete,
                base,
                "/open/v1/focus/"@ + focus_id@,
                seq![("type"@, decimal(focus_type as int))],
            ),
        },
        Command::Habit { command } => match command {
            HabitCommand::Get { habit_id } => plain_shape(
                req,
                HttpMethod::Get,
                base,
                "/open/v1/habit/"@ + habit_id@,
            ),
            HabitCommand::List => plain_shape(req, HttpMethod::Get, base, "/open/v1/habit"@),
            HabitCommand::Create { .. } => with_body(
                req,
                HttpMethod::Post,
                base,
                "/open/v1/habit"@,
                body,
            ),
            HabitCommand::Update { habit_id, .. } => with_body(
                req,
                HttpMethod::Post,
                base,
                "/open/v1/habit/"@ + habit_id@,
                body,
            ),
            HabitCommand::Checkin { habit_id, .. } => with_body(
                req,
                HttpMethod::Post,
                base,
                "/open/v1/habit/"@ + habit_id@ + "/checkin"@,
                body,
            ),
            HabitCommand::Checkins { habit_ids, from, to } => query_shape(
                req,
                HttpMethod::Get,
                base,
                "/open/v1/habit/checkins"@,
                seq![
                    ("habitIds"@, habit_ids@),
                    ("from"@, decimal(from as int)),
                    ("to"@, decimal(to as int)),
                ],
            ),
        },
        Command::OAuth { .. } => false,
    }
}

/// What an API command (any command but the OAuth ones) yields against `base`
/// with `token`: the request of `command_shape` carrying the token, or the error
/// of its JSON input.
pub open spec fn api_outcome(
    cmd: Command,
    base: Seq<char>,
    token: Option<String>,
    fetched: Option<String>,
    r: Result<Action, TickTickError>,
) -> bool {
    match command_input(cmd) {
        None => r matches Ok(Action::Api(req)) && command_shape(cmd, base, None, req) && req.token
            == token,
        Some(j) => match json_read(j, fetched) {
            Ok(v) => r matches Ok(Action::Api(req)) && command_shape(cmd, base, Some(v), req)
                && req.token == token,
            Err(e) => r == Err::<Action, TickTickError>(e),
        },
    }
}

/// The value printed for the authorize command: `{"authorize_url": <url>}`.
pub open spec fn authorize_value(parts: crate::address::UrlPartsView, cfg: AuthUrlConfig) -> serde_json::Value {
    json_string_member("authorize_url"@, url_text(parts, authorize_pairs(cfg)))
}

/// What an OAuth command yields with the given client credentials.
pub open spec fn oauth_outcome(
    client_id: Option<String>,
    client_secret: Option<String>,
    cmd: OAuthCommand,
    r: Result<Action, TickTickError>,
) -> bool {
    match cmd {
        OAuthCommand::Authorize { scope, state, redirect_uri } => match client_id {
            None => r == Err::<Action, TickTickError>(TickTickError::MissingClientId),
            Some(id) => match url_parsed(authorize_base()) {
                Ok(parts) => r == Ok::<Action, TickTickError>(
                    Action::PrintJson(
                        authorize_value(
                            parts,
                            AuthUrlConfig { client_id: id, scope, state, redirect_uri },
                        ),
                    ),
                ),
                Err(e) => r == Err::<Action, TickTickError>(TickTickError::Url(e)),
            },
        },
        OAuthCommand::Exchange { code, scope, redirect_uri } => match client_id {
            None => r == Err::<Action, TickTickError>(TickTickError::MissingClientId),
            Some(id) => match client_secret {
                None => r == Err::<Action, TickTickError>(TickTickError::MissingClientSecret),
                Some(secret) => r matches Ok(Action::Api(req)) && exchange_shape(
                    req,
                    OAUTH_BASE_URL@,
                    id@,
                    secret@,
                    code@,
                    scope@,
                    redirect_uri@,
                ) && req.token is None,
            },
        },
    }
}

/// What a command line yields, where `fetched` is the JSON text read for a file
/// or standard input that the command names.
pub open spec fn action_outcome(cli: Cli, fetched: Option<String>, r: Result<Action, TickTickError>) -> bool {
    match cli.command {
        Command::OAuth { command } => oauth_outcome(cli.client_id, cli.client_secret, command, r),
        _ => api_outcome(cli.command, cli.base_url@, cli.token, fetched, r),
    }
}

/// What `into_request` yields for a command line: the request of the command
/// with its token, or `default_token` where the request carries none; an error
/// where the command prints a value instead, or where the request would carry
/// neither a token nor basic credentials.
pub open spec fn request_outcome(
    cli: Cli,
    default_token: Option<String>,
    fetched: Option<String>,
    r: Result<ApiRequest, TickTickError>,
) -> bool {
    let tok = match cli.token {
        Some(t) => Some(t),
        None => default_token,
    };
    match cli.command {
        Command::OAuth { command } => match command {
            OAuthCommand::Authorize { .. } => match cli.client_id {
                None => r == Err::<ApiRequest, TickTickError>(TickTickError::MissingClientId),
                Some(_) => match url_parsed(authorize_base()) {
                    Ok(_) => r == Err::<ApiRequest, TickTickError>(TickTickError::MissingJsonInput),
                    Err(e) => r == Err::<ApiRequest, TickTickError>(TickTickError::Url(e)),
                },
            },
            OAuthCommand::Exchange { code, scope, redirect_uri } => match cli.client_id {
                None => r == Err::<ApiRequest, TickTickError>(TickTickError::MissingClientId),
                Some(id) => match cli.client_secret {
                    None => r == Err::<ApiRequest, TickTickError>(
                        TickTickError::MissingClientSecret,
                    ),
                    Some(secret) => r matches Ok(req) && exchange_shape(
                        req,
                        OAUTH_BASE_URL@,
                        id@,
                        secret@,
                        code@,
                        scope@,
                        redirect_uri@,
                    ) && req.token == default_token,
                },
            },
        },
        _ => match command_input(cli.command) {
            None => if tok is None {
                r == Err::<ApiRequest, TickTickError>(TickTickError::MissingAccessToken)
            } else {
                r matches Ok(req) && command_shape(cli.command, cli.base_url@, None, req)
                    && req.token == tok
            },
            Some(j) => match json_read(j, fetched) {
                Ok(v) => if tok is None {
                    r == Err::<ApiRequest, TickTickError>(TickTickError::MissingAccessToken)
                } else {
                    r matches Ok(req) && command_shape(cli.command, cli.base_url@, Some(v), req)
                        && req.token == tok
                },
                Err(e) => r == Err::<ApiRequest, TickTickError>(e),
            },
        },
    }
}

/// Whether the JSON text of a command has to be read from outside before the
/// command can be turned into an action.
pub open spec fn command_needs_fetch(cmd: Command) -> bool {
    command_input(cmd) matches Some(j) && needs_fetch(j)
}

} // verus!

verus! {

impl Cli {
    /// The source of the JSON input of this command line's command, if it takes one.
    pub fn json_source(&self) -> (r: Result<Option<JsonSource>, TickTickError>)
        ensures
            match command_input(self.command) {
                None => r == Ok::<Option<JsonSource>, TickTickError>(None),
                Some(j) => r == (if source_count(j) > 1 {
                    Err(TickTickError::ConflictingJsonInput)
                } else if j.json is Some {
                    Ok(Some(JsonSource::Inline))
                } else if j.json_file is Some {
                    Ok(Some(JsonSource::File(j.json_file->0)))
                } else if j.json_stdin {
                    Ok(Some(JsonSource::Stdin))
                } else {
                    Ok(None)
                }),
            },
    {
        let input = match &self.command {
            Command::Task { command } => match command {
                TaskCommand::Create { input } => Some(input),
                TaskCommand::Update { input, .. } => Some(input),
                TaskCommand::Move { input } => Some(input),
                TaskCommand::Completed { input } => Some(input),
                TaskCommand::Filter { input } => Some(input),
                _ => None,
            },
            Command::Project { command } => match command {
                ProjectCommand::Create { input } => Some(input),
                ProjectCommand::Update { input, .. } => Some(input),
                _ => None,
            },
            Command::Habit { command } => match command {
                HabitCommand::Create { input } => Some(input),
                HabitCommand::Update { input, .. } => Some(input),
                HabitCommand::Checkin { input, .. } => Some(input),
                _ => None,
            },
            _ => None,
        };
        match input {
            Some(j) => j.source(),
            None => Ok(None),
        }
    }

    /// What this command line asks for. `fetched` is the JSON text the caller read
    /// for a `--json-file` or `--json-stdin` input (see `json_source`).
    pub fn into_action(self, fetched: Option<String>) -> (r: Result<Action, TickTickError>)
        requires
            command_needs_fetch(self.command) ==> fetched is Some,
        ensures
            action_outcome(self, fetched, r),
    {
        let base_url = self.base_url;
        let token = self.token;
        let client_id = self.client_id;
        let client_secret = self.client_secret;

        match self.command {
            Command::OAuth { command } => Self::oauth_action(client_id, client_secret, command),
            Command::Task { command } => Self::task_action(base_url, token, command, fetched),
            Command::Project { command } => Self::project_action(base_url, token, command, fetched),
            Command::Focus { command } => Self::focus_action(base_url, token, command),
            Command::Habit { command } => Self::habit_action(base_url, token, command, fetched),
        }
    }

    /// The API request this command line asks for. A request without a token gets
    /// `default_token`; one that then has neither a token nor basic credentials is
    /// refused, and so is a command that prints a value instead of calling the API.
    pub fn into_request(self, default_token: Option<String>, fetched: Option<String>) -> (r: Result<
        ApiRequest,
        TickTickError,
    >)
        requires
            command_needs_fetch(self.command) ==> fetched is Some,
        ensures
            request_outcome(self, default_token, fetched, r),
    {
        let ghost cli = self;
        match self.into_action(fetched)? {
            Action::Api(mut request) => {
                if request.token.is_none() {
                    request.token = default_token;
                }
                request.require_credentials()
            },
            Action::PrintJson(_) => Err(TickTickError::MissingJsonInput),
        }
    }

    fn api_client(base_url: String) -> (r: ApiClient)
        ensures
            r@ == base_url@,
    {
        ApiClient::new(base_url.as_str())
    }

    fn require_client_id(client_id: Option<String>) -> (r: Result<String, TickTickError>)
        ensures
            r == (match client_id {
                Some(id) => Ok(id),
                None => Err(TickTickError::MissingClientId),
            }),
    {
        match client_id {
            Some(id) => Ok(id),
            None => Err(TickTickError::MissingClientId),
        }
    }

    fn require_client_secret(client_secret: Option<String>) -> (r: Result<String, TickTickError>)
        ensures
            r == (match client_secret {
                Some(s) => Ok(s),
                None => Err(TickTickError::MissingClientSecret),
            }),
    {
        match client_secret {
            Some(s) => Ok(s),
            None => Err(TickTickError::MissingClientSecret),
        }
    }

    fn oauth_action(
        client_id: Option<String>,
        client_secret: Option<String>,
        command: OAuthCommand,
    ) -> (r: Result<Action, TickTickError>)
        ensures
            oauth_outcome(client_id, client_secret, command, r),
    {
        match command {
            OAuthCommand::Authorize { scope, state, redirect_uri } => {
                let cfg = AuthUrlConfig {
                    client_id: Self::require_client_id(client_id)?,
                    scope,
                    state,
                    redirect_uri,
                };
                let url = cfg.build_url()?;
                Ok(Action::PrintJson(string_member_object("authorize_url", url.as_str())))
            },
            OAuthCommand::Exchange { code, scope, redirect_uri } => {
                let client = ApiClient::new(OAUTH_BASE_URL);
                let id = Self::require_client_id(client_id)?;
                let secret = Self::require_client_secret(client_secret)?;
                proof {
                    reveal_strlit("https://ticktick.com");
                }
                Ok(
                    Action::Api(
                        client.oauth_exchange_code(
                            id.as_str(),
                            secret.as_str(),
                            code.as_str(),
                            scope.as_str(),
                            redirect_uri.as_str(),
                        )?,
                    ),
                )
            },
        }
    }

    fn task_action(
        base_url: String,
        token: Option<String>,
        command: TaskCommand,
        fetched: Option<String>,
    ) -> (r: Result<Action, TickTickError>)
        requires
            command_needs_fetch(Command::Task { command }) ==> fetched is Some,
        ensures
            api_outcome(Command::Task { command }, base_url@, token, fetched, r),
    {
        let client = Self::api_client(base_url);
        let request = match command {
            TaskCommand::Get { project_id, task_id } => client.get_task(
                project_id.as_str(),
                task_id.as_str(),
                token,
            )?,
            TaskCommand::Create { input } => {
                client.create_task(input.read_required_json(fetched)?, token)?
            },
            TaskCommand::Update { task_id, input } => {
                client.update_task(task_id.as_str(), input.read_required_json(fetched)?, token)?
            },
            TaskCommand::Complete { project_id, task_id } => client.complete_task(
                project_id.as_str(),
                task_id.as_str(),
                token,
            )?,
            TaskCommand::Delete { project_id, task_id } => client.delete_task(
                project_id.as_str(),
                task_id.as_str(),
                token,
            )?,
            TaskCommand::Move { input } => client.move_task(
                input.read_required_json(fetched)?,
                token,
            )?,
            TaskCommand::Completed { input } => {
                client.completed_tasks(input.read_required_json(fetched)?, token)?
            },
            TaskCommand::Filter { input } => {
                client.filter_tasks(input.read_required_json(fetched)?, token)?
            },
        };
        Ok(Action::Api(request))
    }

    fn project_action(
        base_url: String,
        token: Option<String>,
        command: ProjectCommand,
        fetched: Option<String>,
    ) -> (r: Result<Action, TickTickError>)
        requires
            command_needs_fetch(Command::Project { command }) ==> fetched is Some,
        ensures
            api_outcome(Command::Project { command }, base_url@, token, fetched, r),
    {
        let client = Self::api_client(base_url);
        let request = match command {
            ProjectCommand::List => client.list_projects(token)?,
            ProjectCommand::Get { project_id } => client.get_project(project_id.as_str(), token)?,
            ProjectCommand::Data { project_id } => client.get_project_data(
                project_id.as_str(),
                token,
            )?,
            ProjectCommand::Create { input } => {
                client.create_project(input.read_required_json(fetched)?, token)?
            },
            ProjectCommand::Update { project_id, input } => {
                client.update_project(
                    project_id.as_str(),
                    input.read_required_json(fetched)?,
                    token,
                )?
            },
            ProjectCommand::Delete { project_id } => client.delete_project(
                project_id.as_str(),
                token,
            )?,
        };
        Ok(Action::Api(request))
    }

    fn focus_action(base_url: String, token: Option<String>, command: FocusCommand) -> (r: Result<
        Action,
        TickTickError,
    >)
        ensures
            api_outcome(Command::Focus { command }, base_url@, token, None, r),
    {
        let client = Self::api_client(base_url);
        let request = match command {
            FocusCommand::Get { focus_id, focus_type } => client.get_focus(
                focus_id.as_str(),
                focus_type,
                token,
            )?,
            FocusCommand::List { from, to, focus_type } => client.list_focuses(
                from.as_str(),
                to.as_str(),
                focus_type,
                token,
            )?,
            FocusCommand::Delete { focus_id, focus_type } => client.delete_focus(
                focus_id.as_str(),
                focus_type,
                token,
            )?,
        };
        Ok(Action::Api(request))
    }

    fn habit_action(
        base_url: String,
        token: Option<String>,
        command: HabitCommand,
        fetched: Option<String>,
    ) -> (r: Result<Action, TickTickError>)
        requires
            command_needs_fetch(Command::Habit { command }) ==> fetched is Some,
        ensures
            api_outcome(Command::Habit { command }, base_url@, token, fetched, r),
    {
        let client = Self::api_client(base_url);
        let request = match command {
            HabitCommand::Get { habit_id } => client.get_habit(habit_id.as_str(), token)?,
            HabitCommand::List => client.list_habits(token)?,
            HabitCommand::Create { input } => {
                client.create_habit(input.read_required_json(fetched)?, token)?
            },
            HabitCommand::Update { habit_id, input } => {
                client.update_habit(habit_id.as_str(), input.read_required_json(fetched)?, token)?
            },
            HabitCommand::Checkin { habit_id, input } => {
                client.check_in_habit(habit_id.as_str(), input.read_required_json(fetched)?, token)?
            },
            HabitCommand::Checkins { habit_ids, from, to } => client.habit_checkins(
                habit_ids.as_str(),
                from,
                to,
                token,
            )?,
        };
        Ok(Action::Api(request))
    }
}

} // verus!
