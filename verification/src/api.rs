//! Requests of the Open API: what each endpoint is sent, and the URL a request goes to.
use vstd::prelude::*;
use vstd::string::*;

use crate::address::{pairs_view, parse_url, url_from_parts, url_parsed, url_text};
use crate::config::API_BASE_URL;
use crate::error::TickTickError;
use crate::text::{concat, concat3, decimal, i32_text, trim_end_slashes, trim_trailing_slashes};

verus! {

/// The HTTP methods the API uses.
#[derive(Debug, Clone, Copy, PartialEq, Eq, Structural)]
pub enum HttpMethod {
    Get,
    Post,
    Delete,
}

/// One request to the API, before it is sent.
#[derive(Debug, Clone, PartialEq)]
pub struct ApiRequest {
    pub method: HttpMethod,
    pub base_url: String,
    pub path: String,
    pub query: Vec<(String, String)>,
    pub body: Option<serde_json::Value>,
    pub form: Vec<(String, String)>,
    pub token: Option<String>,
    pub basic_auth: Option<String>,
}

/// The text a request's URL is parsed from: the base URL without trailing `/`, then the path.
pub open spec fn request_url_input(req: ApiRequest) -> Seq<char> {
    trim_end_slashes(req.base_url@) + req.path@
}

impl ApiRequest {
    /// The URL of the request: the base URL without trailing slashes joined to the
    /// path, parsed, with the query pairs appended in order.
    pub fn url(&self) -> (r: Result<String, TickTickError>)
        ensures
            match url_parsed(request_url_input(*self)) {
                Ok(parts) => r matches Ok(u) && u@ == url_text(parts, pairs_view(self.query@)),
                Err(e) => r == Err::<String, TickTickError>(TickTickError::Url(e)),
            },
    {
        let base = trim_trailing_slashes(self.base_url.as_str());
        let input = concat(base.as_str(), self.path.as_str());
        match parse_url(input.as_str()) {
            Ok(parts) => Ok(url_from_parts(&parts, &self.query)),
            Err(e) => Err(TickTickError::Url(e)),
        }
    }
}

/// A request with the given method, base URL and path, and nothing else: no
/// query, body, form or basic credentials (its token is not constrained).
pub open spec fn plain_shape(req: ApiRequest, method: HttpMethod, base: Seq<char>, path: Seq<char>) -> bool {
    &&& req.method == method
    &&& req.base_url@ == base
    &&& req.path@ == path
    &&& req.query@.len() == 0
    &&& req.body is None
    &&& req.form@.len() == 0
    &&& req.basic_auth is None
}

/// A request as `plain_shape` describes, but carrying a JSON body.
pub open spec fn body_shape(
    req: ApiRequest,
    method: HttpMethod,
    base: Seq<char>,
    path: Seq<char>,
    body: serde_json::Value,
) -> bool {
    &&& req.method == method
    &&& req.base_url@ == base
    &&& req.path@ == path
    &&& req.query@.len() == 0
    &&& req.body == Some(body)
    &&& req.form@.len() == 0
    &&& req.basic_auth is None
}

/// A request as `plain_shape` describes, but carrying the given query pairs.
pub open spec fn query_shape(
    req: ApiRequest,
    method: HttpMethod,
    base: Seq<char>,
    path: Seq<char>,
    query: Seq<(Seq<char>, Seq<char>)>,
) -> bool {
    &&& req.method == method
    &&& req.base_url@ == base
    &&& req.path@ == path
    &&& pairs_view(req.query@) == query
    &&& req.body is None
    &&& req.form@.len() == 0
    &&& req.basic_auth is None
}

/// `plain_shape` with the given token.
pub open spec fn plain_request(
    req: ApiRequest,
    method: HttpMethod,
    base: Seq<char>,
    path: Seq<char>,
    token: Option<String>,
) -> bool {
    plain_shape(req, method, base, path) && req.token == token
}

/// `body_shape` with the given token.
pub open spec fn body_request(
    req: ApiRequest,
    method: HttpMethod,
    base: Seq<char>,
    path: Seq<char>,
    body: serde_json::Value,
    token: Option<String>,
) -> bool {
    body_shape(req, method, base, path, body) && req.token == token
}

/// `query_shape` with the given token.
pub open spec fn query_request(
    req: ApiRequest,
    method: HttpMethod,
    base: Seq<char>,
    path: Seq<char>,
    query: Seq<(Seq<char>, Seq<char>)>,
    token: Option<String>,
) -> bool {
    query_shape(req, method, base, path, query) && req.token == token
}

/// The OAuth code exchange request against `base`, with the token not constrained:
/// `POST /oauth/token`, the exchange form and `client_id:client_secret` as basic credentials.
pub open spec fn exchange_shape(
    req: ApiRequest,
    base: Seq<char>,
    client_id: Seq<char>,
    client_secret: Seq<char>,
    code: Seq<char>,
    scope: Seq<char>,
    redirect_uri: Seq<char>,
) -> bool {
    &&& req.method == HttpMethod::Post
    &&& req.base_url@ == base
    &&& req.path@ == "/oauth/token"@
    &&& req.query@.len() == 0
    &&& req.body is None
    &&& pairs_view(req.form@) == exchange_form(code, scope, redirect_uri)
    &&& req.basic_auth matches Some(b) && b@ == client_id + ":"@ + client_secret
}

/// The form of the OAuth code exchange, in order.
pub open spec fn exchange_form(code: Seq<char>, scope: Seq<char>, redirect_uri: Seq<char>) -> Seq<
    (Seq<char>, Seq<char>),
> {
    seq![
        ("code"@, code),
        ("grant_type"@, "authorization_code"@),
        ("scope"@, scope),
        ("redirect_uri"@, redirect_uri),
    ]
}

/// Builds requests against one base URL.
#[derive(Debug, Clone)]
pub struct ApiClient {
    base_url: String,
}

impl View for ApiClient {
    type V = Seq<char>;

    /// The base URL.
    closed spec fn view(&self) -> Seq<char> {
        self.base_url@
    }
}

impl Default for ApiClient {
    /// A client for the default base URL.
    fn default() -> (r: Self)
        ensures
            r@ == API_BASE_URL@,
    {
        Self::new(API_BASE_URL)
    }
}

/// Two owned strings as a pair.
fn pair(k: &str, v: &str) -> (r: (String, String))
    ensures
        r.0@ == k@,
        r.1@ == v@,
{
    (String::from_str(k), String::from_str(v))
}

impl ApiClient {
    /// A client for `base_url`.
    pub fn new(base_url: &str) -> (r: Self)
        ensures
            r@ == base_url@,
    {
        Self { base_url: String::from_str(base_url) }
    }

    fn request(&self, method: HttpMethod, path: String, token: Option<String>) -> (r: ApiRequest)
        ensures
            plain_request(r, method, self@, path@, token),
    {
        ApiRequest {
            method,
            base_url: self.base_url.clone(),
            path,
            query: Vec::new(),
            body: None,
            form: Vec::new(),
            token,
            basic_auth: None,
        }
    }

    fn body_request(
        &self,
        method: HttpMethod,
        path: String,
        body: serde_json::Value,
        token: Option<String>,
    ) -> (r: ApiRequest)
        ensures
            body_request(r, method, self@, path@, body, token),
    {
        let mut req = self.request(method, path, token);
        req.body = Some(body);
        req
    }

    /// `GET /open/v1/project/{project_id}/task/{task_id}`.
    pub fn get_task(&self, project_id: &str, task_id: &str, token: Option<String>) -> (r: Result<
        ApiRequest,
        TickTickError,
    >)
        ensures
            r matches Ok(req) && plain_request(
                req,
                HttpMethod::Get,
                self@,
                "/open/v1/project/"@ + project_id@ + "/task/"@ + task_id@,
                token,
            ),
    {
        let mut path = concat3("/open/v1/project/", project_id, "/task/");
        path.append(task_id);
        Ok(self.request(HttpMethod::Get, path, token))
    }

    /// `POST /open/v1/task` with the task as body.
    pub fn create_task(&self, body: serde_json::Value, token: Option<String>) -> (r: Result<
        ApiRequest,
        TickTickError,
    >)
        ensures
            r matches Ok(req) && body_request(
                req,
                HttpMethod::Post,
                self@,
                "/open/v1/task"@,
                body,
                token,
            ),
    {
        Ok(self.body_request(HttpMethod::Post, String::from_str("/open/v1/task"), body, token))
    }

    /// `POST /open/v1/task/{task_id}` with the task as body.
    pub fn update_task(&self, task_id: &str, body: serde_json::Value, token: Option<String>) -> (r:
        Result<ApiRequest, TickTickError>)
        ensures
            r matches Ok(req) && body_request(
                req,
                HttpMethod::Post,
                self@,
                "/open/v1/task/"@ + task_id@,
                body,
                token,
            ),
    {
        let path = concat("/open/v1/task/", task_id);
        Ok(self.body_request(HttpMethod::Post, path, body, token))
    }

    /// `POST /open/v1/project/{project_id}/task/{task_id}/complete`.
    pub fn complete_task(&self, project_id: &str, task_id: &str, token: Option<String>) -> (r:
        Result<ApiRequest, TickTickError>)
        ensures
            r matches Ok(req) && plain_request(
                req,
                HttpMethod::Post,
                self@,
                "/open/v1/project/"@ + project_id@ + "/task/"@ + task_id@ + "/complete"@,
                token,
            ),
    {
        let mut path = concat3("/open/v1/project/", project_id, "/task/");
        path.append(task_id);
        path.append("/complete");
        Ok(self.request(HttpMethod::Post, path, token))
    }

    /// `DELETE /open/v1/project/{project_id}/task/{task_id}`.
    pub fn delete_task(&self, project_id: &str, task_id: &str, token: Option<String>) -> (r: Result<
        ApiRequest,
        TickTickError,
    >)
        ensures
            r matches Ok(req) && plain_request(
                req,
                HttpMethod::Delete,
                self@,
                "/open/v1/project/"@ + project_id@ + "/task/"@ + task_id@,
                token,
            ),
    {
        let mut path = concat3("/open/v1/project/", project_id, "/task/");
        path.append(task_id);
        Ok(self.request(HttpMethod::Delete, path, token))
    }

    /// `POST /open/v1/task/move` with the moves as body.
    pub fn move_task(&self, body: serde_json::Value, token: Option<String>) -> (r: Result<
        ApiRequest,
        TickTickError,
    >)
        ensures
            r matches Ok(req) && body_request(
                req,
                HttpMethod::Post,
                self@,
                "/open/v1/task/move"@,
                body,
                token,
            ),
    {
        Ok(self.body_request(HttpMethod::Post, String::from_str("/open/v1/task/move"), body, token))
    }

    /// `POST /open/v1/task/completed` with the query as body.
    pub fn completed_tasks(&self, body: serde_json::Value, token: Option<String>) -> (r: Result<
        ApiRequest,
        TickTickError,
    >)
        ensures
            r matches Ok(req) && body_request(
                req,
                HttpMethod::Post,
                self@,
                "/open/v1/task/completed"@,
                body,
                token,
            ),
    {
        Ok(
            self.body_request(
                HttpMethod::Post,
                String::from_str("/open/v1/task/completed"),
                body,
                token,
            ),
        )
    }

    /// `POST /open/v1/task/filter` with the filter as body.
    pub fn filter_tasks(&self, body: serde_json::Value, token: Option<String>) -> (r: Result<
        ApiRequest,
        TickTickError,
    >)
        ensures
            r matches Ok(req) && body_request(
                req,
                HttpMethod::Post,
                self@,
                "/open/v1/task/filter"@,
                body,
                token,
            ),
    {
        Ok(
            self.body_request(
                HttpMethod::Post,
                String::from_str("/open/v1/task/filter"),
                body,
                token,
            ),
        )
    }

    /// `GET /open/v1/project`.
    pub fn list_projects(&self, token: Option<String>) -> (r: Result<ApiRequest, TickTickError>)
        ensures
            r matches Ok(req) && plain_request(
                req,
                HttpMethod::Get,
                self@,
                "/open/v1/project"@,
                token,
            ),
    {
        Ok(self.request(HttpMethod::Get, String::from_str("/open/v1/project"), token))
    }

    /// `GET /open/v1/project/{project_id}`.
    pub fn get_project(&self, project_id: &str, token: Option<String>) -> (r: Result<
        ApiRequest,
        TickTickError,
    >)
        ensures
            r matches Ok(req) && plain_request(
                req,
                HttpMethod::Get,
                self@,
                "/open/v1/project/"@ + project_id@,
                token,
            ),
    {
        Ok(self.request(HttpMethod::Get, concat("/open/v1/project/", project_id), token))
    }

    /// `GET /open/v1/project/{project_id}/data`.
    pub fn get_project_data(&self, project_id: &str, token: Option<String>) -> (r: Result<
        ApiRequest,
        TickTickError,
    >)
        ensures
            r matches Ok(req) && plain_request(
                req,
                HttpMethod::Get,
                self@,
                "/open/v1/project/"@ + project_id@ + "/data"@,
                token,
            ),
    {
        Ok(self.request(HttpMethod::Get, concat3("/open/v1/project/", project_id, "/data"), token))
    }

    /// `POST /open/v1/project` with the project as body.
    pub fn create_project(&self, body: serde_json::Value, token: Option<String>) -> (r: Result<
        ApiRequest,
        TickTickError,
    >)
        ensures
            r matches Ok(req) && body_request(
                req,
                HttpMethod::Post,
                self@,
                "/open/v1/project"@,
                body,
                token,
            ),
    {
        Ok(self.body_request(HttpMethod::Post, String::from_str("/open/v1/project"), body, token))
    }

    /// `POST /open/v1/project/{project_id}` with the project as body.
    pub fn update_project(
        &self,
        project_id: &str,
        body: serde_json::Value,
        token: Option<String>,
    ) -> (r: Result<ApiRequest, TickTickError>)
        ensures
            r matches Ok(req) && body_request(
                req,
                HttpMethod::Post,
                self@,
                "/open/v1/project/"@ + project_id@,
                body,
                token,
            ),
    {
        Ok(
            self.body_request(
                HttpMethod::Post,
                concat("/open/v1/project/", project_id),
                body,
                token,
            ),
        )
    }

    /// `DELETE /open/v1/project/{project_id}`.
    pub fn delete_project(&self, project_id: &str, token: Option<String>) -> (r: Result<
        ApiRequest,
        TickTickError,
    >)
        ensures
            r matches Ok(req) && plain_request(
                req,
                HttpMethod::Delete,
                self@,
                "/open/v1/project/"@ + project_id@,
                token,
            ),
    {
        Ok(self.request(HttpMethod::Delete, concat("/open/v1/project/", project_id), token))
    }

    /// `GET /open/v1/focus/{focus_id}?type={focus_type}`.
    pub fn get_focus(&self, focus_id: &str, focus_type: i32, token: Option<String>) -> (r: Result<
        ApiRequest,
        TickTickError,
    >)
        ensures
            r matches Ok(req) && query_request(
                req,
                HttpMethod::Get,
                self@,
                "/open/v1/focus/"@ + focus_id@,
                seq![("type"@, decimal(focus_type as int))],
                token,
            ),
    {
        let mut req = self.request(HttpMethod::Get, concat("/open/v1/focus/", focus_id), token);
        req.query.push((String::from_str("type"), i32_text(focus_type)));
        assert(pairs_view(req.query@) =~= seq![("type"@, decimal(focus_type as int))]);
        Ok(req)
    }

    /// `GET /open/v1/focus?from={from}&to={to}&type={focus_type}`.
    pub fn list_focuses(&self, from: &str, to: &str, focus_type: i32, token: Option<String>) -> (r:
        Result<ApiRequest, TickTickError>)
        ensures
            r matches Ok(req) && query_request(
                req,
                HttpMethod::Get,
                self@,
                "/open/v1/focus"@,
                seq![("from"@, from@), ("to"@, to@), ("type"@, decimal(focus_type as int))],
                token,
            ),
    {
        let mut req = self.request(HttpMethod::Get, String::from_str("/open/v1/focus"), token);
        let mut query: Vec<(String, String)> = Vec::new();
        query.push(pair("from", from));
        query.push(pair("to", to));
        query.push((String::from_str("type"), i32_text(focus_type)));
        req.query = query;
        assert(pairs_view(req.query@) =~= seq![
            ("from"@, from@),
            ("to"@, to@),
            ("type"@, decimal(focus_type as int)),
        ]);
        Ok(req)
    }

    /// `DELETE /open/v1/focus/{focus_id}?type={focus_type}`.
    pub fn delete_focus(&self, focus_id: &str, focus_type: i32, token: Option<String>) -> (r:
        Result<ApiRequest, TickTickError>)
        ensures
            r matches Ok(req) && query_request(
                req,
                HttpMethod::Delete,
                self@,
                "/open/v1/focus/"@ + focus_id@,
                seq![("type"@, decimal(focus_type as int))],
                token,
            ),
    {
        let mut req = self.request(HttpMethod::Delete, concat("/open/v1/focus/", focus_id), token);
        req.query.push((String::from_str("type"), i32_text(focus_type)));
        assert(pairs_view(req.query@) =~= seq![("type"@, decimal(focus_type as int))]);
        Ok(req)
    }

    /// `GET /open/v1/habit/{habit_id}`.
    pub fn get_habit(&self, habit_id: &str, token: Option<String>) -> (r: Result<
        ApiRequest,
        TickTickError,
    >)
        ensures
            r matches Ok(req) && plain_request(
                req,
                HttpMethod::Get,
                self@,
                "/open/v1/habit/"@ + habit_id@,
                token,
            ),
    {
        Ok(self.request(HttpMethod::Get, concat("/open/v1/habit/", habit_id), token))
    }

    /// `GET /open/v1/habit`.
    pub fn list_habits(&self, token: Option<String>) -> (r: Result<ApiRequest, TickTickError>)
        ensures
            r matches Ok(req) && plain_request(req, HttpMethod::Get, self@, "/open/v1/habit"@, token),
    {
        Ok(self.request(HttpMethod::Get, String::from_str("/open/v1/habit"), token))
    }

    /// `POST /open/v1/habit` with the habit as body.
    pub fn create_habit(&self, body: serde_json::Value, token: Option<String>) -> (r: Result<
        ApiRequest,
        TickTickError,
    >)
        ensures
            r matches Ok(req) && body_request(
                req,
                HttpMethod::Post,
                self@,
                "/open/v1/habit"@,
                body,
                token,
            ),
    {
        Ok(self.body_request(HttpMethod::Post, String::from_str("/open/v1/habit"), body, token))
    }

    /// `POST /open/v1/habit/{habit_id}` with the habit as body.
    pub fn update_habit(&self, habit_id: &str, body: serde_json::Value, token: Option<String>) -> (r:
        Result<ApiRequest, TickTickError>)
        ensures
            r matches Ok(req) && body_request(
                req,
                HttpMethod::Post,
                self@,
                "/open/v1/habit/"@ + habit_id@,
                body,
                token,
            ),
    {
        Ok(self.body_request(HttpMethod::Post, concat("/open/v1/habit/", habit_id), body, token))
    }

    /// `POST /open/v1/habit/{habit_id}/checkin` with the check-in as body.
    pub fn check_in_habit(&self, habit_id: &str, body: serde_json::Value, token: Option<String>) -> (r:
        Result<ApiRequest, TickTickError>)
        ensures
            r matches Ok(req) && body_request(
                req,
                HttpMethod::Post,
                self@,
                "/open/v1/habit/"@ + habit_id@ + "/checkin"@,
                body,
                token,
            ),
    {
        Ok(
            self.body_request(
                HttpMethod::Post,
                concat3("/open/v1/habit/", habit_id, "/checkin"),
                body,
                token,
            ),
        )
    }

    /// `GET /open/v1/habit/checkins?habitIds={habit_ids}&from={from}&to={to}`.
    pub fn habit_checkins(&self, habit_ids: &str, from: i32, to: i32, token: Option<String>) -> (r:
        Result<ApiRequest, TickTickError>)
        ensures
            r matches Ok(req) && query_request(
                req,
                HttpMethod::Get,
                self@,
                "/open/v1/habit/checkins"@,
                seq![
                    ("habitIds"@, habit_ids@),
                    ("from"@, decimal(from as int)),
                    ("to"@, decimal(to as int)),
                ],
                token,
            ),
    {
        let mut req = self.request(
            HttpMethod::Get,
            String::from_str("/open/v1/habit/checkins"),
            token,
        );
        let mut query: Vec<(String, String)> = Vec::new();
        query.push(pair("habitIds", habit_ids));
        query.push((String::from_str("from"), i32_text(from)));
        query.push((String::from_str("to"), i32_text(to)));
        req.query = query;
        assert(pairs_view(req.query@) =~= seq![
            ("habitIds"@, habit_ids@),
            ("from"@, decimal(from as int)),
            ("to"@, decimal(to as int)),
        ]);
        Ok(req)
    }

    /// `POST /oauth/token` exchanging an authorization code: the form holds the
    /// code, `grant_type=authorization_code`, the scope and the redirect URI; the
    /// basic credentials are `client_id:client_secret`; an empty base URL is
    /// replaced by the default API base URL.
    pub fn oauth_exchange_code(
        &self,
        client_id: &str,
        client_secret: &str,
        code: &str,
        scope: &str,
        redirect_uri: &str,
    ) -> (r: Result<ApiRequest, TickTickError>)
        ensures
            r matches Ok(req) && exchange_shape(
                req,
                if self@.len() == 0 {
                    API_BASE_URL@
                } else {
                    self@
                },
                client_id@,
                client_secret@,
                code@,
                scope@,
                redirect_uri@,
            ) && req.token is None,
    {
        let mut form: Vec<(String, String)> = Vec::new();
        form.push(pair("code", code));
        form.push(pair("grant_type", "authorization_code"));
        form.push(pair("scope", scope));
        form.push(pair("redirect_uri", redirect_uri));
        let mut req = ApiRequest {
            method: HttpMethod::Post,
            base_url: self.base_url.clone(),
            path: String::from_str("/oauth/token"),
            query: Vec::new(),
            body: None,
            form,
            token: None,
            basic_auth: Some(concat3(client_id, ":", client_secret)),
        };
        if req.base_url.as_str().unicode_len() == 0 {
            req.base_url = String::from_str(API_BASE_URL);
        }
        assert(pairs_view(req.form@) =~= exchange_form(code@, scope@, redirect_uri@));
        Ok(req)
    }
}

} // verus!
