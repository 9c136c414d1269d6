//! Properties of the library as a whole, proved over the contracts of its functions.
use vstd::prelude::*;

use crate::api::{request_url_input, ApiRequest, HttpMethod};
use crate::args::{cli_fits, option_long, parse_outcome, scan, step, ScanView};
use crate::cli::{action_outcome, command_input, json_read, request_outcome, Action, Cli, Command, OAuthCommand};
use crate::config::{authorize_base, authorize_pairs, AuthUrlConfig, API_BASE_URL, OAUTH_BASE_URL};
use crate::decoding::{form_decode, url_query, url_query_read_back};
use crate::error::TickTickError;

verus! {

/// Trailing slashes of the base URL do not change the URL of a request: a request
/// whose base URL has one more `/` at its end is parsed from the same text, so
/// `ApiRequest::url` gives the same outcome for both.
pub proof fn url_ignores_trailing_slash(short: ApiRequest, long: ApiRequest)
    requires
        long.base_url@ == short.base_url@.push('/'),
        long.path@ == short.path@,
    ensures
        request_url_input(long) == request_url_input(short),
{
    assert(long.base_url@.drop_last() =~= short.base_url@);
}

/// The OAuth code exchange always goes to `https://ticktick.com/oauth/token` as a
/// POST, whatever `--base-url` says.
pub proof fn exchange_targets_oauth_host(cli: Cli, fetched: Option<String>, r: Result<Action, TickTickError>)
    requires
        cli.command matches Command::OAuth { command: OAuthCommand::Exchange { .. } },
        action_outcome(cli, fetched, r),
        r is Ok,
    ensures
        r matches Ok(Action::Api(req)) && req.base_url@ == OAUTH_BASE_URL@ && req.path@
            == "/oauth/token"@ && req.method == HttpMethod::Post,
{
}

/// A request of an API command carries the `--token` of the command line if one
/// was given, and otherwise the default token.
pub proof fn command_line_token_wins(
    cli: Cli,
    default_token: Option<String>,
    fetched: Option<String>,
    r: Result<crate::api::ApiRequest, TickTickError>,
)
    requires
        !(cli.command is OAuth),
        request_outcome(cli, default_token, fetched, r),
        r is Ok,
    ensures
        r matches Ok(req) && req.token == (if cli.token is Some {
            cli.token
        } else {
            default_token
        }),
{
}

/// An API command with no token on the command line and no default token is
/// refused for want of a token, before anything is sent, unless its JSON input is
/// at fault.
pub proof fn api_command_without_token_refused(
    cli: Cli,
    fetched: Option<String>,
    r: Result<crate::api::ApiRequest, TickTickError>,
)
    requires
        !(cli.command is OAuth),
        cli.token is None,
        request_outcome(cli, None, fetched, r),
        command_input(cli.command) matches Some(j) ==> json_read(j, fetched) is Ok,
    ensures
        r == Err::<crate::api::ApiRequest, TickTickError>(TickTickError::MissingAccessToken),
{
}

} // verus!

verus! {

/// Two requests that agree in everything but their tokens.
pub open spec fn same_but_token(a: ApiRequest, b: ApiRequest) -> bool {
    &&& a.method == b.method
    &&& a.base_url@ == b.base_url@
    &&& a.path@ == b.path@
    &&& crate::address::pairs_view(a.query@) == crate::address::pairs_view(b.query@)
    &&& a.body == b.body
    &&& crate::address::pairs_view(a.form@) == crate::address::pairs_view(b.form@)
    &&& crate::address::opt_view(a.basic_auth) == crate::address::opt_view(b.basic_auth)
}

/// `into_request` yields the request that `into_action` yields for the same
/// command line, with the default token filled in where that request carries none.
pub proof fn request_is_action_request(
    cli: Cli,
    default_token: Option<String>,
    fetched: Option<String>,
    a: Result<Action, TickTickError>,
    r: Result<ApiRequest, TickTickError>,
)
    requires
        action_outcome(cli, fetched, a),
        request_outcome(cli, default_token, fetched, r),
        a matches Ok(Action::Api(_)),
        r is Ok,
    ensures
        a matches Ok(Action::Api(ar)) && r matches Ok(rr) && same_but_token(ar, rr) && rr.token == (
        if ar.token is Some {
            ar.token
        } else {
            default_token
        }),
{
    let ar = a->Ok_0->Api_0;
    let rr = r->Ok_0;
    assert(crate::address::pairs_view(ar.query@) =~= crate::address::pairs_view(rr.query@));
    assert(crate::address::pairs_view(ar.form@) =~= crate::address::pairs_view(rr.form@));
}

} // verus!

verus! {

/// Whether `t` begins with `p`.
pub open spec fn begins_with(t: Seq<char>, p: Seq<char>) -> bool {
    p.len() <= t.len() && t.take(p.len() as int) == p
}


/// No argument after the program's name begins with `--` and the long name of option `o`.
pub open spec fn never_named(args: Seq<Seq<char>>, o: u8) -> bool {
    forall|i: int| 1 <= i < args.len() ==> !begins_with(#[trigger] args[i], "--"@ + option_long(o))
}

/// A step of the reading sets no option that its argument does not name.
proof fn lemma_step_keeps_slot(args: Seq<Seq<char>>, i: int, st: ScanView, o: u8)
    requires
        0 <= i < args.len(),
        (o as nat) < crate::args::option_count(),
        st.slots.len() == crate::args::option_count(),
        st.slots[o as int] is None,
        !begins_with(args[i], "--"@ + option_long(o)),
        step(args, i, st) is Ok,
    ensures
        step(args, i, st)->Ok_0.0.slots.len() == crate::args::option_count(),
        step(args, i, st)->Ok_0.0.slots[o as int] is None,
{
    let t = args[i];
    if !st.escaped && t.len() > 2 && t[0] == '-' && t[1] == '-' && t != "--"@ {
        let body = t.skip(2);
        let (name, inline) = crate::args::split_long(body);
        if crate::args::option_named(name) == Some(o) {
            assert(name == option_long(o));
            let p = "--"@ + option_long(o);
            reveal_strlit("--");
            crate::args::lemma_first_eq_bound(body);
            assert(name.len() <= body.len());
            assert(t.take(p.len() as int) =~= p) by {
                match crate::args::first_eq(body) {
                    Some(k) => {
                        assert(name =~= body.take(k as int));
                    },
                    None => {},
                }
                assert forall|j: int| 0 <= j < p.len() implies t.take(p.len() as int)[j] == p[j] by {
                    if j >= 2 {
                        assert(t[j] == body[j - 2]);
                        assert(body[j - 2] == name[j - 2]);
                    }
                }
            }
            assert(begins_with(t, p));
        }
    }
}

/// The reading from position `i` on sets no option that no argument names.
proof fn lemma_scan_keeps_slot(args: Seq<Seq<char>>, i: int, st: ScanView, o: u8)
    requires
        1 <= i,
        (o as nat) < crate::args::option_count(),
        st.slots.len() == crate::args::option_count(),
        st.slots[o as int] is None,
        never_named(args, o),
        scan(args, i, st) is Ok,
    ensures
        scan(args, i, st)->Ok_0.slots[o as int] is None,
    decreases args.len() - i,
{
    if i < args.len() {
        lemma_step_keeps_slot(args, i, st, o);
        let (next, j) = step(args, i, st)->Ok_0;
        if j > i {
            lemma_scan_keeps_slot(args, j, next, o);
        }
    }
}

/// Where no argument gives `--token`, `--client-id`, `--client-secret` or
/// `--base-url`, the command line takes the environment's value for it (the
/// default for the base URL).
pub proof fn absent_options_take_environment(
    args: Seq<Seq<char>>,
    env: (bool, bool, bool),
    st: ScanView,
    cli: Cli,
    env_token: Option<String>,
    env_client_id: Option<String>,
    env_client_secret: Option<String>,
)
    requires
        parse_outcome(args, env) == Ok::<ScanView, crate::args::CliFailure>(st),
        cli_fits(cli, st, env_token, env_client_id, env_client_secret),
    ensures
        never_named(args, 0) ==> cli.token == env_token,
        never_named(args, 1) ==> cli.client_id == env_client_id,
        never_named(args, 2) ==> cli.client_secret == env_client_secret,
        never_named(args, 3) ==> cli.base_url@ == API_BASE_URL@,
{
    let st0 = crate::args::initial_scan();
    assert(scan(args, 1, st0) == Ok::<ScanView, crate::args::CliFailure>(st));
    if never_named(args, 0) {
        lemma_scan_keeps_slot(args, 1, st0, 0);
    }
    if never_named(args, 1) {
        lemma_scan_keeps_slot(args, 1, st0, 1);
    }
    if never_named(args, 2) {
        lemma_scan_keeps_slot(args, 1, st0, 2);
    }
    if never_named(args, 3) {
        lemma_scan_keeps_slot(args, 1, st0, 3);
    }
}

/// The URL of a request (`ApiRequest::url`, whose text is `url_text` of the parsed
/// base and path) carries its query behind `?`; reading that query back gives the
/// query the base URL and path held (if any), then the request's query pairs, in
/// order and with repeats. With no query pairs the parsed query is kept as it is.
pub proof fn request_url_query_reads_back(req: ApiRequest, parts: crate::address::UrlPartsView)
    requires
        crate::address::url_parsed(request_url_input(req)) == Ok::<
            crate::address::UrlPartsView,
            url::ParseError,
        >(parts),
    ensures
        crate::address::url_text(parts, crate::address::pairs_view(req.query@)) == parts.0
            + crate::address::marked('?', url_query(parts, crate::address::pairs_view(req.query@)))
            + crate::address::marked('#', parts.2),
        req.query@.len() > 0 ==> (url_query(parts, crate::address::pairs_view(req.query@)) matches Some(q)
            && form_decode(q) == match parts.1 {
            Some(q0) => form_decode(q0),
            None => Seq::<(Seq<char>, Seq<char>)>::empty(),
        } + crate::address::pairs_view(req.query@)),
        req.query@.len() == 0 ==> url_query(parts, crate::address::pairs_view(req.query@)) == parts.1,
{
    url_query_read_back(parts, crate::address::pairs_view(req.query@));
}

/// The authorize URL (`AuthUrlConfig::build_url`) carries its query behind `?`;
/// reading it back gives `client_id`, `scope`, `state`, `redirect_uri` and
/// `response_type=code` with the configured values, in order, after whatever query
/// the parsed base held, whatever characters the values hold.
pub proof fn authorize_url_query_reads_back(cfg: AuthUrlConfig, parts: crate::address::UrlPartsView)
    requires
        crate::address::url_parsed(authorize_base()) == Ok::<crate::address::UrlPartsView, url::ParseError>(
            parts,
        ),
    ensures
        crate::address::url_text(parts, authorize_pairs(cfg)) == parts.0 + crate::address::marked(
            '?',
            url_query(parts, authorize_pairs(cfg)),
        ) + crate::address::marked('#', parts.2),
        url_query(parts, authorize_pairs(cfg)) matches Some(q) && form_decode(q) == match parts.1 {
            Some(q0) => form_decode(q0),
            None => Seq::<(Seq<char>, Seq<char>)>::empty(),
        } + seq![
            ("client_id"@, cfg.client_id@),
            ("scope"@, cfg.scope@),
            ("state"@, cfg.state@),
            ("redirect_uri"@, cfg.redirect_uri@),
            ("response_type"@, "code"@),
        ],
        authorize_base() == "https://ticktick.com/oauth/authorize"@,
{
    assert(authorize_base() =~= "https://ticktick.com/oauth/authorize"@) by {
        reveal_strlit("https://ticktick.com");
        reveal_strlit("/oauth/authorize");
        reveal_strlit("https://ticktick.com/oauth/authorize");
    }
    url_query_read_back(parts, authorize_pairs(cfg));
}

/// The authorize command prints the same outcome whatever the client secret.
pub proof fn authorize_ignores_client_secret(
    client_id: Option<String>,
    secret_a: Option<String>,
    secret_b: Option<String>,
    command: OAuthCommand,
    r: Result<Action, TickTickError>,
)
    requires
        command is Authorize,
    ensures
        crate::cli::oauth_outcome(client_id, secret_a, command, r) == crate::cli::oauth_outcome(
            client_id,
            secret_b,
            command,
            r,
        ),
{
}

/// The authorize command, given a client id, prints `{"authorize_url": url}`,
/// where the URL carries `client_id`, `scope`, `state`, `redirect_uri` and
/// `response_type=code` from the command's own fields, each under its own name.
pub proof fn authorize_prints_its_fields(
    client_id: Option<String>,
    client_secret: Option<String>,
    command: OAuthCommand,
    r: Result<Action, TickTickError>,
    parts: crate::address::UrlPartsView,
)
    requires
        command is Authorize,
        client_id is Some,
        crate::address::url_parsed("https://ticktick.com/oauth/authorize"@) == Ok::<
            crate::address::UrlPartsView,
            url::ParseError,
        >(parts),
        crate::cli::oauth_outcome(client_id, client_secret, command, r),
    ensures
        match command {
            OAuthCommand::Authorize { scope, state, redirect_uri } => r == Ok::<Action, TickTickError>(
                Action::PrintJson(
                    crate::json::json_string_member(
                        "authorize_url"@,
                        crate::address::url_text(
                            parts,
                            seq![
                                ("client_id"@, client_id->0@),
                                ("scope"@, scope@),
                                ("state"@, state@),
                                ("redirect_uri"@, redirect_uri@),
                                ("response_type"@, "code"@),
                            ],
                        ),
                    ),
                ),
            ),
            _ => true,
        },
{
    assert(authorize_base() =~= "https://ticktick.com/oauth/authorize"@) by {
        reveal_strlit("https://ticktick.com");
        reveal_strlit("/oauth/authorize");
        reveal_strlit("https://ticktick.com/oauth/authorize");
    }
    match command {
        OAuthCommand::Authorize { scope, state, redirect_uri } => {
            let cfg = AuthUrlConfig { client_id: client_id->0, scope, state, redirect_uri };
            assert(authorize_pairs(cfg) =~= seq![
                ("client_id"@, client_id->0@),
                ("scope"@, scope@),
                ("state"@, state@),
                ("redirect_uri"@, redirect_uri@),
                ("response_type"@, "code"@),
            ]);
        },
        _ => {},
    }
}

/// Where the command line leaves `--base-url` out, requests go to
/// `https://api.ticktick.com`; where it leaves `--scope` out, the OAuth commands
/// use the scope `tasks:read tasks:write`.
pub proof fn defaults_when_left_out(
    args: Seq<Seq<char>>,
    env: (bool, bool, bool),
    st: ScanView,
    cli: Cli,
    env_token: Option<String>,
    env_client_id: Option<String>,
    env_client_secret: Option<String>,
)
    requires
        parse_outcome(args, env) == Ok::<ScanView, crate::args::CliFailure>(st),
        cli_fits(cli, st, env_token, env_client_id, env_client_secret),
    ensures
        never_named(args, 3) ==> cli.base_url@ == "https://api.ticktick.com"@,
        never_named(args, 4) ==> match cli.command {
            Command::OAuth { command: OAuthCommand::Authorize { scope, .. } } => scope@
                == "tasks:read tasks:write"@,
            Command::OAuth { command: OAuthCommand::Exchange { scope, .. } } => scope@
                == "tasks:read tasks:write"@,
            _ => true,
        },
{
    let st0 = crate::args::initial_scan();
    assert(scan(args, 1, st0) == Ok::<ScanView, crate::args::CliFailure>(st));
    if never_named(args, 3) {
        lemma_scan_keeps_slot(args, 1, st0, 3);
    }
    if never_named(args, 4) {
        lemma_scan_keeps_slot(args, 1, st0, 4);
    }
}

/// Where a JSON body comes from: more than one of `--json`, `--json-file` and
/// `--json-stdin` is refused as a conflict; `--json` alone is decoded from its
/// text; `--json-file` or `--json-stdin` alone is decoded from the text read for
/// it; none is refused as missing input.
pub proof fn json_input_comes_from_one_source(j: crate::cli::JsonInput, fetched: Option<String>)
    ensures
        ((j.json is Some && j.json_file is Some) || (j.json is Some && j.json_stdin) || (
        j.json_file is Some && j.json_stdin)) ==> json_read(j, fetched) == Err::<
            serde_json::Value,
            TickTickError,
        >(TickTickError::ConflictingJsonInput),
        (j.json is Some && j.json_file is None && !j.json_stdin) ==> json_read(j, fetched)
            == match crate::json::json_decoded(j.json->0@) {
            Ok(v) => Ok::<serde_json::Value, TickTickError>(v),
            Err(e) => Err(TickTickError::InvalidJson(e)),
        },
        (j.json is None && (j.json_file is Some != j.json_stdin) && fetched is Some) ==> json_read(
            j,
            fetched,
        ) == match crate::json::json_decoded(fetched->0@) {
            Ok(v) => Ok::<serde_json::Value, TickTickError>(v),
            Err(e) => Err(TickTickError::InvalidJson(e)),
        },
        (j.json is None && j.json_file is None && !j.json_stdin) ==> json_read(j, fetched) == Err::<
            serde_json::Value,
            TickTickError,
        >(TickTickError::MissingJsonInput),
{
}

/// An answer counts as a success exactly for the statuses 200 to 299.
pub proof fn success_is_two_hundreds(status: u16)
    ensures
        crate::http::is_success(status) <==> (200 <= status && status <= 299),
{
}

/// A global option given on the command line wins over the environment: two
/// readings of the same arguments with different environment values agree on
/// it, and it is the value given.
pub proof fn command_line_beats_environment(
    st: ScanView,
    a: Cli,
    b: Cli,
    env_a: (Option<String>, Option<String>, Option<String>),
    env_b: (Option<String>, Option<String>, Option<String>),
)
    requires
        cli_fits(a, st, env_a.0, env_a.1, env_a.2),
        cli_fits(b, st, env_b.0, env_b.1, env_b.2),
    ensures
        st.slots[0] is Some ==> crate::address::opt_view(a.token) == st.slots[0]
            && crate::address::opt_view(b.token) == st.slots[0],
        st.slots[1] is Some ==> crate::address::opt_view(a.client_id) == st.slots[1]
            && crate::address::opt_view(b.client_id) == st.slots[1],
        st.slots[2] is Some ==> crate::address::opt_view(a.client_secret) == st.slots[2]
            && crate::address::opt_view(b.client_secret) == st.slots[2],
{
}

} // verus!
