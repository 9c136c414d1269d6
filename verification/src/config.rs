//! Base URLs and the OAuth authorize URL.
use vstd::prelude::*;
use vstd::string::*;

use crate::address::{parse_url, url_from_parts, url_parsed, url_text};
use crate::error::TickTickError;

verus! {

/// The default base URL of the Open API.
pub const API_BASE_URL: &'static str = "https://api.ticktick.com";

/// The base URL of the OAuth endpoints.
pub const OAUTH_BASE_URL: &'static str = "https://ticktick.com";

} // verus!

verus! {

/// The parameters of the OAuth authorize step.
#[derive(Debug, Clone, PartialEq, Eq)]
pub struct AuthUrlConfig {
    pub client_id: String,
    pub scope: String,
    pub state: String,
    pub redirect_uri: String,
}

/// The text the authorize URL is parsed from.
pub open spec fn authorize_base() -> Seq<char> {
    OAUTH_BASE_URL@ + "/oauth/authorize"@
}

/// The query pairs of the authorize URL, in order.
pub open spec fn authorize_pairs(cfg: AuthUrlConfig) -> Seq<(Seq<char>, Seq<char>)> {
    seq![
        ("client_id"@, cfg.client_id@),
        ("scope"@, cfg.scope@),
        ("state"@, cfg.state@),
        ("redirect_uri"@, cfg.redirect_uri@),
        ("response_type"@, "code"@),
    ]
}

impl AuthUrlConfig {
    /// The authorize URL: `https://ticktick.com/oauth/authorize` with the client id,
    /// scope, state, redirect URI and `response_type=code` as query pairs.
    pub fn build_url(&self) -> (r: Result<String, TickTickError>)
        ensures
            match url_parsed(authorize_base()) {
                Ok(parts) => r matches Ok(u) && u@ == url_text(parts, authorize_pairs(*self)),
                Err(e) => r == Err::<String, TickTickError>(TickTickError::Url(e)),
            },
    {
        let base = crate::text::concat(OAUTH_BASE_URL, "/oauth/authorize");
        match parse_url(base.as_str()) {
            Ok(parts) => {
                let mut pairs: Vec<(String, String)> = Vec::new();
                pairs.push((String::from_str("client_id"), self.client_id.clone()));
                pairs.push((String::from_str("scope"), self.scope.clone()));
                pairs.push((String::from_str("state"), self.state.clone()));
                pairs.push((String::from_str("redirect_uri"), self.redirect_uri.clone()));
                pairs.push((String::from_str("response_type"), String::from_str("code")));
                let u = url_from_parts(&parts, &pairs);
                assert(crate::address::pairs_view(pairs@) =~= authorize_pairs(*self));
                Ok(u)
            },
            Err(e) => Err(TickTickError::Url(e)),
        }
    }
}

} // verus!
