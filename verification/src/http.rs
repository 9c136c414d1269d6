//! What goes on the wire for a request (headers and payload), and what an
//! answer of the API means.
use vstd::prelude::*;
use vstd::string::*;
use vstd::utf8::encode_utf8;

use base64::Engine;

use crate::address::{extended_query, pairs_view};
use crate::api::ApiRequest;
use crate::error::TickTickError;
use crate::json::{decode_json, json_decoded};

verus! {

/// The character of a 6-bit value in the standard base64 alphabet.
pub open spec fn base64_char(x: int) -> char {
    if x < 26 {
        ((x + 0x41) as u8) as char
    } else if x < 52 {
        ((x - 26 + 0x61) as u8) as char
    } else if x < 62 {
        ((x - 52 + 0x30) as u8) as char
    } else if x == 62 {
        '+'
    } else {
        '/'
    }
}

/// Standard base64 with `=` padding: each three bytes become four characters.
pub open spec fn base64_encode(b: Seq<u8>) -> Seq<char>
    decreases b.len(),
{
    if b.len() == 0 {
        seq![]
    } else if b.len() == 1 {
        seq![base64_char(b[0] as int / 4), base64_char((b[0] as int % 4) * 16), '=', '=']
    } else if b.len() == 2 {
        seq![
            base64_char(b[0] as int / 4),
            base64_char((b[0] as int % 4) * 16 + b[1] as int / 16),
            base64_char((b[1] as int % 16) * 4),
            '=',
        ]
    } else {
        seq![
            base64_char(b[0] as int / 4),
            base64_char((b[0] as int % 4) * 16 + b[1] as int / 16),
            base64_char((b[1] as int % 16) * 4 + b[2] as int / 64),
            base64_char(b[2] as int % 64),
        ] + base64_encode(b.skip(3))
    }
}

/// Encodes the UTF-8 bytes of `s` with `base64::engine::general_purpose::STANDARD`.
/// Claimed: standard alphabet with padding, as `base64_encode` states.
#[verifier::external_body]
pub(crate) fn base64_text(s: &str) -> (r: String)
    ensures
        r@ == base64_encode(encode_utf8(s@)),
{
    base64::engine::general_purpose::STANDARD.encode(s)
}

/// The compact text that `serde_json::to_vec` (and so `to_string`) renders for `value`.
pub uninterp spec fn json_compact(value: serde_json::Value) -> Seq<char>;

/// Renders a value compactly with `serde_json::to_string`, the rendering
/// `RequestBuilder::json` sends. Claimed: the text is `json_compact(value)`; the
/// call cannot fail on a `Value` (see `pretty_json`), so a failure is not expected
/// and would leave the text empty.
#[verifier::external_body]
pub(crate) fn compact_json(value: &serde_json::Value) -> (r: String)
    ensures
        r@ == json_compact(*value),
{
    serde_json::to_string(value).unwrap_or_default()
}

/// Whether `c` has the Unicode `White_Space` property.
pub open spec fn is_white_space(c: char) -> bool {
    ('\u{9}' <= c <= '\u{d}') || c == ' ' || c == '\u{85}' || c == '\u{a0}' || c == '\u{1680}' || (
    '\u{2000}' <= c <= '\u{200a}') || c == '\u{2028}' || c == '\u{2029}' || c == '\u{202f}' || c
        == '\u{205f}' || c == '\u{3000}'
}

/// `s` without leading white space.
pub open spec fn trim_start_white(s: Seq<char>) -> Seq<char>
    decreases s.len(),
{
    if s.len() > 0 && is_white_space(s[0]) {
        trim_start_white(s.drop_first())
    } else {
        s
    }
}

/// `s` without trailing white space.
pub open spec fn trim_end_white(s: Seq<char>) -> Seq<char>
    decreases s.len(),
{
    if s.len() > 0 && is_white_space(s.last()) {
        trim_end_white(s.drop_last())
    } else {
        s
    }
}

/// `s` without leading and trailing white space.
pub open spec fn trim_white(s: Seq<char>) -> Seq<char> {
    trim_end_white(trim_start_white(s))
}

fn white(c: char) -> (r: bool)
    ensures
        r == is_white_space(c),
{
    ('\u{9}' <= c && c <= '\u{d}') || c == ' ' || c == '\u{85}' || c == '\u{a0}' || c == '\u{1680}'
        || ('\u{2000}' <= c && c <= '\u{200a}') || c == '\u{2028}' || c == '\u{2029}' || c
        == '\u{202f}' || c == '\u{205f}' || c == '\u{3000}'
}

proof fn lemma_trim_start(s: Seq<char>, i: int)
    requires
        0 <= i <= s.len(),
        forall|j: int| 0 <= j < i ==> is_white_space(s[j]),
        i < s.len() ==> !is_white_space(s[i]),
    ensures
        trim_start_white(s) == s.skip(i),
    decreases i,
{
    if i > 0 {
        lemma_trim_start(s.drop_first(), i - 1);
        assert(s.drop_first().skip(i - 1) =~= s.skip(i));
    } else {
        assert(s.skip(0) =~= s);
    }
}

proof fn lemma_trim_end(s: Seq<char>, k: int)
    requires
        0 <= k <= s.len(),
        forall|j: int| k <= j < s.len() ==> is_white_space(s[j]),
        k > 0 ==> !is_white_space(s[k - 1]),
    ensures
        trim_end_white(s) == s.take(k),
    decreases s.len() - k,
{
    if k < s.len() {
        lemma_trim_end(s.drop_last(), k);
        assert(s.drop_last().take(k) =~= s.take(k));
    } else {
        assert(s.take(k) =~= s);
    }
}

/// The text without leading and trailing `White_Space` characters, as `str::trim`.
pub(crate) fn trimmed<'a>(s: &'a str) -> (r: &'a str)
    ensures
        r@ == trim_white(s@),
{
    let n = s.unicode_len();
    let mut i: usize = 0;
    while i < n && white(s.get_char(i))
        invariant
            i <= n,
            n == s@.len(),
            forall|j: int| 0 <= j < i ==> is_white_space(s@[j]),
        decreases n - i,
    {
        i = i + 1;
    }
    let mut k: usize = n;
    while k > i && white(s.get_char(k - 1))
        invariant
            i <= k <= n,
            n == s@.len(),
            forall|j: int| k <= j < n ==> is_white_space(s@[j]),
        decreases k,
    {
        k = k - 1;
    }
    proof {
        lemma_trim_start(s@, i as int);
        let t = s@.skip(i as int);
        lemma_trim_end(t, (k - i) as int);
        assert(t.take((k - i) as int) =~= s@.subrange(i as int, k as int));
    }
    s.substring_char(i, k)
}

/// The headers of a request, in the order they are added: `accept`, then the
/// bearer token and the basic credentials where present, then the content type
/// of a JSON body and of a form.
pub open spec fn request_headers(req: ApiRequest) -> Seq<(Seq<char>, Seq<char>)> {
    seq![("accept"@, "application/json"@)] + match req.token {
        Some(t) => seq![("authorization"@, "Bearer "@ + t@)],
        None => seq![],
    } + match req.basic_auth {
        Some(c) => seq![("authorization"@, "Basic "@ + base64_encode(encode_utf8(c@)))],
        None => seq![],
    } + match req.body {
        Some(_) => seq![("content-type"@, "application/json"@)],
        None => seq![],
    } + if req.form@.len() > 0 {
        seq![("content-type"@, "application/x-www-form-urlencoded"@)]
    } else {
        seq![]
    }
}

/// The payload of a request: the form, urlencoded, if there is one; otherwise the
/// JSON body, compact; otherwise nothing.
pub open spec fn request_payload(req: ApiRequest) -> Option<Seq<char>> {
    if req.form@.len() > 0 {
        Some(extended_query(seq![], pairs_view(req.form@)))
    } else {
        match req.body {
            Some(v) => Some(json_compact(v)),
            None => None,
        }
    }
}

fn header(name: &str, value: String) -> (r: (String, String))
    ensures
        r.0@ == name@,
        r.1@ == value@,
{
    (String::from_str(name), value)
}

impl ApiRequest {
    /// This request, if it carries a bearer token or basic credentials; otherwise
    /// the refusal for want of a token, before anything is sent.
    pub fn require_credentials(self) -> (r: Result<ApiRequest, TickTickError>)
        ensures
            r == (if self.token is None && self.basic_auth is None {
                Err::<ApiRequest, TickTickError>(TickTickError::MissingAccessToken)
            } else {
                Ok(self)
            }),
    {
        if self.token.is_none() && self.basic_auth.is_none() {
            return Err(TickTickError::MissingAccessToken);
        }
        Ok(self)
    }

    /// The headers this request is sent with.
    pub fn headers(&self) -> (r: Vec<(String, String)>)
        ensures
            pairs_view(r@) == request_headers(*self),
    {
        let mut r: Vec<(String, String)> = Vec::new();
        r.push(header("accept", String::from_str("application/json")));
        let ghost h1 = pairs_view(r@);
        if let Some(token) = &self.token {
            r.push(header("authorization", crate::text::concat("Bearer ", token.as_str())));
        }
        let ghost h2 = pairs_view(r@);
        if let Some(creds) = &self.basic_auth {
            let encoded = base64_text(creds.as_str());
            r.push(header("authorization", crate::text::concat("Basic ", encoded.as_str())));
        }
        let ghost h3 = pairs_view(r@);
        if self.body.is_some() {
            r.push(header("content-type", String::from_str("application/json")));
        }
        let ghost h4 = pairs_view(r@);
        if self.form.len() > 0 {
            r.push(
                header("content-type", String::from_str("application/x-www-form-urlencoded")),
            );
        }
        proof {
            assert(h1 =~= seq![("accept"@, "application/json"@)]);
            assert(h2 =~= h1 + match self.token {
                Some(t) => seq![("authorization"@, "Bearer "@ + t@)],
                None => seq![],
            });
            assert(h3 =~= h2 + match self.basic_auth {
                Some(c) => seq![("authorization"@, "Basic "@ + base64_encode(encode_utf8(c@)))],
                None => seq![],
            });
            assert(h4 =~= h3 + match self.body {
                Some(_) => seq![("content-type"@, "application/json"@)],
                None => seq![],
            });
            assert(pairs_view(r@) =~= h4 + if self.form@.len() > 0 {
                seq![("content-type"@, "application/x-www-form-urlencoded"@)]
            } else {
                seq![]
            });
        }
        r
    }

    /// The payload this request is sent with.
    pub fn payload(&self) -> (r: Option<String>)
        ensures
            crate::address::opt_view(r) == request_payload(*self),
    {
        if self.form.len() > 0 {
            let query = crate::address::append_query_pairs(String::new(), &self.form);
            Some(query)
        } else {
            match &self.body {
                Some(v) => Some(compact_json(v)),
                None => None,
            }
        }
    }
}

/// What the body of a successful answer holds.
#[derive(Debug)]
pub enum ResponseBody {
    /// Nothing but white space.
    Null,
    /// JSON.
    Json(serde_json::Value),
    /// Text that is not JSON.
    Text(String),
}

/// Whether an HTTP status is a success (200 to 299).
pub open spec fn is_success(status: u16) -> bool {
    200 <= status < 300
}

/// The meaning of an answer: an error for a status outside 200 to 299; for a
/// success, nothing if the body is blank, the JSON it holds, or else its text.
pub fn interpret_response(status: u16, text: String) -> (r: Result<ResponseBody, TickTickError>)
    ensures
        !is_success(status) ==> r == Err::<ResponseBody, TickTickError>(
            TickTickError::ApiStatus { status, body: text },
        ),
        is_success(status) ==> (if trim_white(text@).len() == 0 {
            r == Ok::<ResponseBody, TickTickError>(ResponseBody::Null)
        } else {
            match json_decoded(text@) {
                Ok(v) => r == Ok::<ResponseBody, TickTickError>(ResponseBody::Json(v)),
                Err(_) => r == Ok::<ResponseBody, TickTickError>(ResponseBody::Text(text)),
            }
        }),
{
    if !(200 <= status && status < 300) {
        return Err(TickTickError::ApiStatus { status, body: text });
    }
    if trimmed(text.as_str()).is_empty() {
        return Ok(ResponseBody::Null);
    }
    match decode_json(text.as_str()) {
        Ok(v) => Ok(ResponseBody::Json(v)),
        Err(_) => Ok(ResponseBody::Text(text)),
    }
}

} // verus!
