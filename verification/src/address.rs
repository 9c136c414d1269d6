//! URLs: parsing through the `url` crate, and the query-string serialization
//! that `Url::query_pairs_mut` performs, stated over plain text.
use vstd::prelude::*;
use vstd::string::*;
use vstd::utf8::encode_utf8;

verus! {

/// Whether the `application/x-www-form-urlencoded` byte serializer keeps byte `b` as it is:
/// `*`, `-`, `.`, `_`, ASCII digits and ASCII letters.
pub open spec fn form_byte_unchanged(b: u8) -> bool {
    b == 0x2a || b == 0x2d || b == 0x2e || b == 0x5f || (0x30 <= b <= 0x39) || (0x41 <= b <= 0x5a)
        || (0x61 <= b <= 0x7a)
}

/// The upper-case hexadecimal digit for `d` (0 to 15).
pub open spec fn hex_digit(d: u8) -> char {
    if d < 10 {
        ((d + 0x30) as u8) as char
    } else {
        ((d - 10 + 0x41) as u8) as char
    }
}

/// The serialization of one byte: itself, `+` for a space, otherwise `%` and two upper-case hex digits.
pub open spec fn form_byte(b: u8) -> Seq<char> {
    if form_byte_unchanged(b) {
        seq![b as char]
    } else if b == 0x20 {
        seq!['+']
    } else {
        seq!['%', hex_digit(b / 16), hex_digit(b % 16)]
    }
}

/// The byte serializer applied to a sequence of bytes.
pub open spec fn form_bytes(bytes: Seq<u8>) -> Seq<char>
    decreases bytes.len(),
{
    if bytes.len() == 0 {
        seq![]
    } else {
        form_byte(bytes[0]) + form_bytes(bytes.drop_first())
    }
}

/// A text in `application/x-www-form-urlencoded` form: its UTF-8 bytes, serialized.
pub open spec fn form_urlencoded(s: Seq<char>) -> Seq<char> {
    form_bytes(encode_utf8(s))
}

/// One serialized pair: `name=value`, both encoded.
pub open spec fn form_pair(p: (Seq<char>, Seq<char>)) -> Seq<char> {
    form_urlencoded(p.0) + seq!['='] + form_urlencoded(p.1)
}

/// Texts joined with `&`.
pub open spec fn amp_join(items: Seq<Seq<char>>) -> Seq<char>
    decreases items.len(),
{
    if items.len() == 0 {
        seq![]
    } else if items.len() == 1 {
        items[0]
    } else {
        amp_join(items.drop_last()) + seq!['&'] + items.last()
    }
}

/// A query string `existing` with `pairs` appended, in order, separated by `&`.
pub open spec fn extended_query(existing: Seq<char>, pairs: Seq<(Seq<char>, Seq<char>)>) -> Seq<char> {
    let encoded = amp_join(pairs.map_values(|p: (Seq<char>, Seq<char>)| form_pair(p)));
    if pairs.len() == 0 {
        existing
    } else if existing.len() == 0 {
        encoded
    } else {
        existing + seq!['&'] + encoded
    }
}

/// `mark` followed by the text, or nothing.
pub open spec fn marked(mark: char, part: Option<Seq<char>>) -> Seq<char> {
    match part {
        Some(t) => seq![mark] + t,
        None => seq![],
    }
}

/// A parsed URL split at its query and fragment: the text before `?`, the query
/// (without `?`) and the fragment (without `#`).
pub type UrlPartsView = (Seq<char>, Option<Seq<char>>, Option<Seq<char>>);

/// The text of a URL with `pairs` appended to its query. With no pairs the URL is
/// left as it is; otherwise the query is created if absent and the pairs are
/// appended to it, and the fragment keeps its place at the end.
pub open spec fn url_text(parts: UrlPartsView, pairs: Seq<(Seq<char>, Seq<char>)>) -> Seq<char> {
    let query_part = if pairs.len() == 0 {
        marked('?', parts.1)
    } else {
        seq!['?'] + extended_query(
            match parts.1 {
                Some(q) => q,
                None => seq![],
            },
            pairs,
        )
    };
    parts.0 + query_part + marked('#', parts.2)
}

/// The views of name/value pairs of strings.
pub open spec fn pairs_view(v: Seq<(String, String)>) -> Seq<(Seq<char>, Seq<char>)> {
    v.map_values(|p: (String, String)| (p.0@, p.1@))
}

/// The view of an optional string.
pub open spec fn opt_view(o: Option<String>) -> Option<Seq<char>> {
    match o {
        Some(s) => Some(s@),
        None => None,
    }
}

/// A URL as the `url` crate parsed it, split at its query and fragment. The
/// serialization of the URL is `before_query`, then `?` and the query if there is
/// one, then `#` and the fragment if there is one.
pub struct UrlParts {
    pub before_query: String,
    pub query: Option<String>,
    pub fragment: Option<String>,
}

impl View for UrlParts {
    type V = UrlPartsView;

    open spec fn view(&self) -> UrlPartsView {
        (self.before_query@, opt_view(self.query), opt_view(self.fragment))
    }
}

/// What `url::Url::parse` makes of `input`: the parts of the parsed URL, or the error.
pub uninterp spec fn url_parsed(input: Seq<char>) -> Result<UrlPartsView, url::ParseError>;

/// Parses `input` with `url::Url::parse` and splits the result with
/// `Index<RangeTo<Position>>` at `Position::AfterPath`, `Url::query` and `Url::fragment`.
/// Claimed: the outcome is `url_parsed(input)`, a function of the text alone.
#[verifier::external_body]
pub(crate) fn parse_url(input: &str) -> (r: Result<UrlParts, url::ParseError>)
    ensures
        match r {
            Ok(p) => url_parsed(input@) == Ok::<UrlPartsView, url::ParseError>(p@),
            Err(e) => url_parsed(input@) == Err::<UrlPartsView, url::ParseError>(e),
        },
{
    match url::Url::parse(input) {
        Ok(u) => Ok(UrlParts {
            before_query: u[..url::Position::AfterPath].to_string(),
            query: u.query().map(|q| q.to_string()),
            fragment: u.fragment().map(|f| f.to_string()),
        }),
        Err(e) => Err(e),
    }
}

/// Appends one pair with `url::form_urlencoded::Serializer::append_pair` to a query
/// string (a serializer over the whole string, started at its beginning).
/// Claimed, as the crate's source shows: a `&` if the string is not empty, then
/// the byte-serialized UTF-8 of the name, `=`, and that of the value.
#[verifier::external_body]
pub(crate) fn form_append_pair(query: String, name: &str, value: &str) -> (r: String)
    ensures
        r@ == query@ + (if query@.len() > 0 {
            seq!['&']
        } else {
            seq![]
        }) + form_pair((name@, value@)),
{
    let mut serializer = url::form_urlencoded::Serializer::new(query);
    serializer.append_pair(name, value);
    serializer.finish()
}

proof fn lemma_extended_query_step(
    existing: Seq<char>,
    pairs: Seq<(Seq<char>, Seq<char>)>,
    i: int,
)
    requires
        0 <= i < pairs.len(),
    ensures
        extended_query(existing, pairs.take(i + 1)) == extended_query(existing, pairs.take(i)) + (
        if extended_query(existing, pairs.take(i)).len() > 0 {
            seq!['&']
        } else {
            seq![]
        }) + form_pair(pairs[i]),
{
    let f = |p: (Seq<char>, Seq<char>)| form_pair(p);
    let m1 = pairs.take(i + 1).map_values(f);
    let m0 = pairs.take(i).map_values(f);
    assert(m1.drop_last() =~= m0);
    assert(m1.last() == form_pair(pairs[i]));
    if i > 0 {
        assert(m0.len() == i);
        lemma_amp_join_nonempty(m0);
    }
}

proof fn lemma_amp_join_nonempty(items: Seq<Seq<char>>)
    requires
        items.len() > 0,
        forall|j: int| 0 <= j < items.len() ==> (#[trigger] items[j]).len() > 0,
    ensures
        amp_join(items).len() > 0,
    decreases items.len(),
{
}

/// A query string with `pairs` appended in order, each as `name=value` encoded,
/// separated by `&`: the serialization `form_urlencoded::Serializer` produces.
pub fn append_query_pairs(query: String, pairs: &Vec<(String, String)>) -> (r: String)
    ensures
        r@ == extended_query(query@, pairs_view(pairs@)),
{
    let ghost pv = pairs_view(pairs@);
    let ghost existing = query@;
    let mut query = query;
    let mut i: usize = 0;
    assert(pv.take(0) =~= Seq::<(Seq<char>, Seq<char>)>::empty());
    while i < pairs.len()
        invariant
            0 <= i <= pairs@.len(),
            pv == pairs_view(pairs@),
            pv.len() == pairs@.len(),
            query@ == extended_query(existing, pv.take(i as int)),
        decreases pairs@.len() - i,
    {
        proof {
            lemma_extended_query_step(existing, pv, i as int);
        }
        let pair = &pairs[i];
        assert(pv[i as int] == (pair.0@, pair.1@));
        query = form_append_pair(query, pair.0.as_str(), pair.1.as_str());
        i = i + 1;
    }
    assert(pv.take(pairs@.len() as int) =~= pv);
    query
}

/// The text of the URL `parts` with `pairs` appended to its query, as
/// `Url::query_pairs_mut` appends them; with no pairs, the URL unchanged.
pub fn url_from_parts(parts: &UrlParts, pairs: &Vec<(String, String)>) -> (r: String)
    ensures
        r@ == url_text(parts@, pairs_view(pairs@)),
{
    let mut out = String::from_str(parts.before_query.as_str());
    if pairs.len() == 0 {
        match &parts.query {
            Some(q) => {
                out.append("?");
                out.append(q.as_str());
            },
            None => {},
        }
    } else {
        let query = match &parts.query {
            Some(q) => q.clone(),
            None => String::new(),
        };
        let query = append_query_pairs(query, pairs);
        out.append("?");
        out.append(query.as_str());
    }
    match &parts.fragment {
        Some(f) => {
            out.append("#");
            out.append(f.as_str());
        },
        None => {},
    }
    proof {
        reveal_strlit("?");
        reveal_strlit("#");
    }
    out
}

} // verus!
