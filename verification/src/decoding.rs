//! Reading a query string back, as `form_urlencoded::parse` does: the pairs the
//! library writes into a URL's query decode to the pairs it was given, in order.
use vstd::prelude::*;
use vstd::utf8::{decode_utf8, encode_utf8, encode_utf8_decode_utf8};

use crate::address::{
    amp_join, extended_query, form_byte, form_byte_unchanged, form_bytes, form_pair,
    form_urlencoded, hex_digit, marked, url_text, UrlPartsView,
};

verus! {

/// Whether `c` is a hexadecimal digit, of either case.
pub open spec fn is_hex(c: char) -> bool {
    ('0' <= c <= '9') || ('a' <= c <= 'f') || ('A' <= c <= 'F')
}

/// The value of a hexadecimal digit.
pub open spec fn hex_value(c: char) -> int {
    if '0' <= c <= '9' {
        (c as int) - 0x30
    } else if 'a' <= c <= 'f' {
        (c as int) - 0x61 + 10
    } else {
        (c as int) - 0x41 + 10
    }
}

/// The bytes a query component stands for: `+` is a space, `%` followed by two
/// hexadecimal digits is that byte, and any other character stands for its UTF-8 bytes.
pub open spec fn form_unescape(s: Seq<char>) -> Seq<u8>
    decreases s.len(),
{
    if s.len() == 0 {
        seq![]
    } else if s[0] == '+' {
        seq![0x20u8] + form_unescape(s.drop_first())
    } else if s[0] == '%' && s.len() >= 3 && is_hex(s[1]) && is_hex(s[2]) {
        seq![(hex_value(s[1]) * 16 + hex_value(s[2])) as u8] + form_unescape(s.skip(3))
    } else {
        encode_utf8(seq![s[0]]) + form_unescape(s.drop_first())
    }
}

/// The text of a query component: the characters whose UTF-8 encoding its bytes
/// are (where they are valid UTF-8).
pub open spec fn form_component(s: Seq<char>) -> Seq<char> {
    decode_utf8(form_unescape(s))
}

/// The position of the first `c` in `s`.
pub open spec fn first_of(s: Seq<char>, c: char) -> Option<nat>
    decreases s.len(),
{
    if s.len() == 0 {
        None
    } else if s[0] == c {
        Some(0nat)
    } else {
        match first_of(s.drop_first(), c) {
            Some(k) => Some(k + 1),
            None => None,
        }
    }
}

/// The `&`-separated segments of a query string.
pub open spec fn segments(q: Seq<char>) -> Seq<Seq<char>>
    decreases q.len(),
{
    if q.len() == 0 {
        seq![Seq::<char>::empty()]
    } else {
        let rest = segments(q.drop_first());
        if q[0] == '&' {
            seq![Seq::<char>::empty()] + rest
        } else {
            rest.update(0, seq![q[0]] + rest[0])
        }
    }
}

/// The pair one segment holds: nothing for an empty segment; otherwise the
/// name before the first `=` and the value after it (empty without `=`).
pub open spec fn form_segment(seg: Seq<char>) -> Seq<(Seq<char>, Seq<char>)> {
    if seg.len() == 0 {
        seq![]
    } else {
        match first_of(seg, '=') {
            Some(k) => seq![(form_component(seg.take(k as int)), form_component(seg.skip(k + 1int)))],
            None => seq![(form_component(seg), Seq::<char>::empty())],
        }
    }
}

/// The pairs of a list of segments, in order.
pub open spec fn segment_pairs(segs: Seq<Seq<char>>) -> Seq<(Seq<char>, Seq<char>)>
    decreases segs.len(),
{
    if segs.len() == 0 {
        seq![]
    } else {
        form_segment(segs[0]) + segment_pairs(segs.drop_first())
    }
}

/// The name/value pairs `form_urlencoded::parse` reads from a query string, in order.
pub open spec fn form_decode(q: Seq<char>) -> Seq<(Seq<char>, Seq<char>)> {
    segment_pairs(segments(q))
}

/// The query a URL text carries once `pairs` are appended to the URL `parts`.
pub open spec fn url_query(parts: UrlPartsView, pairs: Seq<(Seq<char>, Seq<char>)>) -> Option<Seq<char>> {
    if pairs.len() == 0 {
        parts.1
    } else {
        Some(
            extended_query(
                match parts.1 {
                    Some(q) => q,
                    None => seq![],
                },
                pairs,
            ),
        )
    }
}

proof fn lemma_segments_len(q: Seq<char>)
    ensures
        segments(q).len() >= 1,
    decreases q.len(),
{
    if q.len() > 0 {
        lemma_segments_len(q.drop_first());
    }
}

/// Segments of a text joined with `&` are the segments of each side.
proof fn lemma_segments_join(a: Seq<char>, b: Seq<char>)
    ensures
        segments(a + seq!['&'] + b) == segments(a).drop_last() + seq![segments(a).last()] + segments(b),
        segments(a + seq!['&'] + b) == segments(a) + segments(b),
    decreases a.len(),
{
    lemma_segments_len(a);
    let s = a + seq!['&'] + b;
    if a.len() == 0 {
        assert(s.drop_first() =~= b);
        assert(segments(a) =~= seq![Seq::<char>::empty()]);
        assert(segments(s) =~= segments(a) + segments(b));
    } else {
        assert(s.drop_first() =~= a.drop_first() + seq!['&'] + b);
        lemma_segments_join(a.drop_first(), b);
        lemma_segments_len(a.drop_first());
        lemma_segments_len(b);
        let ra = segments(a.drop_first());
        if a[0] == '&' {
            assert(segments(s) =~= seq![Seq::<char>::empty()] + (ra + segments(b)));
            assert(segments(a) =~= seq![Seq::<char>::empty()] + ra);
        } else {
            assert(segments(s) =~= (ra + segments(b)).update(0, seq![a[0]] + ra[0]));
            assert(segments(a) =~= ra.update(0, seq![a[0]] + ra[0]));
        }
        assert(segments(s) =~= segments(a) + segments(b));
    }
    assert(segments(a) =~= segments(a).drop_last() + seq![segments(a).last()]);
}

proof fn lemma_segment_pairs_join(x: Seq<Seq<char>>, y: Seq<Seq<char>>)
    ensures
        segment_pairs(x + y) == segment_pairs(x) + segment_pairs(y),
    decreases x.len(),
{
    if x.len() == 0 {
        assert(x + y =~= y);
    } else {
        assert((x + y).drop_first() =~= x.drop_first() + y);
        lemma_segment_pairs_join(x.drop_first(), y);
        assert(segment_pairs(x + y) =~= form_segment(x[0]) + (segment_pairs(x.drop_first()) + segment_pairs(y)));
    }
}

/// Decoding texts joined with `&` gives the pairs of each, in order.
pub proof fn lemma_decode_join(a: Seq<char>, b: Seq<char>)
    ensures
        form_decode(a + seq!['&'] + b) == form_decode(a) + form_decode(b),
{
    lemma_segments_join(a, b);
    lemma_segment_pairs_join(segments(a), segments(b));
}

/// A text without `&` is one segment.
proof fn lemma_segments_single(q: Seq<char>)
    requires
        forall|i: int| 0 <= i < q.len() ==> q[i] != '&',
    ensures
        segments(q) == seq![q],
    decreases q.len(),
{
    if q.len() > 0 {
        lemma_segments_single(q.drop_first());
        assert(seq![q[0]] + q.drop_first() =~= q);
    } else {
        assert(q =~= Seq::<char>::empty());
    }
}

proof fn lemma_first_of(s: Seq<char>, c: char, k: int)
    requires
        0 <= k < s.len(),
        s[k] == c,
        forall|j: int| 0 <= j < k ==> s[j] != c,
    ensures
        first_of(s, c) == Some(k as nat),
    decreases k,
{
    if k > 0 {
        lemma_first_of(s.drop_first(), c, k - 1);
    }
}

proof fn lemma_hex_digit(d: u8)
    requires
        d < 16,
    ensures
        is_hex(hex_digit(d)),
        hex_value(hex_digit(d)) == d,
        hex_digit(d) != '&',
        hex_digit(d) != '=',
{
}

proof fn lemma_ascii_utf8(b: u8)
    requires
        b < 0x80,
    ensures
        encode_utf8(seq![b as char]) == seq![b],
{
    let c = b as char;
    assert(seq![c].drop_first() =~= Seq::<char>::empty());
    assert((c as u32) == (b as u32));
    let v = b as u32;
    assert((v & 0x7F) as u8 == b) by (bit_vector)
        requires
            v == b as u32,
            b < 0x80,
    ;
    assert(seq![c][0] == c);
    assert(encode_utf8(Seq::<char>::empty()) =~= Seq::<u8>::empty());
    assert(encode_utf8(seq![c]) == vstd::utf8::encode_scalar(c as u32) + encode_utf8(
        Seq::<char>::empty(),
    ));
    assert(encode_utf8(seq![c]) =~= seq![b]);
}

/// The bytes of one serialized byte, read back.
proof fn lemma_unescape_byte(b: u8, rest: Seq<char>)
    ensures
        form_unescape(form_byte(b) + rest) == seq![b] + form_unescape(rest),
        forall|i: int| 0 <= i < form_byte(b).len() ==> form_byte(b)[i] != '&' && form_byte(b)[i] != '=',
{
    let s = form_byte(b) + rest;
    if form_byte_unchanged(b) {
        assert(s.drop_first() =~= rest);
        lemma_ascii_utf8(b);
        assert((b as char) != '+' && (b as char) != '%');
    } else if b == 0x20 {
        assert(s.drop_first() =~= rest);
    } else {
        lemma_hex_digit(b / 16);
        lemma_hex_digit(b % 16);
        assert(s.skip(3) =~= rest);
        assert(s[1] == hex_digit(b / 16));
        assert(s[2] == hex_digit(b % 16));
        assert((hex_value(s[1]) * 16 + hex_value(s[2])) == b);
    }
}

proof fn lemma_unescape_bytes(bytes: Seq<u8>)
    ensures
        form_unescape(form_bytes(bytes)) == bytes,
        forall|i: int| 0 <= i < form_bytes(bytes).len() ==> form_bytes(bytes)[i] != '&'
            && form_bytes(bytes)[i] != '=',
    decreases bytes.len(),
{
    if bytes.len() > 0 {
        lemma_unescape_bytes(bytes.drop_first());
        lemma_unescape_byte(bytes[0], form_bytes(bytes.drop_first()));
        assert(seq![bytes[0]] + bytes.drop_first() =~= bytes);
        let f = form_bytes(bytes);
        let h = form_byte(bytes[0]);
        let t = form_bytes(bytes.drop_first());
        assert forall|i: int| 0 <= i < f.len() implies f[i] != '&' && f[i] != '=' by {
            if i >= h.len() {
                assert(f[i] == t[i - h.len()]);
            } else {
                assert(f[i] == h[i]);
            }
        }
    }
}

/// A text written in `application/x-www-form-urlencoded` form reads back as itself.
pub proof fn lemma_component_round_trip(s: Seq<char>)
    ensures
        form_component(form_urlencoded(s)) == s,
        forall|i: int| 0 <= i < form_urlencoded(s).len() ==> form_urlencoded(s)[i] != '&'
            && form_urlencoded(s)[i] != '=',
{
    lemma_unescape_bytes(encode_utf8(s));
    encode_utf8_decode_utf8(s);
}

/// One written pair reads back as that pair.
proof fn lemma_pair_round_trip(p: (Seq<char>, Seq<char>))
    ensures
        form_decode(form_pair(p)) == seq![p],
        forall|i: int| 0 <= i < form_pair(p).len() ==> form_pair(p)[i] != '&',
{
    lemma_component_round_trip(p.0);
    lemma_component_round_trip(p.1);
    let n = form_urlencoded(p.0);
    let v = form_urlencoded(p.1);
    let s = form_pair(p);
    assert forall|i: int| 0 <= i < s.len() implies s[i] != '&' by {
        if i < n.len() {
            assert(s[i] == n[i]);
        } else if i > n.len() {
            assert(s[i] == v[i - n.len() - 1]);
        }
    }
    lemma_segments_single(s);
    assert(s[n.len() as int] == '=');
    assert forall|j: int| 0 <= j < n.len() implies s[j] != '=' by {
        assert(s[j] == n[j]);
    }
    lemma_first_of(s, '=', n.len() as int);
    assert(s.take(n.len() as int) =~= n);
    assert(s.skip(n.len() + 1int) =~= v);
    assert(seq![s].drop_first() =~= Seq::<Seq<char>>::empty());
    assert(segment_pairs(Seq::<Seq<char>>::empty()) =~= Seq::<(Seq<char>, Seq<char>)>::empty());
    assert(form_segment(s) =~= seq![p]);
    assert(segment_pairs(seq![s]) == form_segment(s) + segment_pairs(seq![s].drop_first()));
    assert(form_decode(s) =~= seq![p]);
}

proof fn lemma_pairs_round_trip(pairs: Seq<(Seq<char>, Seq<char>)>)
    requires
        pairs.len() > 0,
    ensures
        form_decode(amp_join(pairs.map_values(|p: (Seq<char>, Seq<char>)| form_pair(p)))) == pairs,
    decreases pairs.len(),
{
    let m = pairs.map_values(|p: (Seq<char>, Seq<char>)| form_pair(p));
    if pairs.len() == 1 {
        lemma_pair_round_trip(pairs[0]);
        assert(seq![pairs[0]] =~= pairs);
    } else {
        let init = pairs.drop_last();
        lemma_pairs_round_trip(init);
        assert(m.drop_last() =~= init.map_values(|p: (Seq<char>, Seq<char>)| form_pair(p)));
        lemma_pair_round_trip(pairs.last());
        lemma_decode_join(amp_join(m.drop_last()), m.last());
        assert(init + seq![pairs.last()] =~= pairs);
    }
}

proof fn lemma_decode_empty()
    ensures
        form_decode(Seq::<char>::empty()) == Seq::<(Seq<char>, Seq<char>)>::empty(),
{
    let e = Seq::<char>::empty();
    assert(segments(e) =~= seq![e]);
    assert(seq![e].drop_first() =~= Seq::<Seq<char>>::empty());
    assert(segment_pairs(Seq::<Seq<char>>::empty()) =~= Seq::<(Seq<char>, Seq<char>)>::empty());
    assert(form_segment(e) =~= Seq::<(Seq<char>, Seq<char>)>::empty());
    assert(segment_pairs(seq![e]) == form_segment(e) + segment_pairs(seq![e].drop_first()));
    assert(form_decode(e) =~= Seq::<(Seq<char>, Seq<char>)>::empty());
}

/// Appending pairs to a query string, then reading the query back, gives the
/// pairs the string held followed by the appended pairs, in order.
pub proof fn query_pairs_read_back(existing: Seq<char>, pairs: Seq<(Seq<char>, Seq<char>)>)
    ensures
        form_decode(extended_query(existing, pairs)) == form_decode(existing) + pairs,
{
    if pairs.len() == 0 {
        assert(form_decode(existing) + pairs =~= form_decode(existing));
    } else {
        lemma_pairs_round_trip(pairs);
        let enc = amp_join(pairs.map_values(|p: (Seq<char>, Seq<char>)| form_pair(p)));
        if existing.len() == 0 {
            assert(existing =~= Seq::<char>::empty());
            lemma_decode_empty();
            assert(form_decode(existing) + pairs =~= pairs);
        } else {
            lemma_decode_join(existing, enc);
        }
    }
}

/// The URL text with `pairs` appended is the URL before its query, the query
/// (`url_query`) behind `?`, and the fragment behind `#`; with pairs, reading the
/// query back gives the pairs the URL's query held, then `pairs`, in order.
pub proof fn url_query_read_back(parts: UrlPartsView, pairs: Seq<(Seq<char>, Seq<char>)>)
    ensures
        url_text(parts, pairs) == parts.0 + marked('?', url_query(parts, pairs)) + marked('#', parts.2),
        pairs.len() > 0 ==> (url_query(parts, pairs) matches Some(q) && form_decode(q) == match parts.1 {
            Some(q0) => form_decode(q0),
            None => Seq::<(Seq<char>, Seq<char>)>::empty(),
        } + pairs),
        pairs.len() == 0 ==> url_query(parts, pairs) == parts.1,
{
    if pairs.len() > 0 {
        let existing = match parts.1 {
            Some(q) => q,
            None => seq![],
        };
        query_pairs_read_back(existing, pairs);
        if parts.1 is None {
            assert(existing =~= Seq::<char>::empty());
            lemma_decode_empty();
        }
    }
}

} // verus!
