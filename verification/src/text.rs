//! Text helpers: concatenation, trailing-slash trimming and decimal rendering.
use vstd::prelude::*;
use vstd::string::*;

verus! {

/// The character for a decimal digit `d` (0 to 9).
pub open spec fn digit_char(d: nat) -> char {
    if d == 0 { '0' }
    else if d == 1 { '1' }
    else if d == 2 { '2' }
    else if d == 3 { '3' }
    else if d == 4 { '4' }
    else if d == 5 { '5' }
    else if d == 6 { '6' }
    else if d == 7 { '7' }
    else if d == 8 { '8' }
    else { '9' }
}

/// The decimal digits of a natural number, most significant first, without leading zeros.
pub open spec fn digits(n: nat) -> Seq<char>
    decreases n,
{
    if n < 10 {
        seq![digit_char(n)]
    } else {
        digits(n / 10).push(digit_char(n % 10))
    }
}

/// The decimal text of an integer: a minus sign for negative values, then its digits.
pub open spec fn decimal(x: int) -> Seq<char> {
    if x < 0 {
        seq!['-'] + digits((-x) as nat)
    } else {
        digits(x as nat)
    }
}

/// `s` without any `'/'` at its end.
pub open spec fn trim_end_slashes(s: Seq<char>) -> Seq<char>
    decreases s.len(),
{
    if s.len() > 0 && s.last() == '/' {
        trim_end_slashes(s.drop_last())
    } else {
        s
    }
}

/// Concatenation of two texts.
pub fn concat(a: &str, b: &str) -> (r: String)
    ensures
        r@ == a@ + b@,
{
    let mut r = String::from_str(a);
    r.append(b);
    r
}

/// Concatenation of three texts.
pub fn concat3(a: &str, b: &str, c: &str) -> (r: String)
    ensures
        r@ == a@ + b@ + c@,
{
    let mut r = String::from_str(a);
    r.append(b);
    r.append(c);
    r
}

/// The one-character text of a decimal digit.
fn digit_text(d: u128) -> (r: &'static str)
    requires
        d < 10,
    ensures
        r@ == seq![digit_char(d as nat)],
{
    proof {
        reveal_strlit("0");
        reveal_strlit("1");
        reveal_strlit("2");
        reveal_strlit("3");
        reveal_strlit("4");
        reveal_strlit("5");
        reveal_strlit("6");
        reveal_strlit("7");
        reveal_strlit("8");
        reveal_strlit("9");
    }
    if d == 0 {
        "0"
    } else if d == 1 {
        "1"
    } else if d == 2 {
        "2"
    } else if d == 3 {
        "3"
    } else if d == 4 {
        "4"
    } else if d == 5 {
        "5"
    } else if d == 6 {
        "6"
    } else if d == 7 {
        "7"
    } else if d == 8 {
        "8"
    } else {
        "9"
    }
}

/// The decimal digits of `n`.
fn digits_text(n: u128) -> (r: String)
    ensures
        r@ == digits(n as nat),
    decreases n,
{
    if n < 10 {
        String::from_str(digit_text(n))
    } else {
        let mut r = digits_text(n / 10);
        r.append(digit_text(n % 10));
        r
    }
}

/// The decimal text of an integer.
pub fn decimal_text(x: i128) -> (r: String)
    requires
        x > i128::MIN,
    ensures
        r@ == decimal(x as int),
{
    if x < 0 {
        let m = digits_text((-x) as u128);
        proof {
            reveal_strlit("-");
        }
        assert("-"@ =~= seq!['-']);
        concat("-", m.as_str())
    } else {
        digits_text(x as u128)
    }
}

/// The decimal text of an `i32`.
pub fn i32_text(x: i32) -> (r: String)
    ensures
        r@ == decimal(x as int),
{
    decimal_text(x as i128)
}

/// Whether two texts are equal.
pub fn same_text(a: &str, b: &str) -> (r: bool)
    ensures
        r == (a@ == b@),
{
    let n = a.unicode_len();
    if n != b.unicode_len() {
        return false;
    }
    let mut i: usize = 0;
    while i < n
        invariant
            i <= n,
            n == a@.len(),
            n == b@.len(),
            forall|j: int| 0 <= j < i ==> a@[j] == b@[j],
        decreases n - i,
    {
        if a.get_char(i) != b.get_char(i) {
            return false;
        }
        i = i + 1;
    }
    assert(a@ =~= b@);
    true
}

proof fn lemma_trim_prefix(s: Seq<char>, n: int)
    requires
        0 <= n <= s.len(),
        forall|j: int| n <= j < s.len() ==> s[j] == '/',
    ensures
        trim_end_slashes(s) == trim_end_slashes(s.subrange(0, n)),
    decreases s.len() - n,
{
    if n < s.len() {
        assert(s.drop_last() == s.subrange(0, s.len() - 1));
        lemma_trim_prefix(s.drop_last(), n);
        assert(s.drop_last().subrange(0, n) == s.subrange(0, n));
    } else {
        assert(s.subrange(0, n) == s);
    }
}

/// `s` with every trailing `'/'` removed.
pub fn trim_trailing_slashes(s: &str) -> (r: String)
    ensures
        r@ == trim_end_slashes(s@),
{
    let mut n = s.unicode_len();
    while n > 0 && s.get_char(n - 1) == '/'
        invariant
            0 <= n <= s@.len(),
            forall|j: int| n <= j < s@.len() ==> s@[j] == '/',
        decreases n,
    {
        n = n - 1;
    }
    proof {
        lemma_trim_prefix(s@, n as int);
    }
    let r = s.substring_char(0, n);
    String::from_str(r)
}

} // verus!

verus! {

/// Whether `c` is an ASCII decimal digit.
pub open spec fn is_digit(c: char) -> bool {
    '0' <= c <= '9'
}

/// The value of a decimal digit character.
pub open spec fn digit_value(c: char) -> int {
    (c as int) - ('0' as int)
}

/// Whether every character of `s` is a decimal digit.
pub open spec fn all_digits(s: Seq<char>) -> bool {
    forall|i: int| 0 <= i < s.len() ==> is_digit(#[trigger] s[i])
}

/// The value of a text of decimal digits.
pub open spec fn digits_value(s: Seq<char>) -> int
    decreases s.len(),
{
    if s.len() == 0 {
        0
    } else {
        digits_value(s.drop_last()) * 10 + digit_value(s.last())
    }
}

/// The integer a text denotes: an optional `+` or `-` sign, then at least one decimal digit.
pub open spec fn integer_value(s: Seq<char>) -> Option<int> {
    if s.len() > 0 && (s[0] == '-' || s[0] == '+') {
        let rest = s.drop_first();
        if rest.len() > 0 && all_digits(rest) {
            Some(if s[0] == '-' { -digits_value(rest) } else { digits_value(rest) })
        } else {
            None
        }
    } else if s.len() > 0 && all_digits(s) {
        Some(digits_value(s))
    } else {
        None
    }
}

/// The `i32` a text denotes, if it denotes an integer in range.
pub open spec fn i32_value(s: Seq<char>) -> Option<i32> {
    match integer_value(s) {
        Some(v) => if i32::MIN <= v <= i32::MAX {
            Some(v as i32)
        } else {
            None
        },
        None => None,
    }
}

proof fn lemma_digits_value_nonneg(s: Seq<char>)
    requires
        all_digits(s),
    ensures
        digits_value(s) >= 0,
    decreases s.len(),
{
    if s.len() > 0 {
        lemma_digits_value_nonneg(s.drop_last());
    }
}

/// Reads a text as an `i32`: an optional sign, then decimal digits, in range.
pub fn parse_i32(s: &str) -> (r: Option<i32>)
    ensures
        r == i32_value(s@),
{
    let n = s.unicode_len();
    if n == 0 {
        return None;
    }
    let first = s.get_char(0);
    let negative = first == '-';
    let start: usize = if first == '-' || first == '+' { 1 } else { 0 };
    if start == n {
        return None;
    }
    let ghost digits = s@.subrange(start as int, n as int);
    proof {
        if start == 1 {
            assert(digits =~= s@.drop_first());
        } else {
            assert(digits =~= s@);
        }
    }
    // the magnitude, which may reach 2^31 for the negative bound
    let mut acc: i64 = 0;
    let mut i: usize = start;
    while i < n
        invariant
            start <= i <= n,
            n == s@.len(),
            start == 0 || start == 1,
            digits == s@.subrange(start as int, n as int),
            n > 0,
            start == 1 <==> (s@[0] == '-' || s@[0] == '+'),
            digits == (if start == 1 { s@.drop_first() } else { s@ }),
            all_digits(s@.subrange(start as int, i as int)),
            acc == digits_value(s@.subrange(start as int, i as int)),
            0 <= acc <= 2147483648,
        decreases n - i,
    {
        let c = s.get_char(i);
        if !('0' <= c && c <= '9') {
            assert(!all_digits(digits)) by {
                assert(digits[i - start] == c);
            }
            return None;
        }
        let d = (c as u32 - '0' as u32) as i64;
        assert(s@.subrange(start as int, i + 1).drop_last() =~= s@.subrange(start as int, i as int));
        let next = acc * 10 + d;
        if next > 2147483648 {
            proof {
                assert(digits_value(s@.subrange(start as int, i + 1)) == next);
                if all_digits(digits) {
                    assert(digits.subrange(0, i + 1 - start) =~= s@.subrange(start as int, i + 1));
                    lemma_prefix_value_bound(digits, (i + 1 - start) as int);
                }
            }
            return None;
        }
        acc = next;
        i = i + 1;
    }
    assert(s@.subrange(start as int, n as int) =~= s@.drop_first() || start == 0);
    if start == 0 {
        assert(s@.subrange(0, n as int) =~= s@);
        if acc > 2147483647 {
            return None;
        }
        Some(acc as i32)
    } else {
        assert(s@.subrange(1, n as int) =~= s@.drop_first());
        if negative {
            Some((-acc) as i32)
        } else {
            if acc > 2147483647 {
                return None;
            }
            Some(acc as i32)
        }
    }
}

/// The value of a digit text is at least that of any of its prefixes.
proof fn lemma_prefix_value_bound(s: Seq<char>, k: int)
    requires
        all_digits(s),
        0 <= k <= s.len(),
    ensures
        digits_value(s) >= digits_value(s.subrange(0, k)),
    decreases s.len(),
{
    if k < s.len() {
        assert(s.drop_last().subrange(0, k) =~= s.subrange(0, k));
        lemma_prefix_value_bound(s.drop_last(), k);
        lemma_digits_value_nonneg(s.drop_last());
    } else {
        assert(s.subrange(0, k) =~= s);
    }
}

} // verus!

verus! {

proof fn lemma_digit_char(d: nat)
    requires
        d < 10,
    ensures
        is_digit(digit_char(d)),
        digit_value(digit_char(d)) == d,
{
}

proof fn lemma_digits(n: nat)
    ensures
        digits(n).len() > 0,
        all_digits(digits(n)),
        digits_value(digits(n)) == n,
    decreases n,
{
    lemma_digit_char(n % 10);
    if n >= 10 {
        lemma_digits(n / 10);
        assert(n / 10 * 10 + n % 10 == n);
        assert(digits(n).drop_last() =~= digits(n / 10));
        assert(digits(n).last() == digit_char(n % 10));
        assert(digits_value(digits(n)) == digits_value(digits(n / 10)) * 10 + digit_value(
            digit_char(n % 10),
        ));
        assert forall|i: int| 0 <= i < digits(n).len() implies is_digit(#[trigger] digits(n)[i]) by {
            if i < digits(n).len() - 1 {
                assert(digits(n)[i] == digits(n / 10)[i]);
            }
        }
    } else {
        assert(digits(n).drop_last() =~= Seq::<char>::empty());
        assert(digits_value(Seq::<char>::empty()) == 0);
        assert(digits_value(digits(n)) == digits_value(digits(n).drop_last()) * 10 + digit_value(
            digit_char(n),
        ));
    }
}

/// Reading the decimal text of an `i32` gives the same `i32` back.
pub proof fn decimal_round_trip(x: i32)
    ensures
        i32_value(decimal(x as int)) == Some(x),
{
    if x < 0 {
        let m = (-(x as int)) as nat;
        lemma_digits(m);
        let s = decimal(x as int);
        assert(s.drop_first() =~= digits(m));
    } else {
        lemma_digits(x as nat);
    }
}

} // verus!

verus! {

/// Reading decimal digits `d` from position `i` on, with `acc` read so far and
/// values above `bound` not allowed: `Some(true)` at a character that is no digit,
/// `Some(false)` where the value would pass the bound, `None` if neither happens.
pub open spec fn digits_fault(d: Seq<char>, i: int, acc: int, bound: int) -> Option<bool>
    decreases d.len() - i,
{
    if i < 0 || i >= d.len() {
        None
    } else if !is_digit(d[i]) {
        Some(true)
    } else if acc * 10 + digit_value(d[i]) > bound {
        Some(false)
    } else {
        digits_fault(d, i + 1, acc * 10 + digit_value(d[i]), bound)
    }
}

/// Why a text is not an `i32`, in the words of std's integer parsing (the text
/// is read as an `i64`, whose errors these are) and of a range check on the
/// `i64` read.
pub open spec fn int_problem(s: Seq<char>) -> Seq<char> {
    if s.len() == 0 {
        "cannot parse integer from empty string"@
    } else {
        let neg = s[0] == '-';
        let d = if s[0] == '-' || s[0] == '+' {
            s.drop_first()
        } else {
            s
        };
        if d.len() == 0 {
            "invalid digit found in string"@
        } else {
            match digits_fault(d, 0, 0, if neg { 0x8000_0000_0000_0000 } else { 0x7fff_ffff_ffff_ffff }) {
                Some(true) => "invalid digit found in string"@,
                Some(false) => if neg {
                    "number too small to fit in target type"@
                } else {
                    "number too large to fit in target type"@
                },
                None => decimal(
                    match integer_value(s) {
                        Some(v) => v,
                        None => 0,
                    },
                ) + " is not in -2147483648..=2147483647"@,
            }
        }
    }
}

/// Why `s` is not an `i32` (see `int_problem`).
pub fn int_problem_text(s: &str) -> (r: String)
    ensures
        r@ == int_problem(s@),
{
    let n = s.unicode_len();
    if n == 0 {
        return String::from_str("cannot parse integer from empty string");
    }
    let first = s.get_char(0);
    let neg = first == '-';
    let start: usize = if first == '-' || first == '+' { 1 } else { 0 };
    let ghost d = if start == 1 { s@.drop_first() } else { s@ };
    if start == n {
        assert(d.len() == 0);
        return String::from_str("invalid digit found in string");
    }
    let bound: u128 = if neg { 0x8000_0000_0000_0000 } else { 0x7fff_ffff_ffff_ffff };
    assert(bound as int == (if s@[0] == '-' { 0x8000_0000_0000_0000int } else { 0x7fff_ffff_ffff_ffffint }));
    let mut acc: u128 = 0;
    let mut i: usize = start;
    assert(d.take(0) =~= Seq::<char>::empty());
    while i < n
        invariant
            start <= i <= n,
            n == s@.len(),
            start == 0 || start == 1,
            d.len() == n - start,
            forall|j: int| 0 <= j < d.len() ==> d[j] == s@[j + start],
            acc <= bound,
            bound <= 0x8000_0000_0000_0000,
            digits_fault(d, i - start, acc as int, bound as int) == digits_fault(d, 0, 0, bound as int),
            neg == (s@[0] == '-'),
            bound as int == (if s@[0] == '-' { 0x8000_0000_0000_0000int } else { 0x7fff_ffff_ffff_ffffint }),
            d == (if start == 1 { s@.drop_first() } else { s@ }),
            start == 1 <==> (s@[0] == '-' || s@[0] == '+'),
            all_digits(d.take(i - start)),
            acc == digits_value(d.take(i - start)),
        decreases n - i,
    {
        let c = s.get_char(i);
        assert(d[i - start] == c);
        if !('0' <= c && c <= '9') {
            assert(digits_fault(d, i - start, acc as int, bound as int) == Some(true));
            return String::from_str("invalid digit found in string");
        }
        let dv = (c as u32 - '0' as u32) as u128;
        assert(dv == digit_value(c));
        if acc * 10 + dv > bound {
            assert(digits_fault(d, i - start, acc as int, bound as int) == Some(false));
            if neg {
                return String::from_str("number too small to fit in target type");
            } else {
                return String::from_str("number too large to fit in target type");
            }
        }
        assert(d.take(i - start + 1).drop_last() =~= d.take(i - start));
        assert(d.take(i - start + 1).last() == c);
        acc = acc * 10 + dv;
        i = i + 1;
    }
    assert(d.take(n - start) =~= d);
    proof {
        if start == 1 {
            assert(d =~= s@.drop_first());
        } else {
            assert(d =~= s@);
        }
    }
    let v: i128 = if neg { -(acc as i128) } else { acc as i128 };
    let text = decimal_text(v);
    proof {
        reveal_strlit(" is not in -2147483648..=2147483647");
    }
    concat(text.as_str(), " is not in -2147483648..=2147483647")
}

/// A text read as an `i32` is an optional `+` or `-` and then decimal digits
/// only, at least one.
pub proof fn i32_text_is_sign_and_digits(s: Seq<char>)
    ensures
        i32_value(s) is Some ==> s.len() > 0 && (forall|k: int|
            0 <= k < s.len() && (k > 0 || (s[0] != '-' && s[0] != '+')) ==> '0' <= #[trigger] s[k]
                <= '9') && (s[0] == '-' || s[0] == '+' ==> s.len() > 1),
{
    if i32_value(s) is Some {
        if s[0] == '-' || s[0] == '+' {
            assert forall|k: int|
                0 <= k < s.len() && (k > 0 || (s[0] != '-' && s[0] != '+')) implies '0' <= #[trigger] s[k]
                <= '9' by {
                assert(s.drop_first()[k - 1] == s[k]);
            }
        }
    }
}

} // verus!
