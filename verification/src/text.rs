//! Character-sequence specifications and verified string operations that the
//! request handlers build on: ASCII case mapping, Unicode-whitespace trimming,
//! prefix/suffix/substring tests, splitting, joining and decimal integers.

use vstd::prelude::*;
use vstd::string::*;

verus! {

// ===================== characters =====================

pub open spec fn upper_char(c: char) -> char {
    if 'a' <= c && c <= 'z' {
        ((c as u32) - 32) as char
    } else {
        c
    }
}

pub open spec fn lower_char(c: char) -> char {
    if 'A' <= c && c <= 'Z' {
        ((c as u32) + 32) as char
    } else {
        c
    }
}

/// `char::is_whitespace`: the Unicode `White_Space` property.
pub open spec fn is_ws(c: char) -> bool {
    ||| '\u{9}' <= c && c <= '\u{d}'
    ||| c == ' '
    ||| c == '\u{85}'
    ||| c == '\u{a0}'
    ||| c == '\u{1680}'
    ||| '\u{2000}' <= c && c <= '\u{200a}'
    ||| c == '\u{2028}'
    ||| c == '\u{2029}'
    ||| c == '\u{202f}'
    ||| c == '\u{205f}'
    ||| c == '\u{3000}'
}

pub open spec fn is_digit(c: char) -> bool {
    '0' <= c && c <= '9'
}

pub open spec fn digit_val(c: char) -> int {
    (c as int) - ('0' as int)
}

pub fn to_upper_char(c: char) -> (r: char)
    ensures
        r == upper_char(c),
{
    if 'a' <= c && c <= 'z' {
        let b: u8 = c as u8;
        (b - 32) as char
    } else {
        c
    }
}

pub fn to_lower_char(c: char) -> (r: char)
    ensures
        r == lower_char(c),
{
    if 'A' <= c && c <= 'Z' {
        let b: u8 = c as u8;
        (b + 32) as char
    } else {
        c
    }
}

pub fn char_is_ws(c: char) -> (r: bool)
    ensures
        r == is_ws(c),
{
    ('\u{9}' <= c && c <= '\u{d}') || c == ' ' || c == '\u{85}' || c == '\u{a0}' || c
        == '\u{1680}' || ('\u{2000}' <= c && c <= '\u{200a}') || c == '\u{2028}' || c
        == '\u{2029}' || c == '\u{202f}' || c == '\u{205f}' || c == '\u{3000}'
}

pub fn char_is_digit(c: char) -> (r: bool)
    ensures
        r == is_digit(c),
{
    '0' <= c && c <= '9'
}

// ===================== sequences of characters =====================

pub open spec fn ascii_upper(s: Seq<char>) -> Seq<char> {
    s.map_values(|c: char| upper_char(c))
}

pub open spec fn ascii_lower(s: Seq<char>) -> Seq<char> {
    s.map_values(|c: char| lower_char(c))
}

/// `s` with the leading characters that satisfy `p` removed.
pub open spec fn ltrim_by(s: Seq<char>, p: spec_fn(char) -> bool) -> Seq<char>
    decreases s.len(),
{
    if s.len() > 0 && p(s[0]) {
        ltrim_by(s.drop_first(), p)
    } else {
        s
    }
}

/// `s` with the trailing characters that satisfy `p` removed.
pub open spec fn rtrim_by(s: Seq<char>, p: spec_fn(char) -> bool) -> Seq<char>
    decreases s.len(),
{
    if s.len() > 0 && p(s.last()) {
        rtrim_by(s.drop_last(), p)
    } else {
        s
    }
}

pub open spec fn ws_pred() -> spec_fn(char) -> bool {
    |c: char| is_ws(c)
}

pub open spec fn eq_pred(x: char) -> spec_fn(char) -> bool {
    |c: char| c == x
}

/// `str::trim`.
pub open spec fn trim(s: Seq<char>) -> Seq<char> {
    rtrim_by(ltrim_by(s, ws_pred()), ws_pred())
}

/// `str::trim_matches(x)` for a single character `x`.
pub open spec fn trim_char(s: Seq<char>, x: char) -> Seq<char> {
    rtrim_by(ltrim_by(s, eq_pred(x)), eq_pred(x))
}

pub open spec fn has_prefix(s: Seq<char>, p: Seq<char>) -> bool {
    p.len() <= s.len() && s.subrange(0, p.len() as int) == p
}

pub open spec fn has_suffix(s: Seq<char>, p: Seq<char>) -> bool {
    p.len() <= s.len() && s.subrange(s.len() - p.len(), s.len() as int) == p
}

pub open spec fn occurs_at(s: Seq<char>, p: Seq<char>, i: int) -> bool {
    0 <= i && i + p.len() <= s.len() && s.subrange(i, i + p.len()) == p
}

pub open spec fn has_infix(s: Seq<char>, p: Seq<char>) -> bool {
    exists|i: int| occurs_at(s, p, i)
}

/// `str::split(c)` for a single character `c`, segment by segment.
pub open spec fn split_char(s: Seq<char>, c: char) -> Seq<Seq<char>>
    decreases s.len(),
{
    if s.len() == 0 {
        seq![Seq::<char>::empty()]
    } else if s.last() == c {
        split_char(s.drop_last(), c).push(Seq::<char>::empty())
    } else {
        let r = split_char(s.drop_last(), c);
        r.update(r.len() - 1, r.last().push(s.last()))
    }
}

/// The segments joined with `sep` between consecutive ones.
pub open spec fn join(parts: Seq<Seq<char>>, sep: Seq<char>) -> Seq<char>
    decreases parts.len(),
{
    if parts.len() == 0 {
        Seq::<char>::empty()
    } else if parts.len() == 1 {
        parts[0]
    } else {
        join(parts.drop_last(), sep) + sep + parts.last()
    }
}

pub open spec fn views(v: Seq<String>) -> Seq<Seq<char>> {
    v.map_values(|x: String| x@)
}

/// Splitting yields at least one part.
pub proof fn lemma_split_nonempty(s: Seq<char>, c: char)
    ensures
        split_char(s, c).len() >= 1,
    decreases s.len(),
{
    if s.len() > 0 {
        lemma_split_nonempty(s.drop_last(), c);
    }
}

/// Splitting text after a separator adds one part for what follows it,
/// when that holds no separator.
pub proof fn lemma_split_after(s: Seq<char>, c: char, t: Seq<char>)
    requires
        forall|i: int| 0 <= i < t.len() ==> t[i] != c,
    ensures
        split_char(s + seq![c] + t, c) == split_char(s, c).push(t),
    decreases t.len(),
{
    let u = s + seq![c] + t;
    if t.len() == 0 {
        assert(u.drop_last() =~= s);
        assert(u.last() == c);
        assert(t =~= Seq::<char>::empty());
        assert(split_char(u, c) == split_char(u.drop_last(), c).push(Seq::<char>::empty()));
    } else {
        let t2 = t.drop_last();
        assert forall|i: int| 0 <= i < t2.len() implies t2[i] != c by {
            assert(t2[i] == t[i]);
        }
        assert(t[t.len() - 1] != c);
        assert(t2.push(t.last()) =~= t);
        lemma_split_after(s, c, t2);
        assert(u.drop_last() =~= s + seq![c] + t2);
        assert(u.last() == t.last());
        lemma_split_nonempty(s, c);
        let r = split_char(s + seq![c] + t2, c);
        assert(r == split_char(s, c).push(t2));
        assert(split_char(u, c) == r.update(r.len() - 1, r.last().push(u.last())));
        assert(r.update(r.len() - 1, r.last().push(t.last())) =~= split_char(s, c).push(t));
    }
}

/// Text without the separator is one part.
pub proof fn lemma_split_none(s: Seq<char>, c: char)
    requires
        forall|i: int| 0 <= i < s.len() ==> s[i] != c,
    ensures
        split_char(s, c) == seq![s],
    decreases s.len(),
{
    if s.len() > 0 {
        let d = s.drop_last();
        assert forall|i: int| 0 <= i < d.len() implies d[i] != c by {
            assert(d[i] == s[i]);
        }
        assert(s[s.len() - 1] != c);
        assert(d.push(s.last()) =~= s);
        lemma_split_none(d, c);
        assert(seq![d].update(0, d.push(s.last())) =~= seq![s]);
    } else {
        assert(s =~= Seq::<char>::empty());
    }
}

/// Joining the parts of a split with the separator gives the text back.
pub proof fn lemma_split_join(s: Seq<char>, c: char)
    ensures
        join(split_char(s, c), seq![c]) == s,
    decreases s.len(),
{
    if s.len() > 0 {
        let t = s.drop_last();
        lemma_split_join(t, c);
        lemma_split_nonempty(t, c);
        let r = split_char(t, c);
        if s.last() == c {
            let q = r.push(Seq::<char>::empty());
            assert(q.drop_last() =~= r);
            assert(join(q, seq![c]) =~= t + seq![c]);
        } else {
            let x = s.last();
            let q = r.update(r.len() - 1, r.last().push(x));
            if r.len() == 1 {
                assert(join(q, seq![c]) =~= r[0].push(x));
            } else {
                assert(q.drop_last() =~= r.drop_last());
                assert(join(q, seq![c]) =~= (join(r.drop_last(), seq![c]) + seq![c] + r.last()).push(x));
            }
        }
        assert(t.push(s.last()) =~= s);
    }
}

/// The index of the first `c` in `s`, or -1.
pub open spec fn first_index(s: Seq<char>, c: char) -> int
    decreases s.len(),
{
    if s.len() == 0 {
        -1
    } else if s[0] == c {
        0
    } else {
        let r = first_index(s.drop_first(), c);
        if r < 0 {
            -1
        } else {
            r + 1
        }
    }
}

/// The first `c` is at `i` when `s[i]` is `c` and no earlier character is.
pub proof fn lemma_first_index(s: Seq<char>, c: char, i: int)
    requires
        0 <= i < s.len(),
        s[i] == c,
        forall|j: int| 0 <= j < i ==> s[j] != c,
    ensures
        first_index(s, c) == i,
    decreases i,
{
    if i > 0 {
        let t = s.drop_first();
        assert forall|j: int| 0 <= j < i - 1 implies t[j] != c by {
            assert(t[j] == s[j + 1]);
        }
        lemma_first_index(t, c, i - 1);
    }
}


/// A sequence without `c` has no first `c`.
pub proof fn lemma_first_index_none(s: Seq<char>, c: char)
    requires
        forall|j: int| 0 <= j < s.len() ==> s[j] != c,
    ensures
        first_index(s, c) == -1,
    decreases s.len(),
{
    if s.len() > 0 {
        let t = s.drop_first();
        assert forall|j: int| 0 <= j < t.len() implies t[j] != c by {
            assert(t[j] == s[j + 1]);
        }
        lemma_first_index_none(t, c);
    }
}

/// The position of the first `c` in `v`.
pub fn find_char(v: &Vec<char>, c: char) -> (r: Option<usize>)
    ensures
        match r {
            Some(i) => i < v.len() && i == first_index(v@, c) && v@[i as int] == c,
            None => first_index(v@, c) == -1 && !v@.contains(c),
        },
{
    let mut i: usize = 0;
    while i < v.len()
        invariant
            i <= v.len(),
            forall|j: int| 0 <= j < i ==> v@[j] != c,
        decreases v.len() - i,
    {
        if v[i] == c {
            proof {
                lemma_first_index(v@, c, i as int);
            }
            return Some(i);
        }
        i += 1;
    }
    proof {
        lemma_first_index_none(v@, c);
    }
    None
}

// ===================== decimal integers =====================

pub open spec fn all_digits(s: Seq<char>) -> bool {
    forall|i: int| 0 <= i < s.len() ==> is_digit(#[trigger] s[i])
}

pub open spec fn digits_value(s: Seq<char>) -> int
    decreases s.len(),
{
    if s.len() == 0 {
        0
    } else {
        digits_value(s.drop_last()) * 10 + digit_val(s.last())
    }
}

/// The integer that a decimal literal with an optional `+`/`-` sign denotes,
/// as Rust's integer `FromStr` reads it (range aside).
pub open spec fn signed_decimal(s: Seq<char>) -> Option<int> {
    if s.len() > 0 && (s[0] == '+' || s[0] == '-') {
        let d = s.drop_first();
        if d.len() > 0 && all_digits(d) {
            Some(
                if s[0] == '-' {
                    -digits_value(d)
                } else {
                    digits_value(d)
                },
            )
        } else {
            None
        }
    } else if s.len() > 0 && all_digits(s) {
        Some(digits_value(s))
    } else {
        None
    }
}

/// `str::parse::<i64>`.
pub open spec fn parse_i64_spec(s: Seq<char>) -> Option<i64> {
    match signed_decimal(s) {
        Some(v) => if i64::MIN <= v <= i64::MAX {
            Some(v as i64)
        } else {
            None
        },
        None => None,
    }
}

/// An unsigned decimal literal with an optional `+` sign, as Rust's unsigned
/// integer `FromStr` reads it (range aside).
pub open spec fn unsigned_decimal(s: Seq<char>) -> Option<int> {
    if s.len() > 0 && s[0] == '+' {
        let d = s.drop_first();
        if d.len() > 0 && all_digits(d) {
            Some(digits_value(d))
        } else {
            None
        }
    } else if s.len() > 0 && all_digits(s) {
        Some(digits_value(s))
    } else {
        None
    }
}

/// `str::parse` into an unsigned type whose largest value is `max`.
pub open spec fn parse_unsigned_spec(s: Seq<char>, max: int) -> Option<int> {
    match unsigned_decimal(s) {
        Some(v) => if v <= max {
            Some(v)
        } else {
            None
        },
        None => None,
    }
}

pub open spec fn digit_char(d: int) -> char {
    (d + ('0' as int)) as char
}

/// Decimal digits of a natural number, without leading zeros.
pub open spec fn nat_decimal(n: nat) -> Seq<char>
    decreases n,
{
    if n < 10 {
        seq![digit_char(n as int)]
    } else {
        nat_decimal(n / 10).push(digit_char((n % 10) as int))
    }
}

/// `i64::to_string` / `format!("{}", n)`.
pub open spec fn int_decimal(n: int) -> Seq<char> {
    if n < 0 {
        seq!['-'] + nat_decimal((-n) as nat)
    } else {
        nat_decimal(n as nat)
    }
}

/// The decimal digits of a natural number are digits, at least one, and
/// spell the number.
pub proof fn lemma_nat_decimal(n: nat)
    ensures
        nat_decimal(n).len() > 0,
        all_digits(nat_decimal(n)),
        digits_value(nat_decimal(n)) == n,
    decreases n,
{
    if n < 10 {
        let c = digit_char(n as int);
        assert(c as int == n + 48);
        let s = nat_decimal(n);
        assert(s.drop_last() =~= Seq::<char>::empty());
        assert(s.last() == c);
        assert(digit_val(c) == n);
        assert(digits_value(s) == digits_value(s.drop_last()) * 10 + digit_val(s.last()));
    } else {
        let q = (n / 10) as nat;
        let d = (n % 10) as int;
        lemma_nat_decimal(q);
        let s = nat_decimal(n);
        let c = digit_char(d);
        assert(c as int == d + 48);
        assert(s.drop_last() =~= nat_decimal(q));
        assert(s.last() == c);
        assert(n == q * 10 + d);
        assert(digit_val(c) == d);
        assert(digits_value(s) == digits_value(s.drop_last()) * 10 + digit_val(s.last()));
        assert forall|i: int| 0 <= i < s.len() implies is_digit(#[trigger] s[i]) by {
            if i < s.len() - 1 {
                assert(s[i] == nat_decimal(q)[i]);
            }
        }
    }
}

/// The decimal text of an integer reads back as that integer, and is its own
/// trim.
pub proof fn lemma_i64_decimal_roundtrip(v: i64)
    ensures
        trim(int_decimal(v as int)) == int_decimal(v as int),
        parse_i64_spec(int_decimal(v as int)) == Some(v),
{
    let s = int_decimal(v as int);
    if v < 0 {
        let m = (-(v as int)) as nat;
        lemma_nat_decimal(m);
        let d = nat_decimal(m);
        assert(s.drop_first() =~= d);
        assert(s[0] == '-');
        assert(s.last() == d.last());
        assert(is_digit(d[d.len() - 1]));
        lemma_trim_unchanged(s);
    } else {
        lemma_nat_decimal(v as nat);
        assert(is_digit(s[0]));
        assert(is_digit(s[s.len() - 1]));
        lemma_trim_unchanged(s);
    }
}

/// The value of a digit string is not negative.
pub proof fn lemma_digits_value_nonneg(s: Seq<char>)
    requires
        all_digits(s),
    ensures
        digits_value(s) >= 0,
    decreases s.len(),
{
    if s.len() > 0 {
        assert(is_digit(s[s.len() - 1]));
        assert(all_digits(s.drop_last())) by {
            assert forall|i: int| 0 <= i < s.drop_last().len() implies is_digit(
                #[trigger] s.drop_last()[i],
            ) by {
                assert(s.drop_last()[i] == s[i]);
            }
        }
        lemma_digits_value_nonneg(s.drop_last());
    }
}

/// A prefix of a digit string is worth no more than the whole.
pub proof fn lemma_digits_prefix_le(s: Seq<char>, k: int)
    requires
        all_digits(s),
        0 <= k <= s.len(),
    ensures
        digits_value(s.subrange(0, k)) <= digits_value(s),
    decreases s.len() - k,
{
    if k < s.len() {
        let t = s.subrange(0, k + 1);
        assert(all_digits(t)) by {
            assert forall|i: int| 0 <= i < t.len() implies is_digit(#[trigger] t[i]) by {
                assert(t[i] == s[i]);
            }
        }
        assert(t.drop_last() =~= s.subrange(0, k));
        assert(all_digits(s.subrange(0, k))) by {
            assert forall|i: int| 0 <= i < k implies is_digit(#[trigger] s.subrange(0, k)[i]) by {
                assert(s.subrange(0, k)[i] == s[i]);
            }
        }
        lemma_digits_value_nonneg(s.subrange(0, k));
        assert(is_digit(s[k]));
        assert(t.last() == s[k]);
        lemma_digits_prefix_le(s, k + 1);
    } else {
        assert(s.subrange(0, k) =~= s);
    }
}

// ===================== executable operations =====================

/// Calls `String::push`: the character is appended.
#[verifier::external_body]
pub(crate) fn push_char(s: &mut String, c: char)
    ensures
        final(s)@ == old(s)@.push(c),
{
    s.push(c)
}

/// The one-character string `c`.
pub fn char_string(c: char) -> (r: String)
    ensures
        r@ == seq![c],
{
    let mut s = String::new();
    push_char(&mut s, c);
    s
}

/// The characters of `s`, one per element.
pub fn chars_of(s: &str) -> (r: Vec<char>)
    ensures
        r@ == s@,
{
    let n: usize = s.unicode_len();
    let mut out: Vec<char> = Vec::new();
    let mut i: usize = 0;
    while i < n
        invariant
            n == s@.len(),
            i <= n,
            out@ == s@.subrange(0, i as int),
        decreases n - i,
    {
        out.push(s.get_char(i));
        i += 1;
        assert(out@ =~= s@.subrange(0, i as int));
    }
    assert(s@.subrange(0, n as int) =~= s@);
    out
}

/// An owned copy of `s`.
pub fn owned(s: &str) -> (r: String)
    ensures
        r@ == s@,
{
    String::from_str(s)
}

/// `a` followed by `b`.
pub fn cat(a: &str, b: &str) -> (r: String)
    ensures
        r@ == a@ + b@,
{
    String::from_str(a).concat(b)
}

/// `a`, `b` and `c` in order.
pub fn cat3(a: &str, b: &str, c: &str) -> (r: String)
    ensures
        r@ == a@ + b@ + c@,
{
    String::from_str(a).concat(b).concat(c)
}

pub fn str_eq(a: &str, b: &str) -> (r: bool)
    ensures
        r == (a@ == b@),
{
    let x = chars_of(a);
    let y = chars_of(b);
    if x.len() != y.len() {
        return false;
    }
    let mut i: usize = 0;
    while i < x.len()
        invariant
            x@ == a@,
            y@ == b@,
            x.len() == y.len(),
            i <= x.len(),
            forall|j: int| 0 <= j < i ==> x@[j] == y@[j],
        decreases x.len() - i,
    {
        if x[i] != y[i] {
            return false;
        }
        i += 1;
    }
    assert(a@ =~= b@);
    true
}

/// `str::to_ascii_uppercase`.
pub fn to_ascii_upper(s: &str) -> (r: String)
    ensures
        r@ == ascii_upper(s@),
{
    let v = chars_of(s);
    let mut out = String::new();
    let mut i: usize = 0;
    while i < v.len()
        invariant
            v@ == s@,
            i <= v.len(),
            out@ == ascii_upper(s@.subrange(0, i as int)),
        decreases v.len() - i,
    {
        push_char(&mut out, to_upper_char(v[i]));
        i += 1;
        assert(out@ =~= ascii_upper(s@.subrange(0, i as int)));
    }
    assert(s@.subrange(0, v.len() as int) =~= s@);
    out
}

/// `str::to_ascii_lowercase`.
pub fn to_ascii_lower(s: &str) -> (r: String)
    ensures
        r@ == ascii_lower(s@),
{
    let v = chars_of(s);
    let mut out = String::new();
    let mut i: usize = 0;
    while i < v.len()
        invariant
            v@ == s@,
            i <= v.len(),
            out@ == ascii_lower(s@.subrange(0, i as int)),
        decreases v.len() - i,
    {
        push_char(&mut out, to_lower_char(v[i]));
        i += 1;
        assert(out@ =~= ascii_lower(s@.subrange(0, i as int)));
    }
    assert(s@.subrange(0, v.len() as int) =~= s@);
    out
}

/// `str::eq_ignore_ascii_case`.
pub fn eq_ignore_ascii_case(a: &str, b: &str) -> (r: bool)
    ensures
        r == (ascii_lower(a@) == ascii_lower(b@)),
{
    let x = to_ascii_lower(a);
    let y = to_ascii_lower(b);
    let r = str_eq(x.as_str(), y.as_str());
    r
}

proof fn lemma_ltrim_step(s: Seq<char>, p: spec_fn(char) -> bool, i: int)
    requires
        0 <= i < s.len(),
        p(s[i]),
    ensures
        ltrim_by(s.subrange(i, s.len() as int), p) == ltrim_by(
            s.subrange(i + 1, s.len() as int),
            p,
        ),
{
    let t = s.subrange(i, s.len() as int);
    assert(t.drop_first() =~= s.subrange(i + 1, s.len() as int));
}

proof fn lemma_rtrim_step(s: Seq<char>, p: spec_fn(char) -> bool, j: int)
    requires
        0 < j <= s.len(),
        p(s[j - 1]),
    ensures
        rtrim_by(s.subrange(0, j), p) == rtrim_by(s.subrange(0, j - 1), p),
{
    let t = s.subrange(0, j);
    assert(t.drop_last() =~= s.subrange(0, j - 1));
}

/// Characters `[from, to)` of `v` as a string.
pub fn slice_string(v: &Vec<char>, from: usize, to: usize) -> (r: String)
    requires
        from <= to <= v.len(),
    ensures
        r@ == v@.subrange(from as int, to as int),
{
    let mut out = String::new();
    let mut i: usize = from;
    while i < to
        invariant
            from <= i <= to <= v.len(),
            out@ == v@.subrange(from as int, i as int),
        decreases to - i,
    {
        push_char(&mut out, v[i]);
        i += 1;
        assert(out@ =~= v@.subrange(from as int, i as int));
    }
    out
}

/// `str::trim`.
pub fn trim_str(s: &str) -> (r: String)
    ensures
        r@ == trim(s@),
{
    let v = chars_of(s);
    let n: usize = v.len();
    let mut i: usize = 0;
    assert(s@.subrange(0, n as int) =~= s@);
    while i < n && char_is_ws(v[i])
        invariant
            v@ == s@,
            n == v.len(),
            i <= n,
            ltrim_by(s@, ws_pred()) == ltrim_by(s@.subrange(i as int, n as int), ws_pred()),
        decreases n - i,
    {
        proof {
            lemma_ltrim_step(s@, ws_pred(), i as int);
        }
        i += 1;
    }
    let ghost mid = s@.subrange(i as int, n as int);
    assert(ltrim_by(mid, ws_pred()) == mid);
    let mut j: usize = n;
    assert(mid.subrange(0, (j - i) as int) =~= mid);
    while j > i && char_is_ws(v[j - 1])
        invariant
            v@ == s@,
            n == v.len(),
            i <= j <= n,
            mid == s@.subrange(i as int, n as int),
            rtrim_by(mid, ws_pred()) == rtrim_by(s@.subrange(i as int, j as int), ws_pred()),
        decreases j,
    {
        proof {
            let t = s@.subrange(i as int, j as int);
            assert(t.drop_last() =~= s@.subrange(i as int, j - 1));
            assert(t.last() == v@[j - 1]);
        }
        j -= 1;
    }
    let r = slice_string(&v, i, j);
    r
}

/// `str::trim_matches(x)` for a single character.
pub fn trim_char_str(s: &str, x: char) -> (r: String)
    ensures
        r@ == trim_char(s@, x),
{
    let v = chars_of(s);
    let n: usize = v.len();
    let mut i: usize = 0;
    assert(s@.subrange(0, n as int) =~= s@);
    while i < n && v[i] == x
        invariant
            v@ == s@,
            n == v.len(),
            i <= n,
            ltrim_by(s@, eq_pred(x)) == ltrim_by(s@.subrange(i as int, n as int), eq_pred(x)),
        decreases n - i,
    {
        proof {
            lemma_ltrim_step(s@, eq_pred(x), i as int);
        }
        i += 1;
    }
    let ghost mid = s@.subrange(i as int, n as int);
    assert(ltrim_by(mid, eq_pred(x)) == mid);
    let mut j: usize = n;
    assert(mid.subrange(0, (j - i) as int) =~= mid);
    while j > i && v[j - 1] == x
        invariant
            v@ == s@,
            n == v.len(),
            i <= j <= n,
            mid == s@.subrange(i as int, n as int),
            rtrim_by(mid, eq_pred(x)) == rtrim_by(s@.subrange(i as int, j as int), eq_pred(x)),
        decreases j,
    {
        proof {
            let t = s@.subrange(i as int, j as int);
            assert(t.drop_last() =~= s@.subrange(i as int, j - 1));
            assert(t.last() == v@[j - 1]);
        }
        j -= 1;
    }
    let r = slice_string(&v, i, j);
    r
}


/// `str::starts_with`.
pub fn starts_with(s: &str, p: &str) -> (r: bool)
    ensures
        r == has_prefix(s@, p@),
{
    let x = chars_of(s);
    let y = chars_of(p);
    if y.len() > x.len() {
        return false;
    }
    let mut i: usize = 0;
    while i < y.len()
        invariant
            x@ == s@,
            y@ == p@,
            y.len() <= x.len(),
            i <= y.len(),
            forall|j: int| 0 <= j < i ==> x@[j] == y@[j],
        decreases y.len() - i,
    {
        if x[i] != y[i] {
            assert(s@.subrange(0, p@.len() as int)[i as int] != p@[i as int]);
            return false;
        }
        i += 1;
    }
    assert(s@.subrange(0, p@.len() as int) =~= p@);
    true
}

/// `str::ends_with`.
pub fn ends_with(s: &str, p: &str) -> (r: bool)
    ensures
        r == has_suffix(s@, p@),
{
    let x = chars_of(s);
    let y = chars_of(p);
    if y.len() > x.len() {
        return false;
    }
    let off: usize = x.len() - y.len();
    let mut i: usize = 0;
    while i < y.len()
        invariant
            x@ == s@,
            y@ == p@,
            y.len() <= x.len(),
            off == x.len() - y.len(),
            i <= y.len(),
            forall|j: int| 0 <= j < i ==> x@[off + j] == y@[j],
        decreases y.len() - i,
    {
        if x[off + i] != y[i] {
            assert(s@.subrange(off as int, s@.len() as int)[i as int] != p@[i as int]);
            return false;
        }
        i += 1;
    }
    assert(s@.subrange(off as int, s@.len() as int) =~= p@);
    true
}

/// Whether `p` occurs in `v` starting at `i`.
fn occurs_at_exec(v: &Vec<char>, p: &Vec<char>, i: usize) -> (r: bool)
    requires
        i + p.len() <= v.len(),
    ensures
        r == occurs_at(v@, p@, i as int),
{
    let mut k: usize = 0;
    while k < p.len()
        invariant
            i + p.len() <= v.len(),
            k <= p.len(),
            forall|j: int| 0 <= j < k ==> v@[i + j] == p@[j],
        decreases p.len() - k,
    {
        if v[i + k] != p[k] {
            assert(v@.subrange(i as int, i + p@.len())[k as int] != p@[k as int]);
            return false;
        }
        k += 1;
    }
    assert(v@.subrange(i as int, i + p@.len()) =~= p@);
    true
}

/// `str::contains` for a string pattern.
pub fn contains(s: &str, p: &str) -> (r: bool)
    ensures
        r == has_infix(s@, p@),
{
    let x = chars_of(s);
    let y = chars_of(p);
    if y.len() > x.len() {
        return false;
    }
    if y.len() == 0 {
        assert(s@.subrange(0, 0) =~= p@);
        assert(occurs_at(s@, p@, 0));
        return true;
    }
    let mut i: usize = 0;
    let last: usize = x.len() - y.len();
    while i <= last
        invariant
            x@ == s@,
            y@ == p@,
            y.len() <= x.len(),
            last == x.len() - y.len(),
            y.len() > 0,
            i <= last + 1,
            forall|j: int| 0 <= j < i ==> !occurs_at(s@, p@, j),
        decreases last + 1 - i,
    {
        if occurs_at_exec(&x, &y, i) {
            return true;
        }
        i += 1;
    }
    assert forall|j: int| !occurs_at(s@, p@, j) by {
        if 0 <= j && j < i {
        }
    }
    false
}

/// Whether the character `c` occurs in `s`.
pub fn contains_char(s: &str, c: char) -> (r: bool)
    ensures
        r == s@.contains(c),
{
    let x = chars_of(s);
    let mut i: usize = 0;
    while i < x.len()
        invariant
            x@ == s@,
            i <= x.len(),
            forall|j: int| 0 <= j < i ==> x@[j] != c,
        decreases x.len() - i,
    {
        if x[i] == c {
            assert(s@[i as int] == c);
            return true;
        }
        i += 1;
    }
    false
}

/// `str::split(c)` for a single character, as owned segments.
pub fn split_char_str(s: &str, c: char) -> (r: Vec<String>)
    ensures
        views(r@) == split_char(s@, c),
{
    let v = chars_of(s);
    let mut parts: Vec<String> = Vec::new();
    let mut cur = String::new();
    let mut i: usize = 0;
    assert(s@.subrange(0, 0) =~= Seq::<char>::empty());
    assert(views(parts@).push(cur@) =~= split_char(s@.subrange(0, 0), c));
    while i < v.len()
        invariant
            v@ == s@,
            i <= v.len(),
            views(parts@).push(cur@) == split_char(s@.subrange(0, i as int), c),
        decreases v.len() - i,
    {
        let ghost pre = s@.subrange(0, i as int);
        let ghost nxt = s@.subrange(0, i + 1);
        assert(nxt.drop_last() =~= pre);
        assert(nxt.last() == v@[i as int]);
        if v[i] == c {
            let ghost old_parts = parts@;
            let ghost done_v = cur@;
            parts.push(cur);
            cur = String::new();
            assert(views(parts@) =~= views(old_parts).push(done_v));
            assert(views(parts@).push(cur@) =~= split_char(nxt, c));
        } else {
            let ghost old_cur = cur@;
            push_char(&mut cur, v[i]);
            assert(views(parts@).push(cur@) =~= split_char(nxt, c));
        }
        i += 1;
    }
    assert(s@.subrange(0, v.len() as int) =~= s@);
    parts.push(cur);
    parts
}


/// The value of the decimal digits `v[from..]`, when every one of them is a
/// digit and the value is at most `max`.
fn digits_upto(v: &Vec<char>, from: usize, max: u128) -> (r: Option<u128>)
    requires
        from <= v.len(),
        max <= 0x1_0000_0000_0000_0000u128,
    ensures
        r is Some <==> (all_digits(v@.subrange(from as int, v@.len() as int)) && digits_value(
            v@.subrange(from as int, v@.len() as int),
        ) <= max),
        r matches Some(x) ==> x == digits_value(v@.subrange(from as int, v@.len() as int)),
{
    let ghost whole = v@.subrange(from as int, v@.len() as int);
    let mut acc: u128 = 0;
    let mut i: usize = from;
    assert(v@.subrange(from as int, from as int) =~= Seq::<char>::empty());
    while i < v.len()
        invariant
            from <= i <= v.len(),
            max <= 0x1_0000_0000_0000_0000u128,
            whole == v@.subrange(from as int, v@.len() as int),
            all_digits(v@.subrange(from as int, i as int)),
            acc == digits_value(v@.subrange(from as int, i as int)),
            acc <= max,
        decreases v.len() - i,
    {
        let c = v[i];
        if !char_is_digit(c) {
            assert(whole[i - from] == c);
            return None;
        }
        let d: u128 = ((c as u32) - ('0' as u32)) as u128;
        let ghost pre = v@.subrange(from as int, i as int);
        let ghost nxt = v@.subrange(from as int, i + 1);
        assert(nxt.drop_last() =~= pre);
        assert(nxt.last() == c);
        assert(all_digits(nxt)) by {
            assert forall|k: int| 0 <= k < nxt.len() implies is_digit(#[trigger] nxt[k]) by {
                if k < pre.len() {
                    assert(nxt[k] == pre[k]);
                }
            }
        }
        let acc2: u128 = acc * 10 + d;
        assert(acc2 == digits_value(nxt));
        if acc2 > max {
            proof {
                if all_digits(whole) {
                    assert(whole.subrange(0, (i + 1 - from) as int) =~= nxt);
                    lemma_digits_prefix_le(whole, (i + 1 - from) as int);
                }
            }
            return None;
        }
        acc = acc2;
        i += 1;
    }
    Some(acc)
}

/// `str::parse::<i64>`.
pub fn parse_i64(s: &str) -> (r: Option<i64>)
    ensures
        r == parse_i64_spec(s@),
{
    let v = chars_of(s);
    if v.len() == 0 {
        return None;
    }
    if v[0] == '+' || v[0] == '-' {
        let neg: bool = v[0] == '-';
        if v.len() == 1 {
            return None;
        }
        assert(s@.drop_first() =~= v@.subrange(1, v@.len() as int));
        let lim: u128 = if neg { 0x8000_0000_0000_0000u128 } else { 0x7fff_ffff_ffff_ffffu128 };
        match digits_upto(&v, 1, lim) {
            None => {
                return None;
            },
            Some(m) => {
                if neg {
                    let x: i128 = 0i128 - (m as i128);
                    return Some(x as i64);
                } else {
                    return Some(m as i64);
                }
            },
        }
    } else {
        assert(s@ =~= v@.subrange(0, v@.len() as int));
        match digits_upto(&v, 0, 0x7fff_ffff_ffff_ffffu128) {
            None => {
                proof {
                    if all_digits(s@) {
                        lemma_digits_value_nonneg(s@);
                    }
                }
                return None;
            },
            Some(m) => {
                return Some(m as i64);
            },
        }
    }
}

/// `str::parse` into an unsigned type whose largest value is `max`.
pub fn parse_unsigned(s: &str, max: u64) -> (r: Option<u64>)
    ensures
        r is Some <==> parse_unsigned_spec(s@, max as int) is Some,
        r matches Some(v) ==> v as int == parse_unsigned_spec(s@, max as int).unwrap(),
{
    let v = chars_of(s);
    if v.len() == 0 {
        return None;
    }
    let from: usize = if v[0] == '+' { 1 } else { 0 };
    if v.len() == from {
        return None;
    }
    if from == 1 {
        assert(s@.drop_first() =~= v@.subrange(1, v@.len() as int));
    } else {
        assert(s@ =~= v@.subrange(0, v@.len() as int));
    }
    match digits_upto(&v, from, max as u128) {
        None => None,
        Some(m) => Some(m as u64),
    }
}

pub fn parse_u32(s: &str) -> (r: Option<u32>)
    ensures
        r is Some <==> parse_unsigned_spec(s@, u32::MAX as int) is Some,
        r matches Some(v) ==> v as int == parse_unsigned_spec(s@, u32::MAX as int).unwrap(),
{
    match parse_unsigned(s, 0xffff_ffffu64) {
        Some(x) => Some(x as u32),
        None => None,
    }
}

pub fn parse_u8(s: &str) -> (r: Option<u8>)
    ensures
        r is Some <==> parse_unsigned_spec(s@, u8::MAX as int) is Some,
        r matches Some(v) ==> v as int == parse_unsigned_spec(s@, u8::MAX as int).unwrap(),
{
    match parse_unsigned(s, 0xffu64) {
        Some(x) => Some(x as u8),
        None => None,
    }
}

pub fn digit_to_char(d: u64) -> (r: char)
    requires
        d < 10,
    ensures
        r == digit_char(d as int),
{
    let b: u8 = (d as u8) + 48u8;
    b as char
}

/// `u64::to_string`.
pub fn u64_decimal(n: u64) -> (r: String)
    ensures
        r@ == nat_decimal(n as nat),
    decreases n,
{
    if n < 10 {
        let mut out = String::new();
        push_char(&mut out, digit_to_char(n));
        assert(out@ =~= seq![digit_char(n as int)]);
        out
    } else {
        let mut out = u64_decimal(n / 10);
        push_char(&mut out, digit_to_char(n % 10));
        out
    }
}

/// `i64::to_string`.
pub fn i64_decimal(n: i64) -> (r: String)
    ensures
        r@ == int_decimal(n as int),
{
    if n < 0 {
        let m: u64 = (0i128 - (n as i128)) as u64;
        let digits = u64_decimal(m);
        let r = cat("-", digits.as_str());
        proof {
            reveal_strlit("-");
        }
        assert(r@ =~= seq!['-'] + nat_decimal((-n) as nat));
        r
    } else {
        u64_decimal(n as u64)
    }
}

/// The segments joined with `sep` between consecutive ones.
pub fn join_strings(parts: &Vec<String>, sep: &str) -> (r: String)
    ensures
        r@ == join(views(parts@), sep@),
{
    let mut out = String::new();
    let mut i: usize = 0;
    assert(views(parts@).subrange(0, 0) =~= Seq::<Seq<char>>::empty());
    while i < parts.len()
        invariant
            i <= parts.len(),
            out@ == join(views(parts@).subrange(0, i as int), sep@),
        decreases parts.len() - i,
    {
        let ghost pre = views(parts@).subrange(0, i as int);
        let ghost nxt = views(parts@).subrange(0, i + 1);
        assert(nxt.drop_last() =~= pre);
        assert(nxt.last() == parts@[i as int]@);
        if i == 0 {
            out.append(parts[i].as_str());
            assert(out@ =~= join(nxt, sep@));
        } else {
            out.append(sep);
            out.append(parts[i].as_str());
            assert(out@ =~= join(nxt, sep@));
        }
        i += 1;
    }
    assert(views(parts@).subrange(0, parts.len() as int) =~= views(parts@));
    out
}


/// `str::strip_prefix` for a string pattern.
pub fn strip_prefix(s: &str, p: &str) -> (r: Option<String>)
    ensures
        r is Some <==> has_prefix(s@, p@),
        r matches Some(t) ==> t@ == s@.subrange(p@.len() as int, s@.len() as int),
{
    if starts_with(s, p) {
        let v = chars_of(s);
        let k: usize = p.unicode_len();
        Some(slice_string(&v, k, v.len()))
    } else {
        None
    }
}

/// `str::strip_suffix` for a string pattern.
pub fn strip_suffix(s: &str, p: &str) -> (r: Option<String>)
    ensures
        r is Some <==> has_suffix(s@, p@),
        r matches Some(t) ==> t@ == s@.subrange(0, s@.len() - p@.len()),
{
    if ends_with(s, p) {
        let v = chars_of(s);
        let k: usize = p.unicode_len();
        Some(slice_string(&v, 0, v.len() - k))
    } else {
        None
    }
}

/// The Unicode lowercase mapping of a string, as `str::to_lowercase` computes it.
pub uninterp spec fn unicode_lowercase(s: Seq<char>) -> Seq<char>;

/// The Unicode uppercase mapping of a string, as `str::to_uppercase` computes it.
pub uninterp spec fn unicode_uppercase(s: Seq<char>) -> Seq<char>;

/// Calls `str::to_lowercase`; its result is named `unicode_lowercase` of the
/// argument (the full Unicode case tables are not restated here).
#[verifier::external_body]
pub(crate) fn to_lowercase(s: &str) -> (r: String)
    ensures
        r@ == unicode_lowercase(s@),
{
    s.to_lowercase()
}

/// Calls `str::to_uppercase`; its result is named `unicode_uppercase` of the
/// argument (the full Unicode case tables are not restated here).
#[verifier::external_body]
pub(crate) fn to_uppercase(s: &str) -> (r: String)
    ensures
        r@ == unicode_uppercase(s@),
{
    s.to_uppercase()
}


// ===================== order of strings =====================

/// The order of strings: lexicographic by code point (`str`'s `Ord`; the
/// UTF-8 byte order agrees with it).
pub open spec fn seq_lt(a: Seq<char>, b: Seq<char>) -> bool
    decreases a.len(),
{
    if a.len() == 0 {
        b.len() > 0
    } else if b.len() == 0 {
        false
    } else if a[0] != b[0] {
        a[0] < b[0]
    } else {
        seq_lt(a.drop_first(), b.drop_first())
    }
}

/// No text precedes itself.
pub proof fn lemma_seq_lt_irreflexive(a: Seq<char>)
    ensures
        !seq_lt(a, a),
    decreases a.len(),
{
    if a.len() > 0 {
        lemma_seq_lt_irreflexive(a.drop_first());
    }
}

/// Text order is transitive.
pub proof fn lemma_seq_lt_transitive(a: Seq<char>, b: Seq<char>, c: Seq<char>)
    requires
        seq_lt(a, b),
        seq_lt(b, c),
    ensures
        seq_lt(a, c),
    decreases a.len(),
{
    if a.len() > 0 && b.len() > 0 && c.len() > 0 && a[0] == b[0] && b[0] == c[0] {
        lemma_seq_lt_transitive(a.drop_first(), b.drop_first(), c.drop_first());
    }
}

/// Of two texts, they are equal or exactly one precedes the other.
pub proof fn lemma_seq_lt_total(a: Seq<char>, b: Seq<char>)
    ensures
        a == b || seq_lt(a, b) || seq_lt(b, a),
        !(seq_lt(a, b) && seq_lt(b, a)),
    decreases a.len(),
{
    if a.len() > 0 && b.len() > 0 && a[0] == b[0] {
        lemma_seq_lt_total(a.drop_first(), b.drop_first());
        if a.drop_first() == b.drop_first() {
            assert(a =~= b) by {
                assert forall|i: int| 0 <= i < a.len() implies a[i] == b[i] by {
                    if i > 0 {
                        assert(a[i] == a.drop_first()[i - 1]);
                        assert(b[i] == b.drop_first()[i - 1]);
                    }
                }
            }
        }
    } else if a.len() == 0 && b.len() == 0 {
        assert(a =~= b);
    }
}

/// Whether `a` sorts before `b`.
pub fn str_less(a: &str, b: &str) -> (r: bool)
    ensures
        r == seq_lt(a@, b@),
{
    let x = chars_of(a);
    let y = chars_of(b);
    let mut i: usize = 0;
    assert(a@.subrange(0, a@.len() as int) =~= a@);
    assert(b@.subrange(0, b@.len() as int) =~= b@);
    while i < x.len() && i < y.len() && x[i] == y[i]
        invariant
            x@ == a@,
            y@ == b@,
            i <= x.len(),
            i <= y.len(),
            seq_lt(a@, b@) == seq_lt(a@.subrange(i as int, a@.len() as int), b@.subrange(i as int, b@.len() as int)),
        decreases x.len() - i,
    {
        proof {
            let s = a@.subrange(i as int, a@.len() as int);
            let t = b@.subrange(i as int, b@.len() as int);
            assert(s.drop_first() =~= a@.subrange(i + 1, a@.len() as int));
            assert(t.drop_first() =~= b@.subrange(i + 1, b@.len() as int));
        }
        i += 1;
    }
    proof {
        let s = a@.subrange(i as int, a@.len() as int);
        let t = b@.subrange(i as int, b@.len() as int);
        if i < x.len() && i < y.len() {
            assert(s[0] == x@[i as int] && t[0] == y@[i as int]);
        }
    }
    if i == x.len() {
        i < y.len()
    } else if i == y.len() {
        false
    } else {
        x[i] < y[i]
    }
}


/// `str::trim_start_matches(x)` for a single character.
pub fn trim_start_char_str(s: &str, x: char) -> (r: String)
    ensures
        r@ == ltrim_by(s@, eq_pred(x)),
{
    let v = chars_of(s);
    let n: usize = v.len();
    let mut i: usize = 0;
    assert(s@.subrange(0, n as int) =~= s@);
    while i < n && v[i] == x
        invariant
            v@ == s@,
            n == v.len(),
            i <= n,
            ltrim_by(s@, eq_pred(x)) == ltrim_by(s@.subrange(i as int, n as int), eq_pred(x)),
        decreases n - i,
    {
        proof {
            lemma_ltrim_step(s@, eq_pred(x), i as int);
        }
        i += 1;
    }
    slice_string(&v, i, n)
}

/// `str::trim_end_matches(x)` for a single character.
pub fn trim_end_char_str(s: &str, x: char) -> (r: String)
    ensures
        r@ == rtrim_by(s@, eq_pred(x)),
{
    let v = chars_of(s);
    let n: usize = v.len();
    let mut j: usize = n;
    assert(s@.subrange(0, n as int) =~= s@);
    while j > 0 && v[j - 1] == x
        invariant
            v@ == s@,
            n == v.len(),
            j <= n,
            rtrim_by(s@, eq_pred(x)) == rtrim_by(s@.subrange(0, j as int), eq_pred(x)),
        decreases j,
    {
        proof {
            lemma_rtrim_step(s@, eq_pred(x), j as int);
        }
        j -= 1;
    }
    slice_string(&v, 0, j)
}

/// The non-empty segments of `s` split at `c`, in order.
pub open spec fn segments(s: Seq<char>, c: char) -> Seq<Seq<char>> {
    split_char(s, c).filter(|x: Seq<char>| x.len() > 0)
}

/// `s.split(c).filter(|x| !x.is_empty())`, as owned segments.
pub fn segments_str(s: &str, c: char) -> (r: Vec<String>)
    ensures
        views(r@) == segments(s@, c),
{
    let parts = split_char_str(s, c);
    let ghost all = split_char(s@, c);
    let mut out: Vec<String> = Vec::new();
    let mut i: usize = 0;
    while i < parts.len()
        invariant
            i <= parts.len(),
            views(parts@) == all,
            views(out@) == all.subrange(0, i as int).filter(|x: Seq<char>| x.len() > 0),
        decreases parts.len() - i,
    {
        proof {
            let pre = all.subrange(0, i as int);
            let nxt = all.subrange(0, i + 1);
            assert(nxt.drop_last() =~= pre);
            assert(nxt.last() == parts@[i as int]@);
            reveal(Seq::filter);
        }
        if parts[i].unicode_len() > 0 {
            let ghost before = out@;
            out.push(parts[i].clone());
            assert(views(out@) =~= views(before).push(parts@[i as int]@));
        }
        i += 1;
    }
    assert(all.subrange(0, parts.len() as int) =~= all);
    out
}


proof fn lemma_ltrim_head(s: Seq<char>, p: spec_fn(char) -> bool)
    ensures
        ltrim_by(s, p).len() > 0 ==> !p(ltrim_by(s, p)[0]),
        ltrim_by(s, p).len() <= s.len(),
    decreases s.len(),
{
    if s.len() > 0 && p(s[0]) {
        lemma_ltrim_head(s.drop_first(), p);
    }
}

proof fn lemma_rtrim_prefix(s: Seq<char>, p: spec_fn(char) -> bool)
    ensures
        rtrim_by(s, p).len() <= s.len(),
        rtrim_by(s, p) == s.subrange(0, rtrim_by(s, p).len() as int),
        rtrim_by(s, p).len() > 0 ==> !p(rtrim_by(s, p).last()),
    decreases s.len(),
{
    if s.len() > 0 && p(s.last()) {
        lemma_rtrim_prefix(s.drop_last(), p);
        let r = rtrim_by(s.drop_last(), p);
        assert(s.drop_last().subrange(0, r.len() as int) =~= s.subrange(0, r.len() as int));
    } else {
        assert(s.subrange(0, s.len() as int) =~= s);
    }
}

/// A sequence that starts and ends with a non-whitespace character is its
/// own trim.
pub proof fn lemma_trim_unchanged(s: Seq<char>)
    requires
        s.len() > 0,
        !is_ws(s[0]),
        !is_ws(s.last()),
    ensures
        trim(s) == s,
{
    assert(ltrim_by(s, ws_pred()) == s);
    assert(rtrim_by(s, ws_pred()) == s);
}

/// Trimming twice trims no more than trimming once.
pub proof fn lemma_trim_idempotent(s: Seq<char>)
    ensures
        trim(trim(s)) == trim(s),
{
    let u = ltrim_by(s, ws_pred());
    lemma_ltrim_head(s, ws_pred());
    lemma_rtrim_prefix(u, ws_pred());
    let v = rtrim_by(u, ws_pred());
    if v.len() > 0 {
        assert(v[0] == u[0]);
        lemma_trim_unchanged(v);
    } else {
        assert(ltrim_by(v, ws_pred()) == v);
        assert(rtrim_by(v, ws_pred()) == v);
    }
}

/// A trimmed text that is not empty starts and ends with a non-whitespace
/// character.
pub proof fn lemma_trimmed_ends(s: Seq<char>)
    ensures
        trim(s).len() > 0 ==> !is_ws(trim(s)[0]) && !is_ws(trim(s).last()),
{
    let u = ltrim_by(s, ws_pred());
    lemma_ltrim_head(s, ws_pred());
    lemma_rtrim_prefix(u, ws_pred());
    let v = rtrim_by(u, ws_pred());
    if v.len() > 0 {
        assert(v[0] == u[0]);
    }
}

/// ASCII upper-casing twice is upper-casing once.
pub proof fn lemma_ascii_upper_idempotent(s: Seq<char>)
    ensures
        ascii_upper(ascii_upper(s)) == ascii_upper(s),
{
    assert forall|i: int| 0 <= i < s.len() implies #[trigger] upper_char(upper_char(s[i])) == upper_char(
        s[i],
    ) by {
        let c = s[i];
        if 'a' <= c && c <= 'z' {
            assert((c as u32) - 32 < 'a' as u32);
        }
    }
    assert(ascii_upper(ascii_upper(s)) =~= ascii_upper(s));
}

} // verus!
