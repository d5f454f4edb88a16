//! Character-level text helpers used by the query engine, the metadata
//! extraction and the exporters. Every helper is stated over `Seq<char>`.
use vstd::prelude::*;
use vstd::string::*;

verus! {

/// `String::push` appends one character.
pub assume_specification[ String::push ](s: &mut String, ch: char)
    ensures
        final(s)@ == old(s)@.push(ch),
;

// ------------------------------------------------------------------
// Specifications
// ------------------------------------------------------------------

/// `s` with every leftmost, non-overlapping occurrence of `from` replaced by `to`.
pub open spec fn replaced(s: Seq<char>, from: Seq<char>, to: Seq<char>) -> Seq<char>
    decreases s.len(),
{
    if from.len() == 0 || s.len() < from.len() {
        s
    } else if s.take(from.len() as int) == from {
        to + replaced(s.skip(from.len() as int), from, to)
    } else {
        seq![s[0]] + replaced(s.skip(1), from, to)
    }
}

pub open spec fn starts_with(s: Seq<char>, prefix: Seq<char>) -> bool {
    prefix.len() <= s.len() && s.take(prefix.len() as int) == prefix
}

pub open spec fn ends_with(s: Seq<char>, suffix: Seq<char>) -> bool {
    suffix.len() <= s.len() && s.skip(s.len() - suffix.len()) == suffix
}

/// `pat` occurs in `s` at position `i`.
pub open spec fn occurs_at(s: Seq<char>, pat: Seq<char>, i: int) -> bool {
    0 <= i && i + pat.len() <= s.len() && s.subrange(i, i + pat.len()) == pat
}

pub open spec fn contains_text(s: Seq<char>, pat: Seq<char>) -> bool {
    exists|i: int| occurs_at(s, pat, i)
}

/// The decimal digit character of `d` (0..=9).
pub open spec fn digit_char(d: int) -> char {
    (d + 48) as char
}

/// Decimal notation of a natural number, without leading zeros.
pub open spec fn decimal(n: nat) -> Seq<char>
    decreases n,
{
    if n < 10 {
        seq![digit_char(n as int)]
    } else {
        decimal(n / 10).push(digit_char((n % 10) as int))
    }
}

/// Decimal notation of an integer, with a leading `-` when negative.
pub open spec fn signed_decimal(n: int) -> Seq<char> {
    if n < 0 {
        seq!['-'] + decimal((-n) as nat)
    } else {
        decimal(n as nat)
    }
}

/// The items of `parts`, with `sep` between consecutive items.
pub open spec fn joined(parts: Seq<Seq<char>>, sep: Seq<char>) -> Seq<char>
    decreases parts.len(),
{
    if parts.len() == 0 {
        seq![]
    } else if parts.len() == 1 {
        parts[0]
    } else {
        joined(parts.drop_last(), sep) + sep + parts.last()
    }
}

/// Number of bytes of the UTF-8 encoding of one character.
pub open spec fn utf8_width(c: char) -> int {
    if (c as u32) < 0x80 {
        1
    } else if (c as u32) < 0x800 {
        2
    } else if (c as u32) < 0x10000 {
        3
    } else {
        4
    }
}

/// Number of bytes of the UTF-8 encoding of a text.
pub open spec fn utf8_len(s: Seq<char>) -> int
    decreases s.len(),
{
    if s.len() == 0 {
        0
    } else {
        utf8_len(s.drop_last()) + utf8_width(s.last())
    }
}

pub open spec fn is_digit(c: char) -> bool {
    '0' <= c && c <= '9'
}

pub open spec fn all_digits(s: Seq<char>) -> bool {
    forall|i: int| 0 <= i < s.len() ==> is_digit(#[trigger] s[i])
}

/// Value of a non-empty run of decimal digits.
pub open spec fn digits_value(s: Seq<char>) -> int
    decreases s.len(),
{
    if s.len() == 0 {
        0
    } else {
        digits_value(s.drop_last()) * 10 + ((s.last() as int) - 48)
    }
}

/// What `str::parse::<i32>` gives: an optional `+` or `-` sign followed by at least
/// one ASCII digit, and a value inside the range of `i32`.
pub open spec fn parsed_i32(s: Seq<char>) -> Option<i32> {
    let negative = s.len() > 0 && s[0] == '-';
    let body = if s.len() > 0 && (s[0] == '-' || s[0] == '+') {
        s.skip(1)
    } else {
        s
    };
    let value = if negative {
        -digits_value(body)
    } else {
        digits_value(body)
    };
    if body.len() == 0 || !all_digits(body) || value < i32::MIN || value > i32::MAX {
        None
    } else {
        Some(value as i32)
    }
}

/// Name for what `str::to_uppercase` returns (Unicode upper-case mapping).
pub uninterp spec fn upper_cased(s: Seq<char>) -> Seq<char>;

/// Name for what `str::to_lowercase` returns (Unicode lower-case mapping).
pub uninterp spec fn lower_cased(s: Seq<char>) -> Seq<char>;

// ------------------------------------------------------------------
// Lemmas
// ------------------------------------------------------------------

pub proof fn lemma_utf8_len_concat(a: Seq<char>, b: Seq<char>)
    ensures
        utf8_len(a + b) == utf8_len(a) + utf8_len(b),
    decreases b.len(),
{
    if b.len() == 0 {
        assert(a + b =~= a);
    } else {
        assert((a + b).drop_last() =~= a + b.drop_last());
        assert((a + b).last() == b.last());
        lemma_utf8_len_concat(a, b.drop_last());
    }
}

pub proof fn lemma_utf8_len_bounds(s: Seq<char>)
    ensures
        s.len() <= utf8_len(s) <= 4 * s.len(),
    decreases s.len(),
{
    if s.len() > 0 {
        lemma_utf8_len_bounds(s.drop_last());
    }
}

proof fn lemma_replaced_short(s: Seq<char>, from: Seq<char>, to: Seq<char>)
    requires
        from.len() > 0,
        s.len() < from.len(),
    ensures
        replaced(s, from, to) == s,
{
}

/// After replacing the character `c` by `to`, a character occurs only if it came from
/// `s` and is not `c`, or if it occurs in `to`.
pub proof fn lemma_replaced_char_source(s: Seq<char>, c: char, to: Seq<char>, x: char)
    requires
        replaced(s, seq![c], to).contains(x),
    ensures
        (x != c && s.contains(x)) || to.contains(x),
    decreases s.len(),
{
    let r = replaced(s, seq![c], to);
    let i = choose|i: int| 0 <= i < r.len() && r[i] == x;
    if s.len() >= 1 {
        let tail = replaced(s.skip(1), seq![c], to);
        if s.take(1) == seq![c] {
            assert(r == to + tail);
            if i < to.len() {
                assert(to[i] == x);
            } else {
                assert(tail[i - to.len()] == x);
                lemma_replaced_char_source(s.skip(1), c, to, x);
                if x != c && s.skip(1).contains(x) {
                    let j = choose|j: int| 0 <= j < s.skip(1).len() && s.skip(1)[j] == x;
                    assert(s[j + 1] == x);
                }
            }
        } else {
            assert(r == seq![s[0]] + tail);
            if i == 0 {
                assert(s[0] == x);
                assert(s.take(1) =~= seq![s[0]]);
            } else {
                assert(tail[i - 1] == x);
                lemma_replaced_char_source(s.skip(1), c, to, x);
                if x != c && s.skip(1).contains(x) {
                    let j = choose|j: int| 0 <= j < s.skip(1).len() && s.skip(1)[j] == x;
                    assert(s[j + 1] == x);
                }
            }
        }
    }
}

/// Doubling a character and then collapsing its doubled occurrences gives the text back.
pub proof fn lemma_double_then_collapse(s: Seq<char>, c: char)
    ensures
        replaced(replaced(s, seq![c], seq![c, c]), seq![c, c], seq![c]) == s,
    decreases s.len(),
{
    let q = seq![c];
    let qq = seq![c, c];
    if s.len() >= 1 {
        let r1 = replaced(s, q, qq);
        let rest = replaced(s.skip(1), q, qq);
        lemma_double_then_collapse(s.skip(1), c);
        if s.take(1) == q {
            assert(r1 == qq + rest);
            assert(r1.take(2) =~= qq);
            assert(r1.skip(2) =~= rest);
            assert(s =~= q + s.skip(1)) by {
                assert(s[0] == s.take(1)[0]);
            }
        } else {
            assert(s[0] != c) by {
                if s[0] == c {
                    assert(s.take(1) =~= q);
                }
            }
            assert(r1 == seq![s[0]] + rest);
            if r1.len() >= 2 {
                assert(r1.take(2)[0] != c);
                assert(r1.take(2) != qq);
                assert(r1.skip(1) =~= rest);
            } else {
                assert(rest.len() == 0);
                assert(replaced(rest, qq, q) == rest);
                assert(r1 =~= seq![s[0]]);
            }
            assert(s =~= seq![s[0]] + s.skip(1));
        }
    }
}

// ------------------------------------------------------------------
// Executable helpers
// ------------------------------------------------------------------

/// Whether `pat` occurs in `s` at character position `i`.
pub fn occurs_at_exec(s: &str, pat: &str, i: usize) -> (r: bool)
    ensures
        r == occurs_at(s@, pat@, i as int),
{
    let n = s.unicode_len();
    let m = pat.unicode_len();
    if i > n || m > n - i {
        return false;
    }
    let mut k: usize = 0;
    while k < m
        invariant
            n == s@.len(),
            m == pat@.len(),
            i + m <= n,
            k <= m,
            forall|j: int| 0 <= j < k ==> s@[i + j] == pat@[j],
        decreases m - k,
    {
        if s.get_char(i + k) != pat.get_char(k) {
            assert(s@.subrange(i as int, i + m)[k as int] != pat@[k as int]);
            return false;
        }
        k = k + 1;
    }
    assert(s@.subrange(i as int, i + m) =~= pat@);
    true
}

/// `a == b` on texts.
pub fn str_eq(a: &str, b: &str) -> (r: bool)
    ensures
        r == (a@ == b@),
{
    let n = a.unicode_len();
    let m = b.unicode_len();
    if n != m {
        return false;
    }
    let r = occurs_at_exec(a, b, 0);
    proof {
        assert(a@.subrange(0, m as int) =~= a@);
    }
    r
}

pub fn starts_with_exec(s: &str, prefix: &str) -> (r: bool)
    ensures
        r == starts_with(s@, prefix@),
{
    let r = occurs_at_exec(s, prefix, 0);
    proof {
        if prefix@.len() <= s@.len() {
            assert(s@.subrange(0, prefix@.len() as int) =~= s@.take(prefix@.len() as int));
        }
    }
    r
}

pub fn ends_with_exec(s: &str, suffix: &str) -> (r: bool)
    ensures
        r == ends_with(s@, suffix@),
{
    let n = s.unicode_len();
    let m = suffix.unicode_len();
    if m > n {
        return false;
    }
    let r = occurs_at_exec(s, suffix, n - m);
    proof {
        assert(s@.subrange((n - m) as int, n as int) =~= s@.skip(s@.len() - suffix@.len()));
    }
    r
}

pub fn contains_exec(s: &str, pat: &str) -> (r: bool)
    ensures
        r == contains_text(s@, pat@),
{
    let n = s.unicode_len();
    let mut i: usize = 0;
    while i < n
        invariant
            n == s@.len(),
            i <= n,
            forall|j: int| 0 <= j < i ==> !occurs_at(s@, pat@, j),
        decreases n - i,
    {
        if occurs_at_exec(s, pat, i) {
            return true;
        }
        i = i + 1;
    }
    if occurs_at_exec(s, pat, n) {
        return true;
    }
    assert forall|j: int| !occurs_at(s@, pat@, j) by {
        if occurs_at(s@, pat@, j) {
            assert(j < n || j == n);
        }
    }
    false
}

/// `str::replace`: every leftmost, non-overlapping occurrence of `from` replaced by `to`.
pub fn replace_all(s: &str, from: &str, to: &str) -> (r: String)
    requires
        from@.len() > 0,
    ensures
        r@ == replaced(s@, from@, to@),
{
    let n = s.unicode_len();
    let m = from.unicode_len();
    let mut out = String::new();
    let mut i: usize = 0;
    proof {
        assert(s@.skip(0) =~= s@);
        assert(out@ + replaced(s@, from@, to@) =~= replaced(s@, from@, to@));
    }
    while i < n
        invariant
            n == s@.len(),
            m == from@.len(),
            m > 0,
            i <= n,
            out@ + replaced(s@.skip(i as int), from@, to@) == replaced(s@, from@, to@),
        decreases n - i,
    {
        let ghost rest = s@.skip(i as int);
        if occurs_at_exec(s, from, i) {
            proof {
                assert(rest.take(m as int) =~= s@.subrange(i as int, i + m));
                assert(rest.skip(m as int) =~= s@.skip(i + m));
                assert(replaced(rest, from@, to@) == to@ + replaced(s@.skip(i + m), from@, to@));
                assert((out@ + to@) + replaced(s@.skip(i + m), from@, to@) =~= out@ + (to@
                    + replaced(s@.skip(i + m), from@, to@)));
            }
            out.append(to);
            i = i + m;
        } else {
            let c = s.get_char(i);
            proof {
                if rest.len() >= from@.len() {
                    assert(rest.take(m as int) =~= s@.subrange(i as int, i + m));
                    assert(rest.skip(1) =~= s@.skip(i + 1));
                    assert(replaced(rest, from@, to@) == seq![c] + replaced(
                        s@.skip(i + 1),
                        from@,
                        to@,
                    ));
                } else {
                    assert(replaced(rest, from@, to@) == rest);
                    assert(rest.skip(1).len() < from@.len());
                    lemma_replaced_short(rest.skip(1), from@, to@);
                    assert(rest =~= seq![c] + rest.skip(1));
                    assert(rest.skip(1) =~= s@.skip(i + 1));
                }
                assert(out@.push(c) + replaced(s@.skip(i + 1), from@, to@) =~= out@ + (seq![c]
                    + replaced(s@.skip(i + 1), from@, to@)));
            }
            out.push(c);
            i = i + 1;
        }
    }
    proof {
        assert(s@.skip(n as int) =~= Seq::<char>::empty());
        assert(out@ + Seq::<char>::empty() =~= out@);
    }
    out
}

/// The decimal digit character of `d` (0..=9), as code.
pub fn digit_of(d: u64) -> (c: char)
    requires
        d < 10,
    ensures
        c == digit_char(d as int),
{
    let b: u8 = (d as u8) + 48;
    b as char
}

/// Decimal notation of an unsigned integer (what `u64`'s `Display` writes).
pub fn u64_decimal(n: u64) -> (r: String)
    ensures
        r@ == decimal(n as nat),
    decreases n,
{
    if n < 10 {
        let mut s = String::new();
        s.push(digit_of(n));
        s
    } else {
        let mut s = u64_decimal(n / 10);
        s.push(digit_of(n % 10));
        s
    }
}

/// Decimal notation of a signed integer (what `i64`'s `Display` writes).
pub fn i64_decimal(n: i64) -> (r: String)
    ensures
        r@ == signed_decimal(n as int),
{
    if n < 0 {
        let magnitude: u64 = if n == i64::MIN {
            9_223_372_036_854_775_808u64
        } else {
            (-n) as u64
        };
        let digits = u64_decimal(magnitude);
        let mut s = String::new();
        s.push('-');
        s.append(digits.as_str());
        s
    } else {
        u64_decimal(n as u64)
    }
}

proof fn lemma_digits_value_nonneg(s: Seq<char>)
    requires
        all_digits(s),
    ensures
        digits_value(s) >= 0,
    decreases s.len(),
{
    if s.len() > 0 {
        assert(is_digit(s[s.len() - 1]));
        assert forall|i: int| 0 <= i < s.drop_last().len() implies is_digit(
            #[trigger] s.drop_last()[i],
        ) by {
            assert(s.drop_last()[i] == s[i]);
        }
        lemma_digits_value_nonneg(s.drop_last());
    }
}

proof fn lemma_digits_value_prefix(s: Seq<char>, k: int)
    requires
        all_digits(s),
        0 <= k <= s.len(),
    ensures
        digits_value(s.take(k)) <= digits_value(s),
    decreases s.len() - k,
{
    if k < s.len() {
        let t = s.take(k + 1);
        assert(t.drop_last() =~= s.take(k));
        assert(is_digit(s[k]));
        assert(t.last() == s[k]);
        assert forall|i: int| 0 <= i < s.take(k).len() implies is_digit(#[trigger] s.take(k)[i]) by {
            assert(s.take(k)[i] == s[i]);
        }
        lemma_digits_value_nonneg(s.take(k));
        lemma_digits_value_prefix(s, k + 1);
    } else {
        assert(s.take(k) =~= s);
    }
}

proof fn lemma_digits_step(body: Seq<char>, k: int)
    requires
        0 <= k < body.len(),
        all_digits(body.take(k)),
        is_digit(body[k]),
    ensures
        all_digits(body.take(k + 1)),
        digits_value(body.take(k + 1)) == digits_value(body.take(k)) * 10 + ((body[k] as int)
            - 48),
{
    let prev = body.take(k);
    let next = body.take(k + 1);
    assert(next.drop_last() =~= prev);
    assert(next.last() == body[k]);
    assert forall|j: int| 0 <= j < next.len() implies is_digit(#[trigger] next[j]) by {
        if j < prev.len() {
            assert(next[j] == prev[j]);
        }
    }
}

/// `str::parse::<i32>`.
pub fn parse_i32(s: &str) -> (r: Option<i32>)
    ensures
        r == parsed_i32(s@),
{
    let n = s.unicode_len();
    if n == 0 {
        return None;
    }
    let first = s.get_char(0);
    let negative = first == '-';
    let start: usize = if first == '-' || first == '+' {
        1
    } else {
        0
    };
    let ghost body = s@.skip(start as int);
    assert(s@.skip(0) =~= s@);
    assert(body == (if s@[0] == '-' || s@[0] == '+' {
        s@.skip(1)
    } else {
        s@
    }));
    assert(negative == (s@.len() > 0 && s@[0] == '-'));
    if start == n {
        assert(body.len() == 0);
        return None;
    }
    let mut acc: i64 = 0;
    let mut i: usize = start;
    while i < n
        invariant
            n == s@.len(),
            start <= i <= n,
            body == s@.skip(start as int),
            body == (if s@[0] == '-' || s@[0] == '+' {
                s@.skip(1)
            } else {
                s@
            }),
            negative == (s@.len() > 0 && s@[0] == '-'),
            0 <= acc <= 2147483648,
            all_digits(body.take(i - start)),
            acc == digits_value(body.take(i - start)),
        decreases n - i,
    {
        let c = s.get_char(i);
        assert(body[i - start] == c);
        if !('0' <= c && c <= '9') {
            assert(!is_digit(body[i - start]));
            assert(!all_digits(body));
            return None;
        }
        let d: i64 = ((c as u32) - 48) as i64;
        proof {
            lemma_digits_step(body, (i - start) as int);
        }
        acc = acc * 10 + d;
        i = i + 1;
        if acc > 2147483648 {
            proof {
                if all_digits(body) {
                    lemma_digits_value_prefix(body, i - start);
                }
            }
            return None;
        }
    }
    assert(body.take(n - start) =~= body);
    if negative {
        Some((-acc) as i32)
    } else if acc > 2147483647 {
        None
    } else {
        Some(acc as i32)
    }
}

/// `parts.join(sep)`.
pub fn join(parts: &Vec<String>, sep: &str) -> (r: String)
    ensures
        r@ == joined(crate::model::texts_of(parts@), sep@),
{
    let ghost all = crate::model::texts_of(parts@);
    let mut out = String::new();
    let n = parts.len();
    let mut i: usize = 0;
    while i < n
        invariant
            n == parts@.len(),
            i <= n,
            all == crate::model::texts_of(parts@),
            out@ == joined(all.take(i as int), sep@),
        decreases n - i,
    {
        assert(all.take(i + 1).drop_last() =~= all.take(i as int));
        assert(all.take(i + 1).last() == parts@[i as int]@);
        if i > 0 {
            out.append(sep);
        } else {
            assert(all.take(0) =~= Seq::<Seq<char>>::empty());
            assert(out@ =~= Seq::<char>::empty());
        }
        out.append(parts[i].as_str());
        if i == 0 {
            assert(out@ =~= parts@[0]@);
        }
        i = i + 1;
    }
    assert(all.take(n as int) =~= all);
    if n == 0 {
        assert(all.take(0) =~= Seq::<Seq<char>>::empty());
    }
    out
}

/// A text of ASCII characters only.
pub open spec fn is_ascii_text(s: Seq<char>) -> bool {
    forall|i: int| 0 <= i < s.len() ==> (#[trigger] s[i] as u32) < 0x80
}

pub open spec fn ascii_upper_char(c: char) -> char {
    if 'a' <= c && c <= 'z' {
        ((c as u32) - 32) as char
    } else {
        c
    }
}

/// `s` with `a`..`z` in upper case.
pub open spec fn ascii_upper_text(s: Seq<char>) -> Seq<char> {
    s.map_values(|c: char| ascii_upper_char(c))
}

/// `s` with `A`..`Z` in lower case.
pub open spec fn ascii_lower_text(s: Seq<char>) -> Seq<char> {
    s.map_values(|c: char| ascii_lower_char(c))
}

pub open spec fn ascii_lower_char(c: char) -> char {
    if 'A' <= c && c <= 'Z' {
        ((c as u32) + 32) as char
    } else {
        c
    }
}

/// Calls `str::to_uppercase`: the Unicode upper-case mapping of `s`, named; on ASCII
/// text it maps `a`..`z` to `A`..`Z` and keeps every other character, as std's
/// documentation of the mapping on ASCII shows.
#[verifier::external_body]
pub(crate) fn to_upper(s: &str) -> (r: String)
    ensures
        r@ == upper_cased(s@),
        is_ascii_text(s@) ==> r@ == ascii_upper_text(s@),
{
    s.to_uppercase()
}

/// Calls `str::to_lowercase`: the Unicode lower-case mapping of `s`, named; on ASCII
/// text it maps `A`..`Z` to `a`..`z` and keeps every other character.
#[verifier::external_body]
pub(crate) fn to_lower(s: &str) -> (r: String)
    ensures
        r@ == lower_cased(s@),
        is_ascii_text(s@) ==> r@ == ascii_lower_text(s@),
{
    s.to_lowercase()
}

} // verus!
