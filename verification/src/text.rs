//! Character-level string helpers shared by the parsers and formatters.

use vstd::prelude::*;
use vstd::string::*;

verus! {

/// What `str::to_lowercase` gives for a string: its Unicode lowercase form.
pub uninterp spec fn unicode_lowercase(s: Seq<char>) -> Seq<char>;

/// Calls `str::to_lowercase`; the result is named by `unicode_lowercase`,
/// the Unicode tables being left unstated.
#[verifier::external_body]
pub fn to_lowercase(s: &str) -> (r: String)
    ensures
        r@ == unicode_lowercase(s@),
{
    s.to_lowercase()
}

/// What `char::to_uppercase` gives for a character: its Unicode uppercase
/// form, one or more characters.
pub uninterp spec fn unicode_uppercase_char(c: char) -> Seq<char>;

/// Calls `char::to_uppercase` and collects the characters it yields; the
/// Unicode tables are named by `unicode_uppercase_char`.
#[verifier::external_body]
pub fn char_to_uppercase(c: char) -> (r: String)
    ensures
        r@ == unicode_uppercase_char(c),
{
    c.to_uppercase().collect::<String>()
}

/// Calls `String::push`, which appends one character.
#[verifier::external_body]
pub(crate) fn push_char(s: &mut String, c: char)
    ensures
        final(s)@ == old(s)@.push(c),
{
    s.push(c)
}

/// The view of an optional string.
pub open spec fn option_view(o: Option<&str>) -> Option<Seq<char>> {
    match o {
        Some(s) => Some(s@),
        None => None,
    }
}

/// The characters of `s`, in order.
pub fn chars_of(s: &str) -> (v: Vec<char>)
    ensures
        v@ == s@,
{
    let n = s.unicode_len();
    let mut v: Vec<char> = Vec::new();
    let mut i: usize = 0;
    while i < n
        invariant
            n == s@.len(),
            i <= n,
            v@ == s@.take(i as int),
        decreases n - i,
    {
        let c = s.get_char(i);
        v.push(c);
        i += 1;
        assert(v@ =~= s@.take(i as int));
    }
    assert(v@ =~= s@);
    v
}

/// Whether two strings hold the same characters.
pub fn str_eq(a: &str, b: &str) -> (r: bool)
    ensures
        r == (a@ == b@),
{
    let x = chars_of(a);
    let y = chars_of(b);
    if x.len() != y.len() {
        return false;
    }
    let mut i: usize = 0;
    while i < x.len()
        invariant
            x@ == a@,
            y@ == b@,
            x.len() == y.len(),
            i <= x.len(),
            forall|j: int| 0 <= j < i ==> x@[j] == y@[j],
        decreases x.len() - i,
    {
        if x[i] != y[i] {
            return false;
        }
        i += 1;
    }
    assert(x@ =~= y@);
    true
}

/// `t` is a suffix of `s`.
pub open spec fn is_suffix(s: Seq<char>, t: Seq<char>) -> bool {
    t.len() <= s.len() && s.subrange(s.len() - t.len(), s.len() as int) == t
}

/// Whether `s` ends with `suffix` (as `str::ends_with` with a string pattern).
pub fn ends_with(s: &str, suffix: &str) -> (r: bool)
    ensures
        r == is_suffix(s@, suffix@),
{
    let x = chars_of(s);
    let y = chars_of(suffix);
    if y.len() > x.len() {
        return false;
    }
    let off = x.len() - y.len();
    let mut i: usize = 0;
    while i < y.len()
        invariant
            x@ == s@,
            y@ == suffix@,
            off == x.len() - y.len(),
            i <= y.len(),
            forall|j: int| 0 <= j < i ==> x@[off + j] == y@[j],
        decreases y.len() - i,
    {
        if x[off + i] != y[i] {
            return false;
        }
        i += 1;
    }
    assert(s@.subrange(s@.len() - suffix@.len(), s@.len() as int) =~= suffix@);
    true
}

/// Index of the first occurrence of `c` in `s`, if any.
pub open spec fn first_index_of(s: Seq<char>, c: char) -> Option<int> {
    if exists|i: int| 0 <= i < s.len() && s[i] == c && forall|j: int| 0 <= j < i ==> s[j] != c {
        Some(choose|i: int| 0 <= i < s.len() && s[i] == c && forall|j: int| 0 <= j < i ==> s[j] != c)
    } else {
        None
    }
}

/// Position of the first `c` in `s`.
pub fn find_char(s: &str, c: char) -> (r: Option<usize>)
    ensures
        match r {
            Some(i) => i < s@.len() && s@[i as int] == c && forall|j: int| 0 <= j < i ==> s@[j] != c,
            None => forall|j: int| 0 <= j < s@.len() ==> s@[j] != c,
        },
        r matches Some(i) ==> first_index_of(s@, c) == Some(i as int),
        r is None ==> first_index_of(s@, c) is None,
{
    let x = chars_of(s);
    let mut i: usize = 0;
    while i < x.len()
        invariant
            x@ == s@,
            i <= x.len(),
            forall|j: int| 0 <= j < i ==> x@[j] != c,
        decreases x.len() - i,
    {
        if x[i] == c {
            proof {
                assert(s@[i as int] == c);
                assert(forall|j: int| 0 <= j < i ==> s@[j] != c);
                let k = choose|k: int| 0 <= k < s@.len() && s@[k] == c && forall|j: int| 0 <= j < k ==> s@[j] != c;
                if k < i {
                    assert(s@[k] != c);
                }
                if k > i {
                    assert(s@[i as int] != c);
                }
            }
            return Some(i);
        }
        i += 1;
    }
    None
}

/// The characters of `s` from `from` to `to`, as a new string.
pub fn substring(s: &str, from: usize, to: usize) -> (r: String)
    requires
        from <= to <= s@.len(),
    ensures
        r@ == s@.subrange(from as int, to as int),
{
    let part = s.substring_char(from, to);
    String::from_str(part)
}

/// `s` with its first character in uppercase.
pub open spec fn spec_capitalize(s: Seq<char>) -> Seq<char> {
    if s.len() == 0 {
        Seq::empty()
    } else {
        unicode_uppercase_char(s[0]) + s.skip(1)
    }
}

/// Uppercases the first character of a string.
pub fn capitalize(s: &str) -> (r: String)
    ensures
        r@ == spec_capitalize(s@),
{
    let n = s.unicode_len();
    if n == 0 {
        return String::new();
    }
    let first = s.get_char(0);
    let mut out = char_to_uppercase(first);
    let rest = s.substring_char(1, n);
    out.append(rest);
    assert(s@.subrange(1, n as int) =~= s@.skip(1));
    out
}

/// Decimal digit character.
pub open spec fn is_digit(c: char) -> bool {
    '0' <= c && c <= '9'
}

/// Numeric value of a digit character.
pub open spec fn digit_value(c: char) -> nat {
    (c as int - '0' as int) as nat
}

/// Value of a sequence of decimal digits, most significant first.
pub open spec fn digits_value(s: Seq<char>) -> nat
    decreases s.len(),
{
    if s.len() == 0 {
        0
    } else {
        digits_value(s.drop_last()) * 10 + digit_value(s.last())
    }
}

/// Every character is a decimal digit.
pub open spec fn all_digits(s: Seq<char>) -> bool {
    forall|i: int| 0 <= i < s.len() ==> is_digit(#[trigger] s[i])
}

/// The digits of an unsigned integer literal: one leading `+` is dropped.
pub open spec fn unsigned_body(s: Seq<char>) -> Seq<char> {
    if s.len() > 0 && s[0] == '+' {
        s.drop_first()
    } else {
        s
    }
}

/// What std's `FromStr` for an unsigned integer type with largest value
/// `max` gives: an optional `+` then one or more decimal digits whose value
/// does not exceed `max`.
pub open spec fn spec_parse_unsigned(s: Seq<char>, max: nat) -> Option<nat> {
    let body = unsigned_body(s);
    if body.len() > 0 && all_digits(body) && digits_value(body) <= max {
        Some(digits_value(body))
    } else {
        None
    }
}

proof fn lemma_digits_step(s: Seq<char>, i: int)
    requires
        0 <= i < s.len(),
    ensures
        digits_value(s.take(i + 1)) == digits_value(s.take(i)) * 10 + digit_value(s[i]),
{
    assert(s.take(i + 1).drop_last() =~= s.take(i));
}

/// Parses an unsigned decimal integer no greater than `max`.
pub fn parse_unsigned(s: &str, max: u64) -> (r: Option<u64>)
    ensures
        match spec_parse_unsigned(s@, max as nat) {
            Some(v) => r == Some(v as u64),
            None => r is None,
        },
{
    let x = chars_of(s);
    let start: usize = if x.len() > 0 && x[0] == '+' { 1 } else { 0 };
    let ghost body = unsigned_body(s@);
    assert(body =~= x@.subrange(start as int, x@.len() as int));
    if start >= x.len() {
        return None;
    }
    let mut acc: u64 = 0;
    let mut over = false;
    let mut i: usize = start;
    while i < x.len()
        invariant
            x@ == s@,
            start <= i <= x.len(),
            body == x@.subrange(start as int, x@.len() as int),
            body == unsigned_body(s@),
            all_digits(body.take(i - start)),
            !over ==> acc == digits_value(body.take(i - start)) && acc <= max,
            over ==> digits_value(body.take(i - start)) > max,
        decreases x.len() - i,
    {
        let c = x[i];
        if c < '0' || c > '9' {
            assert(body[i - start] == c);
            assert(!all_digits(body));
            return None;
        }
        let d = (c as u32 - '0' as u32) as u64;
        proof {
            lemma_digits_step(body, i - start);
            assert(body[i - start] == c);
            assert(d == digit_value(c));
            assert(body.take(i - start + 1) =~= body.take(i - start).push(c));
        }
        let ghost prev = digits_value(body.take(i - start));
        if over {
            assert(prev * 10 + d > max) by (nonlinear_arith)
                requires prev > max, d >= 0;
        } else {
            let limit = (0xffff_ffff_ffff_ffffu64 - d) / 10;
            if acc > limit {
                assert(acc * 10 + d > 0xffff_ffff_ffff_ffffu64) by (nonlinear_arith)
                    requires acc > limit, limit == (0xffff_ffff_ffff_ffffu64 - d) / 10, d <= 9;
                over = true;
            } else {
                assert(acc * 10 + d <= 0xffff_ffff_ffff_ffffu64) by (nonlinear_arith)
                    requires acc <= limit, limit == (0xffff_ffff_ffff_ffffu64 - d) / 10, d <= 9;
                let next = acc * 10 + d;
                if next > max {
                    over = true;
                } else {
                    acc = next;
                }
            }
        }
        i += 1;
    }
    assert(body.take(i - start) =~= body);
    if over {
        None
    } else {
        Some(acc)
    }
}

/// Digit character for a value below ten.
pub open spec fn digit_char(d: nat) -> char {
    ((d + '0' as nat) as u32) as char
}

/// Decimal representation of `n`, without leading zeros.
pub open spec fn spec_decimal(n: nat) -> Seq<char>
    decreases n,
{
    if n < 10 {
        seq![digit_char(n)]
    } else {
        spec_decimal(n / 10).push(digit_char(n % 10))
    }
}

fn digit_to_char(d: u64) -> (c: char)
    requires
        d < 10,
    ensures
        c == digit_char(d as nat),
{
    if d == 0 { '0' }
    else if d == 1 { '1' }
    else if d == 2 { '2' }
    else if d == 3 { '3' }
    else if d == 4 { '4' }
    else if d == 5 { '5' }
    else if d == 6 { '6' }
    else if d == 7 { '7' }
    else if d == 8 { '8' }
    else { '9' }
}

/// Appends the decimal representation of `n` to `out`.
pub fn push_decimal(out: &mut String, n: u64)
    ensures
        final(out)@ == old(out)@ + spec_decimal(n as nat),
    decreases n,
{
    if n < 10 {
        push_char(out, digit_to_char(n));
        assert(spec_decimal(n as nat) =~= seq![digit_char(n as nat)]);
    } else {
        push_decimal(out, n / 10);
        push_char(out, digit_to_char(n % 10));
        assert(old(out)@ + spec_decimal(n as nat) =~= old(out)@ + spec_decimal((n / 10) as nat) + seq![digit_char((n % 10) as nat)]);
    }
}

proof fn lemma_decimal_digits(n: nat)
    ensures
        spec_decimal(n).len() > 0,
        all_digits(spec_decimal(n)),
        digits_value(spec_decimal(n)) == n,
    decreases n,
{
    if n < 10 {
        let d = spec_decimal(n);
        assert(d =~= seq![digit_char(n)]);
        assert(d.drop_last() =~= Seq::<char>::empty());
        assert(digits_value(d.drop_last()) == 0);
        assert(d.last() == digit_char(n));
        assert(digit_value(digit_char(n)) == n);
        assert(digits_value(d) == digits_value(d.drop_last()) * 10 + digit_value(d.last()));
    } else {
        lemma_decimal_digits(n / 10);
        let d = spec_decimal(n);
        let prefix = spec_decimal(n / 10);
        assert(d == prefix.push(digit_char(n % 10)));
        assert(d.drop_last() =~= prefix);
        assert(digit_value(digit_char(n % 10)) == n % 10);
        assert(d.last() == digit_char(n % 10));
        assert(digits_value(d) == digits_value(prefix) * 10 + digit_value(d.last()));
        assert((n / 10) * 10 + n % 10 == n);
        assert forall|i: int| 0 <= i < d.len() implies is_digit(#[trigger] d[i]) by {
            if i < prefix.len() {
                assert(d[i] == prefix[i]);
            }
        }
    }
}

/// Reading back the decimal representation of a number gives the number,
/// when it does not exceed the largest value accepted.
pub proof fn lemma_parse_decimal_roundtrip(n: nat, max: nat)
    requires
        n <= max,
    ensures
        spec_parse_unsigned(spec_decimal(n), max) == Some(n),
{
    lemma_decimal_digits(n);
    let d = spec_decimal(n);
    assert(is_digit(d[0]));
    assert(unsigned_body(d) == d);
}

} // verus!
