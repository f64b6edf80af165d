//! Character-level text handling: trimming, case folding, searching and
//! number formatting, each stated over the characters of the text.

use vstd::prelude::*;

verus! {

/// What `char::is_whitespace` answers for a character: membership of the
/// Unicode `White_Space` property, which holds these code points.
pub open spec fn is_white_space(c: char) -> bool {
    let u = c as int;
    ||| 0x09 <= u <= 0x0D
    ||| u == 0x20
    ||| u == 0x85
    ||| u == 0xA0
    ||| u == 0x1680
    ||| 0x2000 <= u <= 0x200A
    ||| u == 0x2028
    ||| u == 0x2029
    ||| u == 0x202F
    ||| u == 0x205F
    ||| u == 0x3000
}

/// `char::is_whitespace`: whether the character has the Unicode
/// `White_Space` property.
#[verifier::external_body]
fn char_is_whitespace(c: char) -> (r: bool)
    ensures
        r == is_white_space(c),
{
    c.is_whitespace()
}

/// The text with its leading and trailing white space removed: the shortest
/// run of `s` whose outside consists of white space alone.
pub open spec fn trimmed(s: Seq<char>) -> Seq<char> {
    let start = leading_white_space(s);
    let end = s.len() - trailing_white_space(s.subrange(start, s.len() as int));
    s.subrange(start, end)
}

/// How many white-space characters `s` begins with.
pub open spec fn leading_white_space(s: Seq<char>) -> int
    decreases s.len(),
{
    if s.len() > 0 && is_white_space(s[0]) {
        1 + leading_white_space(s.drop_first())
    } else {
        0
    }
}

/// How many white-space characters `s` ends with.
pub open spec fn trailing_white_space(s: Seq<char>) -> int
    decreases s.len(),
{
    if s.len() > 0 && is_white_space(s.last()) {
        1 + trailing_white_space(s.drop_last())
    } else {
        0
    }
}

/// The characters of `s`, one by one.
pub fn chars_of(s: &str) -> (v: Vec<char>)
    ensures
        v@ == s@,
{
    let mut v: Vec<char> = Vec::new();
    for c in it: s.chars()
        invariant
            v@ == it.seq().take(it.index() as int),
    {
        v.push(c);
    }
    v
}

proof fn lemma_leading_white_space(s: Seq<char>, k: int)
    requires
        0 <= k <= s.len(),
        forall|i: int| 0 <= i < k ==> is_white_space(#[trigger] s[i]),
        k == s.len() || !is_white_space(s[k]),
    ensures
        leading_white_space(s) == k,
    decreases k,
{
    if k > 0 {
        lemma_leading_white_space(s.drop_first(), k - 1);
    }
}

proof fn lemma_trailing_white_space(s: Seq<char>, k: int)
    requires
        0 <= k <= s.len(),
        forall|i: int| s.len() - k <= i < s.len() ==> is_white_space(#[trigger] s[i]),
        k == s.len() || !is_white_space(s[s.len() - k - 1]),
    ensures
        trailing_white_space(s) == k,
    decreases k,
{
    if k > 0 {
        assert(is_white_space(s[s.len() - 1]));
        lemma_trailing_white_space(s.drop_last(), k - 1);
    }
}

proof fn lemma_leading_bounds(s: Seq<char>)
    ensures
        0 <= leading_white_space(s) <= s.len(),
        forall|i: int| 0 <= i < leading_white_space(s) ==> is_white_space(#[trigger] s[i]),
        leading_white_space(s) < s.len() ==> !is_white_space(s[leading_white_space(s)]),
    decreases s.len(),
{
    if s.len() > 0 && is_white_space(s[0]) {
        let t = s.drop_first();
        lemma_leading_bounds(t);
        assert forall|i: int| 0 <= i < leading_white_space(s) implies is_white_space(
            #[trigger] s[i],
        ) by {
            if i > 0 {
                assert(s[i] == t[i - 1]);
            }
        }
        if leading_white_space(s) < s.len() {
            assert(s[leading_white_space(s)] == t[leading_white_space(t)]);
        }
    }
}

proof fn lemma_trailing_bounds(s: Seq<char>)
    ensures
        0 <= trailing_white_space(s) <= s.len(),
        forall|i: int|
            s.len() - trailing_white_space(s) <= i < s.len() ==> is_white_space(#[trigger] s[i]),
        trailing_white_space(s) < s.len() ==> !is_white_space(
            s[s.len() - trailing_white_space(s) - 1],
        ),
    decreases s.len(),
{
    if s.len() > 0 && is_white_space(s.last()) {
        let t = s.drop_last();
        lemma_trailing_bounds(t);
        assert forall|i: int| s.len() - trailing_white_space(s) <= i < s.len() implies is_white_space(
            #[trigger] s[i],
        ) by {
            if i < s.len() - 1 {
                assert(s[i] == t[i]);
            }
        }
        if trailing_white_space(s) < s.len() {
            assert(s[s.len() - trailing_white_space(s) - 1] == t[t.len() - trailing_white_space(t)
                - 1]);
        }
    }
}

/// Trimmed text neither begins nor ends with white space: trimming it again
/// changes nothing, and when it is not empty its first and last characters
/// are not white space.
pub proof fn lemma_trimmed_is_trimmed(s: Seq<char>)
    ensures
        trimmed(trimmed(s)) == trimmed(s),
        trimmed(s).len() > 0 ==> !is_white_space(trimmed(s)[0]) && !is_white_space(
            trimmed(s).last(),
        ),
{
    let start = leading_white_space(s);
    lemma_leading_bounds(s);
    let rest = s.subrange(start, s.len() as int);
    lemma_trailing_bounds(rest);
    let t = trimmed(s);
    if t.len() > 0 {
        assert(t[0] == s[start]);
        assert(t.last() == rest[rest.len() - trailing_white_space(rest) - 1]);
        lemma_leading_white_space(t, 0);
        lemma_trailing_white_space(t.subrange(0, t.len() as int), 0);
        assert(t.subrange(0, t.len() as int) =~= t);
    } else {
        assert(trimmed(t) =~= t);
    }
}

/// Whether every character of `s` is white space.
pub open spec fn all_white_space(s: Seq<char>) -> bool {
    forall|i: int| 0 <= i < s.len() ==> is_white_space(#[trigger] s[i])
}

/// The trimmed text is the run `s[a..b]` where everything before `a` and
/// from `b` on is white space, and a non-empty run begins and ends with a
/// character that is not.
proof fn lemma_trim_span(s: Seq<char>) -> (ab: (int, int))
    ensures
        0 <= ab.0 <= ab.1 <= s.len(),
        trimmed(s) == s.subrange(ab.0, ab.1),
        forall|i: int| 0 <= i < ab.0 ==> is_white_space(#[trigger] s[i]),
        forall|i: int| ab.1 <= i < s.len() ==> is_white_space(#[trigger] s[i]),
        ab.0 < ab.1 ==> !is_white_space(s[ab.0]) && !is_white_space(s[ab.1 - 1]),
{
    let a = leading_white_space(s);
    lemma_leading_bounds(s);
    let rest = s.subrange(a, s.len() as int);
    lemma_trailing_bounds(rest);
    let t = trailing_white_space(rest);
    let b = s.len() - t;
    assert forall|i: int| b <= i < s.len() implies is_white_space(#[trigger] s[i]) by {
        assert(s[i] == rest[i - a]);
    }
    if a < b {
        assert(s[b - 1] == rest[rest.len() - t - 1]);
    }
    (a, b)
}

/// Any such span is the one trimming keeps.
proof fn lemma_trim_span_unique(s: Seq<char>, a: int, b: int)
    requires
        0 <= a <= b <= s.len(),
        forall|i: int| 0 <= i < a ==> is_white_space(#[trigger] s[i]),
        forall|i: int| b <= i < s.len() ==> is_white_space(#[trigger] s[i]),
        a < b ==> !is_white_space(s[a]) && !is_white_space(s[b - 1]),
    ensures
        trimmed(s) == s.subrange(a, b),
{
    let (a0, b0) = lemma_trim_span(s);
    if a < b {
        if a0 < a {
            assert(is_white_space(s[a0]));
        }
        if a < a0 {
            assert(is_white_space(s[a]));
        }
        if b0 < b {
            assert(is_white_space(s[b - 1]));
        }
        if b < b0 {
            assert(is_white_space(s[b0 - 1]));
        }
    } else if a0 < b0 {
        if a0 < a {
            assert(is_white_space(s[a0]));
        } else {
            assert(is_white_space(s[a0]));
        }
    }
    assert(trimmed(s) =~= s.subrange(a, b));
}

/// White space added before or after a text does not change what trimming
/// keeps of it.
pub proof fn lemma_trimmed_ignores_padding(before: Seq<char>, s: Seq<char>, after: Seq<char>)
    requires
        all_white_space(before),
        all_white_space(after),
    ensures
        trimmed(before + s + after) == trimmed(s),
{
    let (a, b) = lemma_trim_span(s);
    let t = before + s + after;
    let k = before.len() as int;
    assert forall|i: int| 0 <= i < k + a implies is_white_space(#[trigger] t[i]) by {
        if i < k {
            assert(t[i] == before[i]);
        } else {
            assert(t[i] == s[i - k]);
        }
    }
    assert forall|i: int| k + b <= i < t.len() implies is_white_space(#[trigger] t[i]) by {
        if i < k + s.len() {
            assert(t[i] == s[i - k]);
        } else {
            assert(t[i] == after[i - k - s.len()]);
        }
    }
    if a < b {
        assert(t[k + a] == s[a]);
        assert(t[k + b - 1] == s[b - 1]);
    }
    lemma_trim_span_unique(t, k + a, k + b);
    assert(t.subrange(k + a, k + b) =~= s.subrange(a, b));
}

/// `s` with its leading and trailing white space removed, as `str::trim`
/// does.
pub fn trim(s: &str) -> (r: &str)
    ensures
        r@ == trimmed(s@),
{
    let v = chars_of(s);
    let n = v.len();
    let mut start: usize = 0;
    while start < n && char_is_whitespace(v[start])
        invariant
            v@ == s@,
            n == v@.len(),
            start <= n,
            forall|i: int| 0 <= i < start ==> is_white_space(#[trigger] s@[i]),
        decreases n - start,
    {
        start = start + 1;
    }
    let mut end: usize = n;
    while end > start && char_is_whitespace(v[end - 1])
        invariant
            v@ == s@,
            n == v@.len(),
            start <= end <= n,
            forall|i: int| end <= i < n ==> is_white_space(#[trigger] s@[i]),
        decreases end - start,
    {
        end = end - 1;
    }
    proof {
        lemma_leading_white_space(s@, start as int);
        let rest = s@.subrange(start as int, n as int);
        assert forall|i: int| rest.len() - (n - end) <= i < rest.len() implies is_white_space(
            #[trigger] rest[i],
        ) by {
            assert(rest[i] == s@[start + i]);
        }
        if end > start {
            assert(rest[rest.len() - (n - end) - 1] == s@[end - 1]);
        }
        lemma_trailing_white_space(rest, (n - end) as int);
    }
    s.substring_char(start, end)
}

/// What `str::to_lowercase` produces for a text: its full Unicode lower-case
/// mapping.
pub uninterp spec fn lowercase(s: Seq<char>) -> Seq<char>;

/// `str::to_lowercase`; the result is the named lower-case mapping of `s`.
#[verifier::external_body]
pub(crate) fn to_lowercase(s: &str) -> (r: String)
    ensures
        r@ == lowercase(s@),
{
    s.to_lowercase()
}

/// `String::push`: appends one character.
#[verifier::external_body]
pub(crate) fn push_char(s: &mut String, c: char)
    ensures
        final(s)@ == old(s)@.push(c),
{
    s.push(c)
}

/// A new `String` holding the characters of `s`.
pub fn owned(s: &str) -> (r: String)
    ensures
        r@ == s@,
{
    String::from_str(s)
}

/// Whether two texts hold the same characters.
pub fn same_text(a: &str, b: &str) -> (r: bool)
    ensures
        r == (a@ == b@),
{
    let x = chars_of(a);
    let y = chars_of(b);
    if x.len() != y.len() {
        return false;
    }
    let mut i: usize = 0;
    while i < x.len()
        invariant
            x@ == a@,
            y@ == b@,
            x@.len() == y@.len(),
            i <= x@.len(),
            forall|j: int| 0 <= j < i ==> x@[j] == y@[j],
        decreases x.len() - i,
    {
        if x[i] != y[i] {
            return false;
        }
        i = i + 1;
    }
    assert(a@ =~= b@);
    true
}

/// Whether `pattern` occurs in `s` starting at character `at`.
pub open spec fn occurs_at(s: Seq<char>, pattern: Seq<char>, at: int) -> bool {
    &&& 0 <= at
    &&& at + pattern.len() <= s.len()
    &&& s.subrange(at, at + pattern.len()) == pattern
}

/// Whether `s` begins with `prefix`.
pub open spec fn has_prefix(s: Seq<char>, prefix: Seq<char>) -> bool {
    occurs_at(s, prefix, 0)
}

fn occurs_at_exec(s: &Vec<char>, pattern: &Vec<char>, at: usize) -> (r: bool)
    ensures
        r == occurs_at(s@, pattern@, at as int),
{
    if at > s.len() || pattern.len() > s.len() - at {
        return false;
    }
    let mut k: usize = 0;
    while k < pattern.len()
        invariant
            at + pattern@.len() <= s@.len(),
            s@.len() == s.len(),
            k <= pattern@.len(),
            forall|j: int| 0 <= j < k ==> s@[at + j] == pattern@[j],
        decreases pattern.len() - k,
    {
        if s[at + k] != pattern[k] {
            assert(s@.subrange(at as int, at + pattern@.len())[k as int] != pattern@[k as int]);
            return false;
        }
        k = k + 1;
    }
    assert(s@.subrange(at as int, at + pattern@.len()) =~= pattern@);
    true
}

/// Whether `s` begins with `prefix`, as `str::starts_with` answers it for a
/// text pattern.
pub fn starts_with(s: &str, prefix: &str) -> (r: bool)
    ensures
        r == has_prefix(s@, prefix@),
{
    let x = chars_of(s);
    let p = chars_of(prefix);
    occurs_at_exec(&x, &p, 0)
}

/// The position of the first occurrence of `pattern` in `s`, counted in
/// characters, or `None` when it does not occur.
pub fn find(s: &str, pattern: &str) -> (r: Option<usize>)
    ensures
        match r {
            Some(i) => occurs_at(s@, pattern@, i as int) && forall|j: int|
                0 <= j < i ==> !occurs_at(s@, pattern@, j),
            None => forall|j: int| !occurs_at(s@, pattern@, j),
        },
{
    let x = chars_of(s);
    let p = chars_of(pattern);
    if p.len() > x.len() {
        return None;
    }
    if p.len() == 0 {
        assert(s@.subrange(0, 0) =~= pattern@);
        return Some(0);
    }
    let last = x.len() - p.len();
    let mut at: usize = 0;
    while at <= last
        invariant
            x@ == s@,
            p@ == pattern@,
            last == x@.len() - p@.len(),
            p@.len() > 0,
            x@.len() == x.len(),
            at <= last + 1,
            forall|j: int| 0 <= j < at ==> !occurs_at(s@, pattern@, j),
        decreases last + 1 - at,
    {
        if occurs_at_exec(&x, &p, at) {
            return Some(at);
        }
        at = at + 1;
    }
    None
}

/// The text after the first occurrence of `separator`, as the second half
/// of `str::split_once`; `None` when the separator does not occur.
pub fn after_first<'a>(s: &'a str, separator: &str) -> (r: Option<&'a str>)
    ensures
        match r {
            Some(rest) => exists|i: int|
                occurs_at(s@, separator@, i) && (forall|j: int|
                    0 <= j < i ==> !occurs_at(s@, separator@, j)) && rest@ == s@.subrange(
                    i + separator@.len(),
                    s@.len() as int,
                ),
            None => forall|j: int| !occurs_at(s@, separator@, j),
        },
{
    match find(s, separator) {
        Some(i) => {
            let end = s.unicode_len();
            let start = i + separator.unicode_len();
            Some(s.substring_char(start, end))
        },
        None => None,
    }
}

/// Whether `c` is one of the digits `0` to `9`.
pub open spec fn is_digit(c: char) -> bool {
    48 <= c as int <= 57
}

/// The value of a run of decimal digits.
pub open spec fn digits_value(digits: Seq<char>) -> int
    decreases digits.len(),
{
    if digits.len() == 0 {
        0
    } else {
        digits_value(digits.drop_last()) * 10 + (digits.last() as int - 48)
    }
}

/// What `str::parse::<i64>` accepts: an optional `+` or `-` followed by one
/// or more decimal digits and nothing else, whose value fits in an `i64`.
pub open spec fn parsed_i64(s: Seq<char>) -> Option<i64> {
    let signed = s.len() > 0 && (s[0] == '-' || s[0] == '+');
    let digits = if signed {
        s.drop_first()
    } else {
        s
    };
    let magnitude = digits_value(digits);
    let value = if s.len() > 0 && s[0] == '-' {
        -magnitude
    } else {
        magnitude
    };
    if digits.len() == 0 || !(forall|i: int| 0 <= i < digits.len() ==> is_digit(#[trigger] digits[i])) {
        None
    } else if i64::MIN <= value <= i64::MAX {
        Some(value as i64)
    } else {
        None
    }
}

/// `str::parse::<i64>`, with its error as `None`. Its documentation: an
/// optional `+` or `-` sign followed by only digits; any other character,
/// white space included, and a value out of range, are errors.
#[verifier::external_body]
pub(crate) fn parse_i64(s: &str) -> (r: Option<i64>)
    ensures
        r == parsed_i64(s@),
{
    s.parse::<i64>().ok()
}

/// The decimal digit character for `d`.
pub open spec fn digit_char(d: nat) -> char {
    (d + 48) as char
}

/// The decimal numeral of `n`, most significant digit first, without
/// leading zeros.
pub open spec fn decimal_nat(n: nat) -> Seq<char>
    decreases n,
{
    if n < 10 {
        seq![digit_char(n)]
    } else {
        decimal_nat(n / 10).push(digit_char(n % 10))
    }
}

/// The decimal numeral of `i`, with a leading `-` when it is negative, as
/// integers are displayed.
pub open spec fn decimal(i: int) -> Seq<char> {
    if i < 0 {
        seq!['-'] + decimal_nat((-i) as nat)
    } else {
        decimal_nat(i as nat)
    }
}

fn digit(d: u64) -> (c: char)
    requires
        d < 10,
    ensures
        c == digit_char(d as nat),
{
    let b: u8 = 48 + d as u8;
    b as char
}

/// Appends the decimal numeral of `n` to `out`.
pub fn push_decimal(out: &mut String, n: u64)
    ensures
        final(out)@ == old(out)@ + decimal_nat(n as nat),
    decreases n,
{
    if n >= 10 {
        push_decimal(out, n / 10);
    }
    push_char(out, digit(n % 10));
    proof {
        if n < 10 {
            assert(decimal_nat(n as nat) =~= seq![digit_char(n as nat)]);
        }
    }
    assert(final(out)@ =~= old(out)@ + decimal_nat(n as nat));
}

/// Appends the decimal numeral of `n`, with its sign, to `out`.
pub fn push_signed_decimal(out: &mut String, n: i64)
    ensures
        final(out)@ == old(out)@ + decimal(n as int),
{
    if n < 0 {
        push_char(out, '-');
        let magnitude: u64 = (0i128 - n as i128) as u64;
        push_decimal(out, magnitude);
        assert(final(out)@ =~= old(out)@ + decimal(n as int));
    } else {
        push_decimal(out, n as u64);
    }
}


/// A numeral is made of digits, and has at least one.
pub proof fn lemma_decimal_nat_digits(n: nat)
    ensures
        decimal_nat(n).len() >= 1,
        n >= 10 ==> decimal_nat(n).len() >= 2,
        forall|k: int| 0 <= k < decimal_nat(n).len() ==> is_digit(#[trigger] decimal_nat(n)[k]),
    decreases n,
{
    if n >= 10 {
        lemma_decimal_nat_digits(n / 10);
        let d = decimal_nat(n / 10);
        assert forall|k: int| 0 <= k < decimal_nat(n).len() implies is_digit(
            #[trigger] decimal_nat(n)[k],
        ) by {
            if k < d.len() {
                assert(decimal_nat(n)[k] == d[k]);
            }
        }
    }
}

/// A signed numeral is made of digits and perhaps a leading `-`.
pub proof fn lemma_decimal_chars(i: int)
    ensures
        decimal(i).len() >= 1,
        forall|k: int|
            0 <= k < decimal(i).len() ==> is_digit(#[trigger] decimal(i)[k]) || decimal(i)[k]
                == '-',
        is_digit(decimal(i).last()),
{
    if i < 0 {
        lemma_decimal_nat_digits((-i) as nat);
        let d = decimal_nat((-i) as nat);
        assert forall|k: int| 0 <= k < decimal(i).len() implies is_digit(
            #[trigger] decimal(i)[k],
        ) || decimal(i)[k] == '-' by {
            if k > 0 {
                assert(decimal(i)[k] == d[k - 1]);
            }
        }
        assert(decimal(i).last() == d.last());
    } else {
        lemma_decimal_nat_digits(i as nat);
    }
}

/// Different numbers have different numerals.
pub proof fn lemma_decimal_nat_injective(a: nat, b: nat)
    requires
        decimal_nat(a) == decimal_nat(b),
    ensures
        a == b,
    decreases a,
{
    lemma_decimal_nat_digits(a);
    lemma_decimal_nat_digits(b);
    if a >= 10 && b >= 10 {
        assert(decimal_nat(a).drop_last() =~= decimal_nat(a / 10));
        assert(decimal_nat(b).drop_last() =~= decimal_nat(b / 10));
        lemma_decimal_nat_injective(a / 10, b / 10);
        assert(decimal_nat(a).last() == digit_char(a % 10));
        assert(decimal_nat(b).last() == digit_char(b % 10));
    } else if a < 10 && b < 10 {
        assert(decimal_nat(a)[0] == digit_char(a));
        assert(decimal_nat(b)[0] == digit_char(b));
    }
}

/// Different integers have different signed numerals.
pub proof fn lemma_decimal_injective(a: int, b: int)
    requires
        decimal(a) == decimal(b),
    ensures
        a == b,
{
    lemma_decimal_nat_digits(if a < 0 { (-a) as nat } else { a as nat });
    lemma_decimal_nat_digits(if b < 0 { (-b) as nat } else { b as nat });
    if a < 0 && b < 0 {
        assert(decimal(a).drop_first() =~= decimal_nat((-a) as nat));
        assert(decimal(b).drop_first() =~= decimal_nat((-b) as nat));
        lemma_decimal_nat_injective((-a) as nat, (-b) as nat);
    } else if a >= 0 && b >= 0 {
        lemma_decimal_nat_injective(a as nat, b as nat);
    } else if a < 0 {
        assert(decimal(a)[0] == '-');
        assert(is_digit(decimal(b)[0]));
    } else {
        assert(decimal(b)[0] == '-');
        assert(is_digit(decimal(a)[0]));
    }
}

} // verus!
