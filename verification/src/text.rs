//! Character- and byte-level helpers shared by the parsers and formatters.
use vstd::prelude::*;

verus! {

/// The decimal digits of `n`, most significant first, without leading zeros
/// (`0` is rendered as a single `'0'`).
pub open spec fn decimal_chars(n: nat) -> Seq<char>
    decreases n,
{
    if n < 10 {
        seq![digit_char(n)]
    } else {
        decimal_chars(n / 10).push(digit_char(n % 10))
    }
}

pub open spec fn digit_char(d: nat) -> char {
    if d == 0 { '0' } else if d == 1 { '1' } else if d == 2 { '2' } else if d == 3 { '3' }
    else if d == 4 { '4' } else if d == 5 { '5' } else if d == 6 { '6' } else if d == 7 { '7' }
    else if d == 8 { '8' } else { '9' }
}

/// Appends the single character for decimal digit `d` to `s`.
pub fn push_digit(s: &mut String, d: u64)
    requires
        d < 10,
    ensures
        final(s)@ == old(s)@.push(digit_char(d as nat)),
{
    proof {
        reveal_strlit("0");
        reveal_strlit("1");
        reveal_strlit("2");
        reveal_strlit("3");
        reveal_strlit("4");
        reveal_strlit("5");
        reveal_strlit("6");
        reveal_strlit("7");
        reveal_strlit("8");
        reveal_strlit("9");
    }
    let lit = if d == 0 { "0" } else if d == 1 { "1" } else if d == 2 { "2" } else if d == 3 { "3" }
        else if d == 4 { "4" } else if d == 5 { "5" } else if d == 6 { "6" } else if d == 7 { "7" }
        else if d == 8 { "8" } else { "9" };
    s.append(lit);
}

/// The decimal rendering of a signed number: a `-` before the digits of a
/// negative one.
pub open spec fn signed_decimal_chars(n: int) -> Seq<char> {
    if n < 0 { seq!['-'] + decimal_chars((-n) as nat) } else { decimal_chars(n as nat) }
}

/// Appends the decimal rendering of `n` to `s`.
pub fn push_decimal(s: &mut String, n: u64)
    ensures
        final(s)@ == old(s)@ + decimal_chars(n as nat),
    decreases n,
{
    if n < 10 {
        push_digit(s, n);
        assert(decimal_chars(n as nat) == seq![digit_char(n as nat)]);
    } else {
        push_decimal(s, n / 10);
        push_digit(s, n % 10);
    }
}

} // verus!

verus! {

pub open spec fn ascii_lower(c: char) -> char {
    if 'A' <= c && c <= 'Z' { ((c as u32) + 32) as char } else { c }
}

/// `str::eq_ignore_ascii_case`: same length, equal after lowering ASCII
/// letters.
pub open spec fn eq_ignore_ascii_case_spec(a: Seq<char>, b: Seq<char>) -> bool {
    a.len() == b.len() && forall|i: int| 0 <= i < a.len() ==> ascii_lower(#[trigger] a[i]) == ascii_lower(b[i])
}

pub fn ascii_lower_exec(c: char) -> (r: char)
    ensures
        r == ascii_lower(c),
{
    if 'A' <= c && c <= 'Z' {
        let lowered = (c as u32) + 32;
        assert(lowered < 0xD800);
        char_from_ascii(lowered)
    } else {
        c
    }
}

fn char_from_ascii(v: u32) -> (r: char)
    requires
        v < 128,
    ensures
        r == v as char,
{
    let b: u8 = v as u8;
    b as char
}

pub fn eq_ignore_ascii_case(a: &str, b: &str) -> (r: bool)
    ensures
        r == eq_ignore_ascii_case_spec(a@, b@),
{
    let n = a.unicode_len();
    if n != b.unicode_len() {
        return false;
    }
    let mut i: usize = 0;
    while i < n
        invariant
            n == a@.len(),
            n == b@.len(),
            0 <= i <= n,
            forall|j: int| 0 <= j < i ==> ascii_lower(#[trigger] a@[j]) == ascii_lower(b@[j]),
        decreases n - i,
    {
        if ascii_lower_exec(a.get_char(i)) != ascii_lower_exec(b.get_char(i)) {
            return false;
        }
        i = i + 1;
    }
    true
}

/// The index of the first occurrence of `c`.
pub open spec fn first_index_of(s: Seq<char>, c: char) -> Option<int> {
    if exists|i: int| 0 <= i < s.len() && s[i] == c {
        Some(choose|i: int| 0 <= i < s.len() && s[i] == c && forall|j: int| 0 <= j < i ==> s[j] != c)
    } else {
        None
    }
}

pub fn find_char(s: &str, c: char) -> (r: Option<usize>)
    ensures
        match r {
            Some(i) => i < s@.len() && s@[i as int] == c && forall|j: int| 0 <= j < i ==> s@[j] != c,
            None => forall|j: int| 0 <= j < s@.len() ==> s@[j] != c,
        },
{
    let n = s.unicode_len();
    let mut i: usize = 0;
    while i < n
        invariant
            n == s@.len(),
            0 <= i <= n,
            forall|j: int| 0 <= j < i ==> s@[j] != c,
        decreases n - i,
    {
        if s.get_char(i) == c {
            return Some(i);
        }
        i = i + 1;
    }
    None
}

proof fn lemma_first_index_of_is(s: Seq<char>, c: char, i: int)
    requires
        0 <= i < s.len(),
        s[i] == c,
        forall|j: int| 0 <= j < i ==> s[j] != c,
    ensures
        first_index_of(s, c) == Some(i),
{
    let k = choose|k: int| 0 <= k < s.len() && s[k] == c && forall|j: int| 0 <= j < k ==> s[j] != c;
    if k < i { assert(s[k] == c); }
    if i < k { assert(s[i] == c); }
}

/// The first occurrence of `c`, as `first_index_of` states it.
pub fn find_first(s: &str, c: char) -> (r: Option<usize>)
    ensures
        match r {
            Some(i) => first_index_of(s@, c) == Some(i as int) && i < s@.len(),
            None => first_index_of(s@, c) is None,
        },
{
    match find_char(s, c) {
        Some(i) => {
            proof { lemma_first_index_of_is(s@, c, i as int); }
            Some(i)
        },
        None => None,
    }
}

/// The index of the last occurrence of `c`.
pub open spec fn last_index_of(s: Seq<char>, c: char) -> Option<int> {
    if exists|i: int| 0 <= i < s.len() && s[i] == c {
        Some(choose|i: int| 0 <= i < s.len() && s[i] == c && forall|j: int| i < j < s.len() ==> s[j] != c)
    } else {
        None
    }
}

pub fn find_last(s: &str, c: char) -> (r: Option<usize>)
    ensures
        match r {
            Some(i) => last_index_of(s@, c) == Some(i as int) && i < s@.len(),
            None => last_index_of(s@, c) is None,
        },
{
    let n = s.unicode_len();
    let mut i: usize = n;
    while i > 0
        invariant
            n == s@.len(),
            0 <= i <= n,
            forall|j: int| i <= j < n ==> s@[j] != c,
        decreases i,
    {
        if s.get_char(i - 1) == c {
            proof {
                let k = choose|k: int| 0 <= k < s@.len() && s@[k] == c && forall|j: int| k < j < s@.len() ==> s@[j] != c;
                let m = i - 1;
                assert(s@[m] == c);
                if k < m { assert(s@[m] == c); }
                if m < k { assert(s@[k] == c); }
            }
            return Some(i - 1);
        }
        i = i - 1;
    }
    None
}

pub fn starts_with_char(s: &str, c: char) -> (r: bool)
    ensures
        r == (s@.len() > 0 && s@[0] == c),
{
    if s.unicode_len() > 0 { s.get_char(0) == c } else { false }
}

pub open spec fn is_digit(c: char) -> bool {
    '0' <= c && c <= '9'
}

pub open spec fn digit_value(c: char) -> nat {
    ((c as u32) - ('0' as u32)) as nat
}

/// The number spelled by a run of decimal digits.
pub open spec fn digits_value(s: Seq<char>) -> nat
    decreases s.len(),
{
    if s.len() == 0 { 0 } else { digits_value(s.drop_last()) * 10 + digit_value(s.last()) }
}

pub open spec fn all_digits(d: Seq<char>) -> bool {
    forall|i: int| 0 <= i < d.len() ==> is_digit(#[trigger] d[i])
}

/// The digits of an unsigned number: the text after an optional leading `+`.
pub open spec fn unsigned_digits(s: Seq<char>) -> Seq<char> {
    if s.len() > 0 && s[0] == '+' { s.drop_first() } else { s }
}

/// What `u16::from_str` accepts: an optional `+` then at least one decimal
/// digit, with a value that fits in 16 bits.
pub open spec fn parse_u16_spec(s: Seq<char>) -> Option<u16> {
    let digits = unsigned_digits(s);
    if digits.len() > 0 && all_digits(digits) && digits_value(digits) <= u16::MAX {
        Some(digits_value(digits) as u16)
    } else {
        None
    }
}

proof fn lemma_digits_value_prefix_grows(s: Seq<char>, i: int)
    requires
        0 <= i <= s.len(),
        forall|j: int| 0 <= j < s.len() ==> is_digit(#[trigger] s[j]),
    ensures
        digits_value(s.subrange(0, i)) <= digits_value(s),
    decreases s.len() - i,
{
    if i < s.len() {
        lemma_digits_value_prefix_grows(s, i + 1);
        assert(s.subrange(0, i + 1).drop_last() == s.subrange(0, i));
    } else {
        assert(s.subrange(0, i) == s);
    }
}

pub fn parse_u16(s: &str) -> (r: Option<u16>)
    ensures
        r == parse_u16_spec(s@),
{
    let n = s.unicode_len();
    let start: usize = if n > 0 && s.get_char(0) == '+' { 1 } else { 0 };
    let ghost digits = unsigned_digits(s@);
    assert(digits == s@.subrange(start as int, n as int));
    if start >= n {
        return None;
    }
    let mut value: u32 = 0;
    let mut i: usize = start;
    while i < n
        invariant
            n == s@.len(),
            start <= i <= n,
            digits == s@.subrange(start as int, n as int),
            digits == unsigned_digits(s@),
            forall|j: int| start <= j < i ==> is_digit(#[trigger] s@[j]),
            value as nat == digits_value(s@.subrange(start as int, i as int)),
            value <= u16::MAX,
        decreases n - i,
    {
        let c = s.get_char(i);
        if !('0' <= c && c <= '9') {
            proof {
                assert(!is_digit(digits[i - start]));
            }
            return None;
        }
        let d = (c as u32) - ('0' as u32);
        assert(s@.subrange(start as int, i + 1).drop_last() == s@.subrange(start as int, i as int));
        let next = value * 10 + d;
        if next > 65535 {
            proof {
                assert forall|j: int| 0 <= j < digits.len() && j < i + 1 - start implies is_digit(#[trigger] digits[j]) by {
                    assert(digits[j] == s@[start + j]);
                }
                if all_digits(digits) {
                    lemma_digits_value_prefix_grows(digits, i + 1 - start);
                    assert(digits.subrange(0, i + 1 - start) == s@.subrange(start as int, i + 1));
                }
            }
            return None;
        }
        value = next;
        i = i + 1;
    }
    proof {
        assert(s@.subrange(start as int, n as int) == digits);
        assert forall|j: int| 0 <= j < digits.len() implies is_digit(#[trigger] digits[j]) by {
            assert(digits[j] == s@[start + j]);
        }
    }
    Some(value as u16)
}

} // verus!
verus! {

/// Whether two strings hold the same characters.
pub fn str_eq(a: &str, b: &str) -> (r: bool)
    ensures
        r == (a@ == b@),
{
    let n = a.unicode_len();
    if n != b.unicode_len() {
        return false;
    }
    let mut i: usize = 0;
    while i < n
        invariant
            n == a@.len(),
            n == b@.len(),
            0 <= i <= n,
            forall|j: int| 0 <= j < i ==> a@[j] == b@[j],
        decreases n - i,
    {
        if a.get_char(i) != b.get_char(i) {
            return false;
        }
        i = i + 1;
    }
    assert(a@ =~= b@);
    true
}

} // verus!

verus! {

/// `char::is_whitespace`: the Unicode `White_Space` characters.
pub open spec fn is_unicode_whitespace(c: char) -> bool {
    ('\u{9}' <= c && c <= '\u{d}') || c == ' ' || c == '\u{85}' || c == '\u{a0}' || c == '\u{1680}'
        || ('\u{2000}' <= c && c <= '\u{200a}') || c == '\u{2028}' || c == '\u{2029}' || c == '\u{202f}'
        || c == '\u{205f}' || c == '\u{3000}'
}

pub fn is_unicode_whitespace_exec(c: char) -> (r: bool)
    ensures
        r == is_unicode_whitespace(c),
{
    ('\u{9}' <= c && c <= '\u{d}') || c == ' ' || c == '\u{85}' || c == '\u{a0}' || c == '\u{1680}'
        || ('\u{2000}' <= c && c <= '\u{200a}') || c == '\u{2028}' || c == '\u{2029}' || c == '\u{202f}'
        || c == '\u{205f}' || c == '\u{3000}'
}

/// `str::trim`: `s` without its leading and trailing whitespace.  The result
/// is the subrange `[start, end)` with whitespace on both sides of it only.
pub open spec fn is_trim_of(s: Seq<char>, start: int, end: int) -> bool {
    &&& 0 <= start <= end <= s.len()
    &&& forall|i: int| 0 <= i < start ==> is_unicode_whitespace(#[trigger] s[i])
    &&& forall|i: int| end <= i < s.len() ==> is_unicode_whitespace(#[trigger] s[i])
    &&& start < end ==> !is_unicode_whitespace(s[start]) && !is_unicode_whitespace(s[end - 1])
}

pub open spec fn trim_spec(s: Seq<char>) -> Seq<char> {
    let (a, b) = choose|a: int, b: int| is_trim_of(s, a, b);
    s.subrange(a, b)
}

proof fn lemma_trim_unique(s: Seq<char>, a: int, b: int)
    requires
        is_trim_of(s, a, b),
    ensures
        trim_spec(s) == s.subrange(a, b),
{
    let (a2, b2) = choose|x: int, y: int| is_trim_of(s, x, y);
    assert(is_trim_of(s, a2, b2));
    if a < b {
        if a2 < a { assert(is_unicode_whitespace(s[a2])); }
        if a < a2 { assert(is_unicode_whitespace(s[a])); }
        assert(a == a2);
        if b2 < b { assert(is_unicode_whitespace(s[b - 1])); }
        if b < b2 { assert(is_unicode_whitespace(s[b2 - 1])); }
    } else {
        if a2 < b2 {
            if a2 < a { assert(is_unicode_whitespace(s[a2])); } else { assert(is_unicode_whitespace(s[a2])); }
        }
    }
    assert(s.subrange(a, b) =~= s.subrange(a2, b2));
}

pub fn trim_str(s: &str) -> (r: &str)
    ensures
        r@ == trim_spec(s@),
{
    let n = s.unicode_len();
    let mut start: usize = 0;
    while start < n && is_unicode_whitespace_exec(s.get_char(start))
        invariant
            n == s@.len(),
            0 <= start <= n,
            forall|i: int| 0 <= i < start ==> is_unicode_whitespace(#[trigger] s@[i]),
        decreases n - start,
    {
        start = start + 1;
    }
    let mut end: usize = n;
    while end > start && is_unicode_whitespace_exec(s.get_char(end - 1))
        invariant
            n == s@.len(),
            0 <= start <= end <= n,
            forall|i: int| 0 <= i < start ==> is_unicode_whitespace(#[trigger] s@[i]),
            forall|i: int| end <= i < n ==> is_unicode_whitespace(#[trigger] s@[i]),
            start < n ==> !is_unicode_whitespace(s@[start as int]),
        decreases end - start,
    {
        end = end - 1;
    }
    proof {
        assert(is_trim_of(s@, start as int, end as int));
        lemma_trim_unique(s@, start as int, end as int);
    }
    s.substring_char(start, end)
}

} // verus!

verus! {

/// Appends the decimal rendering of a signed `n` to `s`.
pub fn push_signed_decimal(s: &mut String, n: i64)
    ensures
        final(s)@ == old(s)@ + signed_decimal_chars(n as int),
{
    if n < 0 {
        proof { reveal_strlit("-"); }
        s.append("-");
        let magnitude: u64 = (0i128 - (n as i128)) as u64;
        push_decimal(s, magnitude);
        assert(seq!['-'] + decimal_chars(magnitude as nat) =~= "-"@ + decimal_chars(magnitude as nat));
    } else {
        push_decimal(s, n as u64);
    }
}

/// `String::push`: appends one character.
#[verifier::external_body]
pub(crate) fn push_char(s: &mut String, c: char)
    ensures
        final(s)@ == old(s)@.push(c),
{
    s.push(c);
}

/// The character of an ASCII byte.
pub fn ascii_char(b: u8) -> (r: char)
    requires
        b < 128,
    ensures
        r == b as char,
{
    b as char
}

} // verus!
