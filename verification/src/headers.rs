//! Reading request header lines out of the raw request bytes, and the
//! per-location `Authorization` check.
use vstd::prelude::*;
use vstd::string::StringSliceAdditionalSpecFns;

verus! {

/// Where the parts of a request head sit in the read buffer.
#[derive(Clone, Copy, Debug)]
pub struct Http1Headers {
    /// Index of the `\r\n` that ends the request line.
    pub first_line_end: usize,
    /// Byte range of the `Host` header's value, when there is one.
    pub host_value: Option<(usize, usize)>,
}

pub open spec fn crlf_at(data: Seq<u8>, i: int) -> bool {
    0 <= i && i + 1 < data.len() && data[i] == 13 && data[i + 1] == 10
}

/// The first `\r\n` at or after `from`.
#[verifier::opaque]
pub open spec fn next_crlf(data: Seq<u8>, from: int) -> Option<int> {
    if exists|i: int| from <= i && #[trigger] crlf_at(data, i) {
        Some(choose|i: int| from <= i && #[trigger] crlf_at(data, i) && forall|j: int| from <= j < i ==> !#[trigger] crlf_at(data, j))
    } else {
        None
    }
}

proof fn lemma_next_crlf_found(data: Seq<u8>, from: int, i: int)
    requires
        from <= i,
        crlf_at(data, i),
        forall|j: int| from <= j < i ==> !#[trigger] crlf_at(data, j),
    ensures
        next_crlf(data, from) == Some(i),
{
    reveal(next_crlf);
    let k = choose|k: int| from <= k && #[trigger] crlf_at(data, k) && forall|j: int| from <= j < k ==> !#[trigger] crlf_at(data, j);
    assert(from <= k && crlf_at(data, k) && forall|j: int| from <= j < k ==> !#[trigger] crlf_at(data, j));
    if k < i { assert(!crlf_at(data, k)); }
    if i < k { assert(!crlf_at(data, i)); }
}

/// `SliceOfU8Ext::find_sequence_pos` for `\r\n`: the first `\r\n` at or after
/// `from`.
pub fn find_crlf(data: &[u8], from: usize) -> (r: Option<usize>)
    ensures
        match r {
            Some(i) => next_crlf(data@, from as int) == Some(i as int) && crlf_at(data@, i as int) && from <= i,
            None => next_crlf(data@, from as int) is None,
        },
{
    let mut i: usize = from;
    while i < data.len() && data.len() - i >= 2
        invariant
            from <= i,
            forall|j: int| from <= j < i ==> !#[trigger] crlf_at(data@, j),
        decreases data@.len() - i,
    {
        if data[i] == 13 && data[i + 1] == 10 {
            proof { lemma_next_crlf_found(data@, from as int, i as int); }
            return Some(i);
        }
        i = i + 1;
    }
    assert forall|j: int| from <= j implies !#[trigger] crlf_at(data@, j) by {
        if j >= i { assert(!(j + 1 < data@.len())); }
    }
    proof { reveal(next_crlf); }
    None
}

pub open spec fn ascii_lower_byte(b: u8) -> u8 {
    if 65 <= b && b <= 90 { (b + 32) as u8 } else { b }
}

pub open spec fn bytes_eq_ignore_ascii_case(a: Seq<u8>, b: Seq<u8>) -> bool {
    a.len() == b.len() && forall|i: int| 0 <= i < a.len() ==> ascii_lower_byte(#[trigger] a[i]) == ascii_lower_byte(b[i])
}

/// The first `:` of a header line.
pub open spec fn colon_in(line: Seq<u8>) -> Option<int> {
    if exists|i: int| 0 <= i < line.len() && #[trigger] line[i] == 58 {
        Some(choose|i: int| 0 <= i < line.len() && #[trigger] line[i] == 58 && forall|j: int| 0 <= j < i ==> line[j] != 58)
    } else {
        None
    }
}

proof fn lemma_colon_found(line: Seq<u8>, i: int)
    requires
        0 <= i < line.len(),
        line[i] == 58,
        forall|j: int| 0 <= j < i ==> line[j] != 58,
    ensures
        colon_in(line) == Some(i),
{
    let k = choose|k: int| 0 <= k < line.len() && #[trigger] line[k] == 58 && forall|j: int| 0 <= j < k ==> line[j] != 58;
    assert(0 <= k < line.len() && line[k] == 58 && forall|j: int| 0 <= j < k ==> line[j] != 58);
    if k < i { assert(line[k] != 58); }
    if i < k { assert(line[i] != 58); }
}

/// An ASCII whitespace byte: space, tab, line feed, form feed or carriage
/// return.
pub open spec fn is_ascii_ws(b: u8) -> bool {
    b == 32 || b == 9 || b == 10 || b == 12 || b == 13
}

fn ascii_ws_byte(b: u8) -> (r: bool)
    ensures
        r == is_ascii_ws(b),
{
    b == 32 || b == 9 || b == 10 || b == 12 || b == 13
}

/// The bytes without their leading and trailing ASCII whitespace.
pub open spec fn trim_ascii_spec(s: Seq<u8>) -> Seq<u8>
    decreases s.len(),
{
    if s.len() > 0 && is_ascii_ws(s[0]) {
        trim_ascii_spec(s.drop_first())
    } else if s.len() > 0 && is_ascii_ws(s.last()) {
        trim_ascii_spec(s.drop_last())
    } else {
        s
    }
}

proof fn lemma_trim_ascii_window(s: Seq<u8>, start: int, end: int)
    requires
        0 <= start <= end <= s.len(),
        forall|i: int| 0 <= i < start ==> is_ascii_ws(#[trigger] s[i]),
        forall|i: int| end <= i < s.len() ==> is_ascii_ws(#[trigger] s[i]),
        start < end ==> !is_ascii_ws(s[start]) && !is_ascii_ws(s[end - 1]),
    ensures
        trim_ascii_spec(s) == s.subrange(start, end),
    decreases s.len(),
{
    if s.len() > 0 && is_ascii_ws(s[0]) {
        assert(start > 0 || start == end);
        if start > 0 {
            lemma_trim_ascii_window(s.drop_first(), start - 1, end - 1);
            assert(s.drop_first().subrange(start - 1, end - 1) =~= s.subrange(start, end));
        } else {
            // start == end == 0 is impossible with s[0] blank unless every byte is blank
            lemma_trim_ascii_window(s.drop_first(), 0, 0);
            assert(s.drop_first().subrange(0, 0) =~= s.subrange(start, end));
        }
    } else if s.len() > 0 && is_ascii_ws(s.last()) {
        if end < s.len() {
            lemma_trim_ascii_window(s.drop_last(), start, end);
            assert(s.drop_last().subrange(start, end) =~= s.subrange(start, end));
        } else {
            if start < end {
                assert(!is_ascii_ws(s[end - 1]));
            } else {
                assert(is_ascii_ws(s[0]));
            }
        }
    } else {
        if start > 0 { assert(is_ascii_ws(s[0])); }
        if end < s.len() { assert(is_ascii_ws(s[s.len() - 1])); }
        assert(s.subrange(start, end) =~= s);
    }
}

/// Strips leading and trailing ASCII whitespace.
pub fn trim_ascii(input: &[u8]) -> (r: &[u8])
    ensures
        r@ == trim_ascii_spec(input@),
{
    let mut start: usize = 0;
    let mut end: usize = input.len();
    while start < end && ascii_ws_byte(input[start])
        invariant
            0 <= start <= end == input@.len(),
            forall|i: int| 0 <= i < start ==> is_ascii_ws(#[trigger] input@[i]),
        decreases end - start,
    {
        start = start + 1;
    }
    while end > start && ascii_ws_byte(input[end - 1])
        invariant
            0 <= start <= end <= input@.len(),
            forall|i: int| 0 <= i < start ==> is_ascii_ws(#[trigger] input@[i]),
            forall|i: int| end <= i < input@.len() ==> is_ascii_ws(#[trigger] input@[i]),
            start < end ==> !is_ascii_ws(input@[start as int]),
        decreases end - start,
    {
        end = end - 1;
    }
    proof { lemma_trim_ascii_window(input@, start as int, end as int); }
    vstd::slice::slice_subrange(input, start, end)
}


/// The trimmed value of an `Authorization` line, or `None` when the line is
/// another header (or has no `:`).
#[verifier::opaque]
pub open spec fn authorization_in_line(line: Seq<u8>) -> Option<Seq<u8>> {
    match colon_in(line) {
        Some(c) => if bytes_eq_ignore_ascii_case(line.subrange(0, c), "authorization"@.map_values(|ch: char| ch as u8)) {
            Some(trim_ascii_spec(line.subrange(c + 1, line.len() as int)))
        } else {
            None
        },
        None => None,
    }
}

/// The value of the first `Authorization` header among the header lines that
/// start at `pos`; the search stops at the blank line that ends the head.
#[verifier::opaque]
pub open spec fn authorization_from(data: Seq<u8>, pos: int) -> Option<Seq<u8>>
    decreases data.len() - pos,
{
    match next_crlf(data, pos) {
        None => None,
        Some(next) => if next <= pos || next + 1 >= data.len() {
            None
        } else {
            match authorization_in_line(data.subrange(pos, next)) {
                Some(v) => Some(v),
                None => authorization_from(data, next + 2),
            }
        },
    }
}

proof fn lemma_authorization_from_step(data: Seq<u8>, pos: int)
    ensures
        authorization_from(data, pos) == match next_crlf(data, pos) {
            None => None,
            Some(next) => if next <= pos || next + 1 >= data.len() {
                None
            } else {
                match authorization_in_line(data.subrange(pos, next)) {
                    Some(v) => Some(v),
                    None => authorization_from(data, next + 2),
                }
            },
        },
{
    reveal_with_fuel(authorization_from, 1);
}

pub open spec fn authorization_value(data: Seq<u8>, first_line_end: int) -> Option<Seq<u8>> {
    authorization_from(data, first_line_end + 2)
}

pub open spec fn authorization_name() -> Seq<u8> {
    seq![97u8, 117u8, 116u8, 104u8, 111u8, 114u8, 105u8, 122u8, 97u8, 116u8, 105u8, 111u8, 110u8]
}

fn is_authorization_name(data: &[u8], from: usize, to: usize) -> (r: bool)
    requires
        from <= to <= data@.len(),
    ensures
        r == bytes_eq_ignore_ascii_case(data@.subrange(from as int, to as int), "authorization"@.map_values(|ch: char| ch as u8)),
{
    proof {
        reveal_strlit("authorization");
        assert("authorization"@.map_values(|ch: char| ch as u8) =~= authorization_name());
    }
    let name: [u8; 13] = [97, 117, 116, 104, 111, 114, 105, 122, 97, 116, 105, 111, 110];
    assert(name@ =~= authorization_name());
    if to - from != 13 {
        assert("authorization"@.map_values(|ch: char| ch as u8).len() == 13);
        return false;
    }
    let mut i: usize = 0;
    while i < 13
        invariant
            0 <= i <= 13,
            to - from == 13,
            from <= to <= data@.len(),
            name@ == authorization_name(),
            "authorization"@.map_values(|ch: char| ch as u8) == authorization_name(),
            forall|j: int| 0 <= j < i ==> ascii_lower_byte(#[trigger] data@.subrange(from as int, to as int)[j]) == ascii_lower_byte(name@[j]),
        decreases 13 - i,
    {
        let b = data[from + i];
        let lowered = if 65 <= b && b <= 90 { b + 32 } else { b };
        if lowered != name[i] {
            assert(data@.subrange(from as int, to as int)[i as int] == b);
            assert(ascii_lower_byte(name@[i as int]) == name@[i as int]);
            return false;
        }
        i = i + 1;
    }
    true
}

/// The trimmed value of the first `Authorization` header of the request head
/// in `data`, whose request line ends at `first_line_end`.
pub fn find_authorization_value<'a>(http_headers: &Http1Headers, data: &'a [u8]) -> (r: Option<&'a [u8]>)
    requires
        http_headers.first_line_end + 2 <= usize::MAX,
    ensures
        match r {
            Some(v) => authorization_value(data@, http_headers.first_line_end as int) == Some(v@),
            None => authorization_value(data@, http_headers.first_line_end as int) is None,
        },
{
    let mut pos: usize = http_headers.first_line_end + 2;
    loop
        invariant
            authorization_value(data@, http_headers.first_line_end as int) == authorization_from(data@, pos as int),
        decreases data@.len() - pos,
    {
        proof { lemma_authorization_from_step(data@, pos as int); }
        let next = match find_crlf(data, pos) {
            Some(n) => n,
            None => return None,
        };
        let len = data.len();
        assert(crlf_at(data@, next as int));
        assert(next + 1 < len);
        if next <= pos {
            return None;
        }
        match line_authorization(data, pos, next) {
            Some(v) => return Some(v),
            None => {},
        }
        pos = next + 2;
    }
}

/// The trimmed `Authorization` value of the header line `data[pos..next]`.
fn line_authorization<'a>(data: &'a [u8], pos: usize, next: usize) -> (r: Option<&'a [u8]>)
    requires
        pos < next < data@.len(),
    ensures
        match r {
            Some(v) => authorization_in_line(data@.subrange(pos as int, next as int)) == Some(v@),
            None => authorization_in_line(data@.subrange(pos as int, next as int)) is None,
        },
{
    let mut c: usize = pos;
    while c < next && data[c] != 58
        invariant
            pos <= c <= next,
            next < data@.len(),
            forall|j: int| pos <= j < c ==> data@[j] != 58,
        decreases next - c,
    {
        c = c + 1;
    }
    let ghost line = data@.subrange(pos as int, next as int);
    proof { reveal(authorization_in_line); }
    if c < next {
        proof {
            assert forall|j: int| 0 <= j < c - pos implies line[j] != 58 by { assert(line[j] == data@[pos + j]); }
            lemma_colon_found(line, c - pos);
            assert(line.subrange(0, c - pos) =~= data@.subrange(pos as int, c as int));
            assert(line.subrange(c - pos + 1, line.len() as int) =~= data@.subrange(c + 1, next as int));
        }
        if is_authorization_name(data, pos, c) {
            let raw = vstd::slice::slice_subrange(data, c + 1, next);
            return Some(trim_ascii(raw));
        }
        None
    } else {
        proof {
            assert forall|j: int| 0 <= j < line.len() implies #[trigger] line[j] != 58 by { assert(line[j] == data@[pos + j]); }
        }
        None
    }
}

/// Whether a request passes a location's `auth_header` check: with no (or an
/// empty) expected value every request passes; otherwise the request's
/// trimmed `Authorization` value must equal it byte for byte.
pub fn header_auth_passes(expected: Option<&str>, http_headers: &Http1Headers, data: &[u8]) -> (r: bool)
    requires
        http_headers.first_line_end + 2 <= usize::MAX,
    ensures
        r == match expected {
            Some(e) => e@.len() == 0 || authorization_value(data@, http_headers.first_line_end as int)
                == Some(e.spec_bytes()),
            None => true,
        },
{
    match expected {
        None => true,
        Some(e) => {
            if e.unicode_len() == 0 {
                return true;
            }
            match find_authorization_value(http_headers, data) {
                Some(actual) => bytes_eq(actual, e.as_bytes()),
                None => false,
            }
        },
    }
}

pub fn bytes_eq(a: &[u8], b: &[u8]) -> (r: bool)
    ensures
        r == (a@ == b@),
{
    if a.len() != b.len() {
        return false;
    }
    let mut i: usize = 0;
    while i < a.len()
        invariant
            a@.len() == b@.len(),
            0 <= i <= a@.len(),
            forall|j: int| 0 <= j < i ==> a@[j] == b@[j],
        decreases a@.len() - i,
    {
        if a[i] != b[i] {
            return false;
        }
        i = i + 1;
    }
    assert(a@ =~= b@);
    true
}

} // verus!
