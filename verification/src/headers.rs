use vstd::prelude::*;
use vstd::utf8::decode_utf8;
use vstd::utf8::valid_utf8;

verus! {

/// One request header field: a name and a raw value, both as the bytes that
/// stood on the wire, before any text decoding.
pub struct HeaderField {
    pub name: Vec<u8>,
    pub value: Vec<u8>,
}

/// The header section of an incoming request, in wire order.
pub struct RequestHeaders {
    pub fields: Vec<HeaderField>,
}

/// ASCII lower-casing of one byte.
pub open spec fn lower_byte(b: u8) -> u8 {
    if 65 <= b && b <= 90 {
        (b + 32) as u8
    } else {
        b
    }
}

/// Whether a header name spells `authorization`, compared without regard to
/// ASCII case. The numbers are the byte values of that word's letters.
pub open spec fn is_authorization(n: Seq<u8>) -> bool {
    n.len() == 13 && lower_byte(n[0]) == 97 && lower_byte(n[1]) == 117 && lower_byte(n[2]) == 116
        && lower_byte(n[3]) == 104 && lower_byte(n[4]) == 111 && lower_byte(n[5]) == 114
        && lower_byte(n[6]) == 105 && lower_byte(n[7]) == 122 && lower_byte(n[8]) == 97
        && lower_byte(n[9]) == 116 && lower_byte(n[10]) == 105 && lower_byte(n[11]) == 111
        && lower_byte(n[12]) == 110
}

/// The value of the first `Authorization` field, if any.
pub open spec fn first_auth_value(fields: Seq<HeaderField>) -> Option<Seq<u8>>
    decreases fields.len(),
{
    if fields.len() == 0 {
        None
    } else if is_authorization(fields[0].name@) {
        Some(fields[0].value@)
    } else {
        first_auth_value(fields.drop_first())
    }
}

fn lower_byte_exec(b: u8) -> (r: u8)
    ensures
        r == lower_byte(b),
{
    if 65 <= b && b <= 90 {
        b + 32
    } else {
        b
    }
}

fn is_authorization_name(n: &Vec<u8>) -> (r: bool)
    ensures
        r == is_authorization(n@),
{
    n.len() == 13 && lower_byte_exec(n[0]) == 97 && lower_byte_exec(n[1]) == 117
        && lower_byte_exec(n[2]) == 116 && lower_byte_exec(n[3]) == 104
        && lower_byte_exec(n[4]) == 111 && lower_byte_exec(n[5]) == 114
        && lower_byte_exec(n[6]) == 105 && lower_byte_exec(n[7]) == 122
        && lower_byte_exec(n[8]) == 97 && lower_byte_exec(n[9]) == 116
        && lower_byte_exec(n[10]) == 105 && lower_byte_exec(n[11]) == 111
        && lower_byte_exec(n[12]) == 110
}

/// Copies `v[start..end)` into a fresh vector.
fn copy_byte_range(v: &Vec<u8>, start: usize, end: usize) -> (r: Vec<u8>)
    requires
        start <= end <= v.len(),
    ensures
        r@ == v@.subrange(start as int, end as int),
{
    let mut out: Vec<u8> = Vec::new();
    let mut i: usize = start;
    while i < end
        invariant
            start <= i <= end <= v.len(),
            out@ =~= v@.subrange(start as int, i as int),
        decreases end - i,
    {
        out.push(v[i]);
        proof {
            assert(v@.subrange(start as int, i as int + 1) =~= v@.subrange(
                start as int,
                i as int,
            ).push(v@[i as int]));
        }
        i = i + 1;
    }
    out
}

/// Finds the first `Authorization` field and hands back a copy of its value.
pub(crate) fn find_auth_value(headers: &RequestHeaders) -> (r: Option<Vec<u8>>)
    ensures
        r matches Some(v) ==> first_auth_value(headers.fields@) == Some(v@),
        r is None ==> first_auth_value(headers.fields@) is None,
{
    let n = headers.fields.len();
    let mut i: usize = 0;
    proof {
        assert(headers.fields@.skip(0) =~= headers.fields@);
    }
    while i < n
        invariant
            i <= n,
            n == headers.fields@.len(),
            first_auth_value(headers.fields@) == first_auth_value(
                headers.fields@.skip(i as int),
            ),
        decreases n - i,
    {
        if is_authorization_name(&headers.fields[i].name) {
            proof {
                assert(headers.fields@.skip(i as int)[0] == headers.fields@[i as int]);
            }
            let value = &headers.fields[i].value;
            return Some(copy_byte_range(value, 0, value.len()));
        }
        proof {
            assert(headers.fields@.skip(i as int).drop_first() =~= headers.fields@.skip(
                i as int + 1,
            ));
        }
        i = i + 1;
    }
    proof {
        assert(headers.fields@.skip(n as int) =~= Seq::<HeaderField>::empty());
    }
    None
}

/// ASCII whitespace: the separators that splitting header text acts on.
pub open spec fn is_space(c: char) -> bool {
    c == ' ' || c == '\t' || c == '\n' || c == '\r' || c == '\u{b}' || c == '\u{c}'
}

/// The first position at or after `i` that holds a non-space, or the end.
pub open spec fn skip_spaces(s: Seq<char>, i: int) -> int
    decreases s.len() - i,
{
    if i < 0 || i >= s.len() {
        s.len() as int
    } else if is_space(s[i]) {
        skip_spaces(s, i + 1)
    } else {
        i
    }
}

/// The first position at or after `i` that holds a space, or the end.
pub open spec fn token_end(s: Seq<char>, i: int) -> int
    decreases s.len() - i,
{
    if i < 0 || i >= s.len() {
        s.len() as int
    } else if !is_space(s[i]) {
        token_end(s, i + 1)
    } else {
        i
    }
}

/// Bounds of the first whitespace-separated word of the text, and of the
/// second: the scheme and the token of an `Authorization` value.
pub open spec fn scheme_start(s: Seq<char>) -> int {
    skip_spaces(s, 0)
}

pub open spec fn scheme_end(s: Seq<char>) -> int {
    token_end(s, scheme_start(s))
}

pub open spec fn jwt_start(s: Seq<char>) -> int {
    skip_spaces(s, scheme_end(s))
}

pub open spec fn jwt_end(s: Seq<char>) -> int {
    token_end(s, jwt_start(s))
}

/// The scheme word every bearer header must open with.
pub open spec fn bearer() -> Seq<char> {
    seq!['B', 'e', 'a', 'r', 'e', 'r']
}

/// Whether the text's first word is exactly `Bearer`. An empty or all-space
/// value has an empty first word and so no valid scheme.
pub open spec fn scheme_is_bearer(s: Seq<char>) -> bool {
    s.subrange(scheme_start(s), scheme_end(s)) == bearer()
}

/// Whether a second word follows the scheme.
pub open spec fn has_jwt_token(s: Seq<char>) -> bool {
    jwt_start(s) < s.len()
}

/// The second whitespace-separated word: the bearer token itself. Anything
/// after it is ignored.
pub open spec fn jwt_token_of(s: Seq<char>) -> Seq<char> {
    s.subrange(jwt_start(s), jwt_end(s))
}

fn is_space_char(c: char) -> (r: bool)
    ensures
        r == is_space(c),
{
    c == ' ' || c == '\t' || c == '\n' || c == '\r' || c == '\u{b}' || c == '\u{c}'
}

/// Scans past spaces from `start`.
pub(crate) fn scan_spaces(cs: &Vec<char>, start: usize) -> (r: usize)
    requires
        start <= cs.len(),
    ensures
        r == skip_spaces(cs@, start as int),
        start <= r <= cs.len(),
{
    let mut i: usize = start;
    while i < cs.len() && is_space_char(cs[i])
        invariant
            start <= i <= cs.len(),
            skip_spaces(cs@, start as int) == skip_spaces(cs@, i as int),
        decreases cs.len() - i,
    {
        i = i + 1;
    }
    i
}

/// Scans to the end of the word that begins at `start`.
pub(crate) fn scan_token(cs: &Vec<char>, start: usize) -> (r: usize)
    requires
        start <= cs.len(),
    ensures
        r == token_end(cs@, start as int),
        start <= r <= cs.len(),
{
    let mut i: usize = start;
    while i < cs.len() && !is_space_char(cs[i])
        invariant
            start <= i <= cs.len(),
            token_end(cs@, start as int) == token_end(cs@, i as int),
        decreases cs.len() - i,
    {
        i = i + 1;
    }
    i
}

/// Whether `cs[start..end)` spells `Bearer`.
pub(crate) fn word_is_bearer(cs: &Vec<char>, start: usize, end: usize) -> (r: bool)
    requires
        start <= end <= cs.len(),
    ensures
        r == (cs@.subrange(start as int, end as int) == bearer()),
{
    proof {
        assert(bearer().len() == 6);
    }
    if end - start != 6 {
        assert(cs@.subrange(start as int, end as int).len() == end - start);
        return false;
    }
    let r = cs[start] == 'B' && cs[start + 1] == 'e' && cs[start + 2] == 'a' && cs[start + 3]
        == 'r' && cs[start + 4] == 'e' && cs[start + 5] == 'r';
    proof {
        let sub = cs@.subrange(start as int, end as int);
        assert(sub.len() == 6);
        assert(sub[0] == cs@[start as int] && sub[1] == cs@[start as int + 1] && sub[2]
            == cs@[start as int + 2] && sub[3] == cs@[start as int + 3] && sub[4] == cs@[start
            as int + 4] && sub[5] == cs@[start as int + 5]);
        assert(bearer()[0] == 'B' && bearer()[1] == 'e' && bearer()[2] == 'a' && bearer()[3]
            == 'r' && bearer()[4] == 'e' && bearer()[5] == 'r');
        if r {
            assert(sub =~= bearer());
        }
    }
    r
}

/// Copies `cs[start..end)` into a fresh vector.
pub(crate) fn copy_char_range(cs: &Vec<char>, start: usize, end: usize) -> (r: Vec<char>)
    requires
        start <= end <= cs.len(),
    ensures
        r@ == cs@.subrange(start as int, end as int),
{
    let mut out: Vec<char> = Vec::new();
    let mut i: usize = start;
    while i < end
        invariant
            start <= i <= end <= cs.len(),
            out@ =~= cs@.subrange(start as int, i as int),
        decreases end - i,
    {
        out.push(cs[i]);
        proof {
            assert(cs@.subrange(start as int, i as int + 1) =~= cs@.subrange(
                start as int,
                i as int,
            ).push(cs@[i as int]));
        }
        i = i + 1;
    }
    out
}

/// Relies on String::from_utf8: it succeeds exactly on a valid UTF-8
/// encoding, and the string it returns holds the characters those bytes
/// encode, here stated with vstd's UTF-8 model and handed out as characters.
#[verifier::external_body]
pub(crate) fn utf8_chars(bytes: &Vec<u8>) -> (r: Option<Vec<char>>)
    ensures
        r matches Some(cs) ==> valid_utf8(bytes@) && cs@ == decode_utf8(bytes@),
        r is None ==> !valid_utf8(bytes@),
{
    match String::from_utf8(bytes.clone()) {
        Ok(s) => Some(s.chars().collect()),
        Err(_) => None,
    }
}

/// Relies on String::from_iter over char: it builds the string of exactly
/// the characters handed to it, in order.
#[verifier::external_body]
pub(crate) fn string_of_chars(cs: &Vec<char>) -> (r: String)
    ensures
        r@ == cs@,
{
    String::from_iter(cs.iter().copied())
}

} // verus!
