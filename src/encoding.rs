use vstd::prelude::*;
use vstd::utf8::{decode_utf8, encode_utf8, is_ascii_chars, valid_utf8};
use crate::token::hex_digit;

verus! {

/// The decimal digits of a number, most significant first.
pub open spec fn decimal_chars(n: nat) -> Seq<char>
    decreases n,
{
    if n < 10 {
        seq![hex_digit(n as int)]
    } else {
        decimal_chars(n / 10) + seq![hex_digit((n % 10) as int)]
    }
}

/// Relies on `u64`'s `Display` (through `to_string`): its decimal digits,
/// without sign or padding.
#[verifier::external_body]
pub(crate) fn decimal(n: u64) -> (r: String)
    ensures
        r@ == decimal_chars(n as nat),
{
    n.to_string()
}

/// The byte of an upper-case hex digit for a value below sixteen.
pub open spec fn upper_hex_byte(n: int) -> u8 {
    if n < 10 {
        (48 + n) as u8
    } else {
        (55 + n) as u8
    }
}

/// `%` followed by the two upper-case hex digits of a byte.
pub open spec fn percent_triple(x: u8) -> Seq<u8> {
    seq![37u8, upper_hex_byte(x as int / 16), upper_hex_byte(x as int % 16)]
}

/// Bytes that `application/x-www-form-urlencoded` serialisation keeps.
pub open spec fn form_unchanged(x: u8) -> bool {
    x == 42 || x == 45 || x == 46 || (48 <= x <= 57) || (65 <= x <= 90) || x == 95 || (97
        <= x <= 122)
}

pub open spec fn form_piece(x: u8) -> Seq<u8> {
    if form_unchanged(x) {
        seq![x]
    } else if x == 32 {
        seq![43u8]
    } else {
        percent_triple(x)
    }
}

/// The form serialisation of a byte string: kept bytes as they are, space
/// as `+`, every other byte as `%XX`.
pub open spec fn form_bytes(b: Seq<u8>) -> Seq<u8>
    decreases b.len(),
{
    if b.len() == 0 {
        seq![]
    } else {
        form_piece(b[0]) + form_bytes(b.drop_first())
    }
}

/// Bytes that percent-encoding for the user-info part of a URL replaces:
/// controls, non-ASCII, and the listed punctuation.
pub open spec fn in_userinfo_set(x: u8) -> bool {
    x < 0x20 || x > 0x7e || x == 32 || x == 34 || x == 35 || x == 60 || x == 62 || x == 96
        || x == 63 || x == 123 || x == 125 || x == 47 || x == 58 || x == 59 || x == 61 || x
        == 64 || x == 91 || x == 92 || x == 93 || x == 94 || x == 124
}

pub open spec fn userinfo_bytes(b: Seq<u8>) -> Seq<u8>
    decreases b.len(),
{
    if b.len() == 0 {
        seq![]
    } else {
        (if in_userinfo_set(b[0]) {
            percent_triple(b[0])
        } else {
            seq![b[0]]
        }) + userinfo_bytes(b.drop_first())
    }
}

/// The value of a hex digit byte of either case.
pub open spec fn hex_value(x: u8) -> Option<int> {
    if 48 <= x <= 57 {
        Some(x - 48)
    } else if 97 <= x <= 102 {
        Some(x - 87)
    } else if 65 <= x <= 70 {
        Some(x - 55)
    } else {
        None
    }
}

/// Percent-decoding: `%` and two hex digits become the byte they spell;
/// every other byte, a lone `%` included, stays.
pub open spec fn percent_decoded(b: Seq<u8>) -> Seq<u8>
    decreases b.len(),
{
    if b.len() == 0 {
        seq![]
    } else if b[0] == 37 && b.len() >= 3 && hex_value(b[1]) is Some && hex_value(b[2]) is Some {
        seq![(hex_value(b[1])->0 * 16 + hex_value(b[2])->0) as u8] + percent_decoded(
            b.subrange(3, b.len() as int),
        )
    } else {
        seq![b[0]] + percent_decoded(b.drop_first())
    }
}

/// Relies on `url::form_urlencoded::byte_serialize` over the UTF-8 bytes.
#[verifier::external_body]
pub(crate) fn form_encode(s: &str) -> (r: String)
    ensures
        encode_utf8(r@) == form_bytes(encode_utf8(s@)),
{
    url::form_urlencoded::byte_serialize(s.as_bytes()).collect()
}

/// Relies on `percent_encoding::percent_encode` with `USERINFO_ENCODE_SET`
/// over the UTF-8 bytes.
#[verifier::external_body]
pub(crate) fn userinfo_encode(s: &str) -> (r: String)
    ensures
        encode_utf8(r@) == userinfo_bytes(encode_utf8(s@)),
{
    percent_encoding::percent_encode(s.as_bytes(), percent_encoding::USERINFO_ENCODE_SET).to_string()
}

/// Relies on `percent_encoding::percent_decode` followed by `decode_utf8`:
/// the decoded bytes as text when they are valid UTF-8.
#[verifier::external_body]
pub(crate) fn percent_decode(s: &str) -> (r: Option<String>)
    ensures
        r is Some <==> valid_utf8(percent_decoded(encode_utf8(s@))),
        r matches Some(d) ==> d@ == decode_utf8(percent_decoded(encode_utf8(s@))),
{
    percent_encoding::percent_decode(s.as_bytes()).decode_utf8().ok().map(|c| c.into_owned())
}

proof fn lemma_upper_hex_value(n: int)
    requires
        0 <= n < 16,
    ensures
        hex_value(upper_hex_byte(n)) == Some(n),
{
}

proof fn lemma_form_bytes_decode(b: Seq<u8>)
    requires
        forall|i: int| 0 <= i < b.len() ==> b[i] != 32,
    ensures
        percent_decoded(form_bytes(b)) == b,
    decreases b.len(),
{
    if b.len() > 0 {
        let x = b[0];
        let rest = b.drop_first();
        let p = form_piece(x);
        let r = form_bytes(rest);
        assert(forall|i: int| 0 <= i < rest.len() ==> rest[i] == b[i + 1]);
        lemma_form_bytes_decode(rest);
        assert(form_bytes(b) == p + r);
        if form_unchanged(x) {
            assert((p + r)[0] == x);
            assert((p + r).drop_first() =~= r);
            assert(percent_decoded(p + r) == seq![x] + percent_decoded(r));
        } else {
            lemma_upper_hex_value(x as int / 16);
            lemma_upper_hex_value(x as int % 16);
            assert((p + r)[0] == 37);
            assert((p + r)[1] == upper_hex_byte(x as int / 16));
            assert((p + r)[2] == upper_hex_byte(x as int % 16));
            assert((p + r).subrange(3, (p + r).len() as int) =~= r);
            assert(percent_decoded(p + r) == seq![x] + percent_decoded(r));
        }
        assert(b =~= seq![x] + rest);
    }
}

/// A URL as it stands in a `Link` header: ASCII, and without spaces.
pub open spec fn is_link_url(u: Seq<char>) -> bool {
    is_ascii_chars(u) && forall|i: int| 0 <= i < u.len() ==> u[i] != ' '
}

/// Form-encoding a link URL and percent-decoding the result gives the URL
/// back, so a continuation token reaches upstream exactly as upstream wrote it.
pub proof fn lemma_page_token_round_trip(u: Seq<char>, token: Seq<char>)
    requires
        is_link_url(u),
        encode_utf8(token) == form_bytes(encode_utf8(u)),
    ensures
        valid_utf8(percent_decoded(encode_utf8(token))),
        decode_utf8(percent_decoded(encode_utf8(token))) == u,
{
    vstd::utf8::is_ascii_chars_encode_utf8(u);
    let b = encode_utf8(u);
    assert forall|i: int| 0 <= i < b.len() implies b[i] != 32 by {
        assert(u[i] as u8 == b[i]);
        assert(u[i] != ' ');
    }
    lemma_form_bytes_decode(b);
    vstd::utf8::encode_utf8_valid_utf8(u);
    vstd::utf8::encode_utf8_decode_utf8(u);
}

} // verus!
