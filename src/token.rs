use vstd::prelude::*;
use vstd::utf8::encode_utf8;

verus! {

/// The lower-case hexadecimal digit for a value below sixteen.
pub open spec fn hex_digit(n: int) -> char {
    if n == 0 { '0' }
    else if n == 1 { '1' }
    else if n == 2 { '2' }
    else if n == 3 { '3' }
    else if n == 4 { '4' }
    else if n == 5 { '5' }
    else if n == 6 { '6' }
    else if n == 7 { '7' }
    else if n == 8 { '8' }
    else if n == 9 { '9' }
    else if n == 10 { 'a' }
    else if n == 11 { 'b' }
    else if n == 12 { 'c' }
    else if n == 13 { 'd' }
    else if n == 14 { 'e' }
    else { 'f' }
}

/// Two lower-case hex digits per byte, high half first.
pub open spec fn hex_chars(b: Seq<u8>) -> Seq<char> {
    Seq::new(
        2 * b.len(),
        |i: int|
            if i % 2 == 0 {
                hex_digit(b[i / 2] as int / 16)
            } else {
                hex_digit(b[i / 2] as int % 16)
            },
    )
}

/// The SHA-512 digest of a byte string.
pub uninterp spec fn sha512_of(data: Seq<u8>) -> Seq<u8>;

/// The token GitLab must present for a webhook registered at `path`: the hex
/// form of the digest of the path, followed by the salt, hex-encoded again
/// as UTF-8 bytes.
pub open spec fn webhook_token(path: Seq<char>, salt: Seq<char>) -> Seq<char> {
    hex_chars(encode_utf8(hex_chars(sha512_of(encode_utf8(path))) + salt))
}

/// Relies on sha2's `Sha512::digest`: the SHA-512 digest of the bytes.
#[verifier::external_body]
fn sha512(data: &[u8]) -> (r: Vec<u8>)
    ensures
        r@ == sha512_of(data@),
{
    <sha2::Sha512 as sha2::Digest>::digest(data).to_vec()
}

/// Relies on `hex::encode`: each byte becomes two lower-case hex digits,
/// high half first.
#[verifier::external_body]
fn hex_encode(data: &[u8]) -> (r: String)
    ensures
        r@ == hex_chars(data@),
{
    hex::encode(data)
}

/// The secret mixed into every webhook token.
pub struct TokenSalt(pub String);

impl TokenSalt {
    pub fn as_str(&self) -> (r: &str)
        ensures
            r@ == self.0@,
    {
        self.0.as_str()
    }
}

/// Derives the webhook token for a request path and a salt.
pub fn calc_token(path: &str, token_salt: &str) -> (r: String)
    ensures
        r@ == webhook_token(path@, token_salt@),
{
    let digest = sha512(path.as_bytes());
    let mut first = hex_encode(digest.as_slice());
    first.append(token_salt);
    hex_encode(first.as_str().as_bytes())
}

proof fn lemma_hex_digit_injective(a: int, b: int)
    requires
        0 <= a < 16,
        0 <= b < 16,
        hex_digit(a) == hex_digit(b),
    ensures
        a == b,
{
}

/// Hex encoding loses nothing: different byte strings have different hex forms.
pub proof fn lemma_hex_injective(x: Seq<u8>, y: Seq<u8>)
    requires
        hex_chars(x) == hex_chars(y),
    ensures
        x == y,
{
    assert(hex_chars(x).len() == 2 * x.len());
    assert(hex_chars(y).len() == 2 * y.len());
    assert(x.len() == y.len());
    assert forall|j: int| 0 <= j < x.len() implies x[j] == y[j] by {
        let hx = hex_chars(x);
        let hy = hex_chars(y);
        assert(hx[2 * j] == hy[2 * j]);
        assert(hx[2 * j + 1] == hy[2 * j + 1]);
        assert((2 * j) / 2 == j);
        assert((2 * j + 1) / 2 == j);
        assert((2 * j) % 2 == 0);
        assert((2 * j + 1) % 2 == 1);
        lemma_hex_digit_injective(x[j] as int / 16, y[j] as int / 16);
        lemma_hex_digit_injective(x[j] as int % 16, y[j] as int % 16);
    }
    assert(x =~= y);
}

/// The token is a function of the path and the salt: equal inputs give
/// equal tokens.
pub proof fn lemma_token_deterministic(p1: Seq<char>, s1: Seq<char>, p2: Seq<char>, s2: Seq<char>)
    requires
        p1 == p2,
        s1 == s2,
    ensures
        webhook_token(p1, s1) == webhook_token(p2, s2),
{
}

/// For one path, two different salts never give the same token, so rotating
/// the salt invalidates every token issued before.
pub proof fn lemma_token_separates_salts(path: Seq<char>, s1: Seq<char>, s2: Seq<char>)
    requires
        s1 != s2,
    ensures
        webhook_token(path, s1) != webhook_token(path, s2),
{
    let d = hex_chars(sha512_of(encode_utf8(path)));
    if webhook_token(path, s1) == webhook_token(path, s2) {
        lemma_hex_injective(encode_utf8(d + s1), encode_utf8(d + s2));
        vstd::utf8::encode_utf8_decode_utf8(d + s1);
        vstd::utf8::encode_utf8_decode_utf8(d + s2);
        assert((d + s1).subrange(d.len() as int, (d + s1).len() as int) =~= s1);
        assert((d + s2).subrange(d.len() as int, (d + s2).len() as int) =~= s2);
    }
}

} // verus!
