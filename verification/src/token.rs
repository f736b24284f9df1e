//! Challenge tokens: 32 random bytes rendered as 64 lowercase hex digits.

use vstd::prelude::*;

verus! {

/// Number of random bytes behind one token.
pub const TOKEN_BYTES: usize = 32;

/// The lowercase hex digit of a value below sixteen.
pub open spec fn hex_digit(nibble: int) -> char {
    if nibble < 10 {
        ('0' as u8 + nibble) as u8 as char
    } else {
        ('a' as u8 + nibble - 10) as u8 as char
    }
}

/// Whether `c` is one of `0`..`9`, `a`..`f`.
pub open spec fn is_lower_hex(c: char) -> bool {
    ('0' <= c && c <= '9') || ('a' <= c && c <= 'f')
}

/// Lowercase hex rendering of a byte string: two digits per byte, high
/// nibble first.
pub open spec fn hex_string(bytes: Seq<u8>) -> Seq<char> {
    Seq::new(
        2 * bytes.len(),
        |i: int| if i % 2 == 0 {
            hex_digit(bytes[i / 2] as int / 16)
        } else {
            hex_digit(bytes[i / 2] as int % 16)
        },
    )
}

/// A well-formed token: exactly 64 lowercase hex digits.
pub open spec fn is_token(s: Seq<char>) -> bool {
    &&& s.len() == 64
    &&& forall|i: int| 0 <= i < s.len() ==> is_lower_hex(#[trigger] s[i])
}

/// Every hex rendering consists of lowercase hex digits, two per byte.
pub proof fn lemma_hex_string_shape(bytes: Seq<u8>)
    ensures
        hex_string(bytes).len() == 2 * bytes.len(),
        forall|i: int|
            0 <= i < hex_string(bytes).len() ==> is_lower_hex(#[trigger] hex_string(bytes)[i]),
{
    assert forall|n: int| 0 <= n < 16 implies is_lower_hex(#[trigger] hex_digit(n)) by {}
}

/// Checks at run time whether `text` is a well-formed token.
pub fn is_well_formed(text: &str) -> (ok: bool)
    ensures
        ok == is_token(text@),
{
    if !text.is_ascii() {
        return false;
    }
    proof {
        vstd::string::is_ascii_spec_bytes(text);
    }
    let bytes = text.as_bytes();
    if bytes.len() != 64 {
        return false;
    }
    let mut i: usize = 0;
    while i < 64
        invariant
            i <= 64,
            bytes@.len() == 64,
            text@.len() == 64,
            forall|j: int| 0 <= j < 64 ==> bytes@[j] == text@[j] as u8,
            forall|j: int| 0 <= j < 64 ==> '\0' <= #[trigger] text@[j] <= '\u{7f}',
            forall|j: int| 0 <= j < i ==> is_lower_hex(#[trigger] text@[j]),
        decreases 64 - i,
    {
        let b: u8 = bytes[i];
        let digit = (0x30 <= b && b <= 0x39) || (0x61 <= b && b <= 0x66);
        proof {
            let c = text@[i as int];
            assert('\0' <= c <= '\u{7f}');
            assert(b == c as u8);
            assert(digit == is_lower_hex(c));
        }
        if !digit {
            return false;
        }
        i += 1;
    }
    true
}

/// Draws 32 bytes from the thread-local generator of `rand`
/// (`rand::thread_rng().gen()`). The bytes are random, so nothing is
/// claimed of them beyond their number, which the array type carries.
#[verifier::external_body]
fn random_bytes() -> (bytes: [u8; 32]) {
    rand::Rng::gen(&mut rand::thread_rng())
}

/// Calls `hex::encode`, which writes each byte as two digits taken from
/// `0123456789abcdef`, the high nibble first.
#[verifier::external_body]
fn hex_encode(bytes: &[u8; 32]) -> (text: String)
    ensures
        text@ == hex_string(bytes@),
{
    hex::encode(bytes)
}

/// Renders 32 bytes as a token.
pub fn token_from_bytes(bytes: &[u8; 32]) -> (k1: String)
    ensures
        k1@ == hex_string(bytes@),
        is_token(k1@),
{
    proof {
        lemma_hex_string_shape(bytes@);
    }
    hex_encode(bytes)
}

/// Mints a candidate token from fresh randomness.
pub fn generate_k1() -> (k1: String)
    ensures
        is_token(k1@),
{
    let bytes = random_bytes();
    token_from_bytes(&bytes)
}

} // verus!
