//! The digest by which the public parameters of the commitment scheme are recognised.

use vstd::prelude::*;

verus! {

/// The largest polynomial degree that the public parameters are made for.
pub const MAX_DEGREE: u32 = 1024;

pub open spec fn hex_digit(n: int) -> char {
    if n < 10 {
        ('0' as int + n) as char
    } else {
        ('a' as int + n - 10) as char
    }
}

/// The bytes in lower-case hexadecimal, two digits for each byte, the high one first.
pub open spec fn hex_text(bytes: Seq<u8>) -> Seq<char> {
    Seq::new(
        2 * bytes.len(),
        |i: int|
            if i % 2 == 0 {
                hex_digit(bytes[i / 2] as int / 16)
            } else {
                hex_digit(bytes[i / 2] as int % 16)
            },
    )
}

/// The BLAKE2b hash of `data` with an output of 16 bytes.
pub uninterp spec fn blake2_128_hash(data: Seq<u8>) -> Seq<u8>;

/// Calls `sp_core::blake2_128`. The hash is a function of the data.
#[verifier::external_body]
fn blake2_128(data: &[u8]) -> (hash: [u8; 16])
    ensures
        hash@ == blake2_128_hash(data@),
{
    sp_core::blake2_128(data)
}

/// Calls `hex::encode`. Each byte becomes two lower-case digits. The text has to fit in memory,
/// or the call panics.
#[verifier::external_body]
fn hex_encode(data: &[u8]) -> (text: String)
    requires
        2 * data@.len() <= isize::MAX,
    ensures
        text@ == hex_text(data@),
{
    hex::encode(data)
}

/// What the log shows of the public parameters.
#[derive(Debug)]
pub struct ParamsDigest {
    /// The hash of the parameters in hexadecimal.
    pub hash: String,
    /// How many hexadecimal digits the parameters themselves take.
    pub len: usize,
}

/// The digest of parameters with the given hash and bytes.
pub fn describe_params(hash: &[u8; 16], raw: &[u8]) -> (digest: ParamsDigest)
    requires
        2 * raw@.len() <= isize::MAX,
    ensures
        digest.hash@ == hex_text(hash@),
        digest.hash@.len() == 32,
        digest.len == 2 * raw@.len(),
{
    let hash = hex_encode(hash.as_slice());
    let text = hex_encode(raw);
    proof {
        hex_text_is_ascii(raw@);
        vstd::utf8::is_ascii_chars_encode_utf8(text@);
    }
    ParamsDigest { hash, len: text.as_str().len() }
}

/// The digest of the public parameters in their raw byte form.
pub fn public_params_digest(raw: &[u8]) -> (digest: ParamsDigest)
    requires
        2 * raw@.len() <= isize::MAX,
    ensures
        digest.hash@ == hex_text(blake2_128_hash(raw@)),
        digest.hash@.len() == 32,
        digest.len == 2 * raw@.len(),
{
    describe_params(&blake2_128(raw), raw)
}

proof fn hex_text_is_ascii(bytes: Seq<u8>)
    ensures
        vstd::utf8::is_ascii_chars(hex_text(bytes)),
{
}

/// The value of a hexadecimal digit.
pub open spec fn digit_value(digit: char) -> int {
    if '0' <= digit <= '9' {
        digit as int - '0' as int
    } else {
        digit as int - 'a' as int + 10
    }
}

/// The bytes can be read off their text: each stands there as two digits from `0` to `9` and `a`
/// to `f`, the high one first.
pub proof fn bytes_can_be_read_off(bytes: Seq<u8>, i: int)
    requires
        0 <= i < bytes.len(),
    ensures
        ({
            let high = hex_text(bytes)[2 * i];
            let low = hex_text(bytes)[2 * i + 1];
            &&& '0' <= high <= '9' || 'a' <= high <= 'f'
            &&& '0' <= low <= '9' || 'a' <= low <= 'f'
            &&& 16 * digit_value(high) + digit_value(low) == bytes[i]
        }),
{
}

/// The digest shows the given hash, byte by byte, and takes the length from the parameters alone:
/// two digits for each byte.
pub proof fn the_hash_can_be_read_off(hash: &[u8; 16], raw: &[u8], digest: ParamsDigest, i: int)
    requires
        call_ensures(describe_params, (hash, raw), digest),
        0 <= i < 16,
    ensures
        digest.hash@.len() == 32,
        16 * digit_value(digest.hash@[2 * i]) + digit_value(digest.hash@[2 * i + 1]) == hash@[i],
        digest.len == raw@.len() + raw@.len(),
{
    bytes_can_be_read_off(hash@, i);
}

/// The digest of parameters shows their own hash.
pub proof fn a_digest_shows_the_hash_of_its_parameters(raw: &[u8], digest: ParamsDigest, i: int)
    requires
        call_ensures(public_params_digest, (raw,), digest),
        0 <= i < blake2_128_hash(raw@).len(),
    ensures
        16 * digit_value(digest.hash@[2 * i]) + digit_value(digest.hash@[2 * i + 1])
            == blake2_128_hash(raw@)[i],
        digest.len == raw@.len() + raw@.len(),
{
    bytes_can_be_read_off(blake2_128_hash(raw@), i);
}

} // verus!
