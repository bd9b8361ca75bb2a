use vstd::prelude::*;
use rand::RngCore;

verus! {

/// The error of the random source of the `rand` crate, `rand::Error`.
/// Nothing is known of what it holds.
#[verifier::external_type_specification]
#[verifier::external_body]
pub struct ExRandError(rand::Error);

/// The character that stands for the six-bit value `v` in the URL-safe
/// alphabet: the capital letters, the small letters, the digits, then `-`
/// and `_`.
pub open spec fn url_safe_digit(v: int) -> char {
    if v < 26 {
        (v + 65) as u8 as char
    } else if v < 52 {
        (v - 26 + 97) as u8 as char
    } else if v < 62 {
        (v - 52 + 48) as u8 as char
    } else if v == 62 {
        '-'
    } else {
        '_'
    }
}

/// The `k`-th group of six bits of `bytes`, where the bytes are read as one
/// row of bits, the high bit of each byte first, and zero bits follow the
/// last byte.
pub open spec fn sextet(bytes: Seq<u8>, k: int) -> int {
    let first = 6 * k / 8;
    let before = 6 * k % 8;
    let high = bytes[first] as int;
    let low = if first + 1 < bytes.len() {
        bytes[first + 1] as int
    } else {
        0
    };
    let both = high * 256 + low;
    if before == 0 {
        both / 1024 % 64
    } else if before == 2 {
        both / 256 % 64
    } else if before == 4 {
        both / 64 % 64
    } else {
        both / 16 % 64
    }
}

/// The URL-safe base64 encoding of `bytes` without padding: one character
/// for each group of six bits that holds a bit of the bytes.
pub open spec fn url_safe_no_pad(bytes: Seq<u8>) -> Seq<char> {
    Seq::new(encoded_len(bytes.len()), |k: int| url_safe_digit(sextet(bytes, k)))
}

/// How many characters encode `n` bytes where nothing is padded: four for
/// each full group of three bytes, and two or three for what remains.
pub open spec fn encoded_len(n: nat) -> nat {
    n / 3 * 4 + if n % 3 == 0 {
        0nat
    } else {
        n % 3 + 1
    }
}

/// Whether `c` belongs to the URL-safe alphabet.
pub open spec fn is_url_safe(c: char) -> bool {
    ||| 'A' <= c <= 'Z'
    ||| 'a' <= c <= 'z'
    ||| '0' <= c <= '9'
    ||| c == '-'
    ||| c == '_'
}

/// Whether `id` is the encoding of some `len` bytes.
pub open spec fn is_id_of(id: Seq<char>, len: nat) -> bool {
    exists|bytes: Seq<u8>| bytes.len() == len && id == #[trigger] url_safe_no_pad(bytes)
}

/// The random source could not supply bytes.
#[derive(Debug, PartialEq, Eq, Structural)]
pub struct RandomSourceFailed;

/// Calls `rand::thread_rng()` and, on the generator it returns,
/// `RngCore::try_fill_bytes`, which overwrites the bytes of `buf` in place.
///
/// Claimed: the buffer keeps its length, and the call reports success. The
/// thread generator of `rand` is a block generator that reseeds itself:
/// its `try_fill_bytes` is its `fill_bytes` followed by `Ok(())`. Where the
/// operating system cannot seed or reseed the generator, `rand` does not
/// return an error but panics. Nothing is claimed of the bytes.
#[verifier::external_body]
fn try_fill_random(buf: &mut Vec<u8>) -> (filled: Result<(), rand::Error>)
    ensures
        filled is Ok,
        final(buf)@.len() == old(buf)@.len(),
{
    rand::thread_rng().try_fill_bytes(buf)
}

/// Calls `base64::encode_config` with `base64::URL_SAFE_NO_PAD`.
///
/// Claimed: the result is the URL-safe base64 encoding of the bytes without
/// padding, character for character. The call panics where the encoded
/// length does not fit the machine, which `requires` leaves out.
#[verifier::external_body]
fn encode_url_safe_no_pad(bytes: &Vec<u8>) -> (text: String)
    requires
        4 * bytes@.len() <= isize::MAX,
    ensures
        text@ == url_safe_no_pad(bytes@),
{
    base64::encode_config(bytes, base64::URL_SAFE_NO_PAD)
}

/// An encoding has the length that the bytes call for, and holds nothing
/// but characters of the URL-safe alphabet.
pub proof fn lemma_url_safe_no_pad(bytes: Seq<u8>)
    ensures
        url_safe_no_pad(bytes).len() == encoded_len(bytes.len()),
        forall|i: int|
            0 <= i < url_safe_no_pad(bytes).len() ==> is_url_safe(
                #[trigger] url_safe_no_pad(bytes)[i],
            ),
{
}

/// The identifier that `bytes` make: their URL-safe encoding without
/// padding.
pub fn id_from_bytes(bytes: &Vec<u8>) -> (id: String)
    requires
        4 * bytes@.len() <= isize::MAX,
    ensures
        id@ == url_safe_no_pad(bytes@),
{
    encode_url_safe_no_pad(bytes)
}

/// Generates a random identifier from `len` random bytes.
///
/// An identifier is the URL-safe encoding, without padding, of the bytes
/// that the random source supplied. There always is one: the random source
/// in use reports no failure, and a machine that cannot supply random bytes
/// ends the program there. The error is what a source that did report a
/// failure would be answered with.
pub fn random_id(len: usize) -> (id: Result<String, RandomSourceFailed>)
    requires
        4 * len <= isize::MAX,
    ensures
        id matches Ok(token) && {
            &&& is_id_of(token@, len as nat)
            &&& token@.len() == encoded_len(len as nat)
            &&& forall|i: int| 0 <= i < token@.len() ==> is_url_safe(#[trigger] token@[i])
        },
{
    let mut buf: Vec<u8> = Vec::new();
    let mut i: usize = 0;
    while i < len
        invariant
            i <= len,
            buf@.len() == i,
        decreases len - i,
    {
        buf.push(0);
        i += 1;
    }
    match try_fill_random(&mut buf) {
        Ok(()) => {
            proof {
                lemma_url_safe_no_pad(buf@);
            }
            Ok(id_from_bytes(&buf))
        },
        Err(_) => Err(RandomSourceFailed),
    }
}

} // verus!
