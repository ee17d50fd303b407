//! Integrity of downloads: SHA-256 digests written in hexadecimal.
use vstd::prelude::*;
use vstd::string::*;
use sha2::Digest;
use crate::error::Error;

verus! {

/// The SHA-256 digest of data.
pub uninterp spec fn sha256(data: Seq<u8>) -> Seq<u8>;

/// Calls `Sha256::digest` of the `sha2` crate: a digest of 32 bytes that depends on the data
/// alone. Which bytes those are is left to the algorithm.
#[verifier::external_body]
fn sha256_digest(data: &[u8]) -> (res: Vec<u8>)
    ensures
        res@ == sha256(data@),
        res@.len() == 32,
{
    sha2::Sha256::digest(data).to_vec()
}

/// The lower-case hexadecimal digit of a number below 16.
pub open spec fn hex_digit(n: nat) -> char {
    if n < 10 {
        ('0' as nat + n) as char
    } else {
        ('a' as nat + n - 10) as char
    }
}

/// Bytes written as two lower-case hexadecimal digits each, the high digit first.
pub open spec fn hex_text(bytes: Seq<u8>) -> Seq<char> {
    Seq::new(
        2 * bytes.len(),
        |i: int|
            if i % 2 == 0 {
                hex_digit(bytes[i / 2] as nat / 16)
            } else {
                hex_digit(bytes[i / 2] as nat % 16)
            },
    )
}

/// Calls `hex::encode`, which writes each byte as two lower-case hexadecimal digits, in order.
#[verifier::external_body]
fn hex_encode(bytes: &[u8]) -> (res: String)
    requires
        2 * bytes@.len() <= isize::MAX,
    ensures
        res@ == hex_text(bytes@),
{
    hex::encode(bytes)
}

/// The SHA-256 digest of data, in hexadecimal.
pub fn sha256_hex(data: &[u8]) -> (res: String)
    ensures
        res@ == hex_text(sha256(data@)),
        res@.len() == 64,
{
    let digest: Vec<u8> = sha256_digest(data);
    hex_encode(digest.as_slice())
}

/// Accepts a digest that is the expected one, letter for letter.
pub fn verify_checksum(expected: &String, actual: String) -> (res: Result<(), Error>)
    ensures
        res is Ok <==> actual@ == expected@,
        res matches Err(e) ==> e == (Error::ChecksumMismatch { expected: *expected, actual }),
{
    if actual == *expected {
        Ok(())
    } else {
        Err(Error::ChecksumMismatch { expected: expected.clone(), actual })
    }
}

/// Two digests that are written alike are the same digest.
pub proof fn law_hex_text_injective(a: Seq<u8>, b: Seq<u8>)
    requires
        hex_text(a) == hex_text(b),
    ensures
        a == b,
{
    assert(hex_text(a).len() == 2 * a.len());
    assert(hex_text(b).len() == 2 * b.len());
    assert forall|i: int| 0 <= i < a.len() implies a[i] == b[i] by {
        lemma_hex_pair(a, i);
        lemma_hex_pair(b, i);
        lemma_hex_digit_injective(a[i] as nat / 16, b[i] as nat / 16);
        lemma_hex_digit_injective(a[i] as nat % 16, b[i] as nat % 16);
    }
    assert(a =~= b);
}

/// The two digits that stand for a byte.
proof fn lemma_hex_pair(bytes: Seq<u8>, i: int)
    requires
        0 <= i < bytes.len(),
    ensures
        hex_text(bytes)[2 * i] == hex_digit(bytes[i] as nat / 16),
        hex_text(bytes)[2 * i + 1] == hex_digit(bytes[i] as nat % 16),
{
    let even = 2 * i;
    let odd = 2 * i + 1;
    assert(even % 2 == 0 && even / 2 == i);
    assert(odd % 2 == 1 && odd / 2 == i);
    assert(hex_text(bytes)[even] == hex_digit(bytes[even / 2] as nat / 16));
    assert(hex_text(bytes)[odd] == hex_digit(bytes[odd / 2] as nat % 16));
}

/// Different numbers below 16 have different digits.
proof fn lemma_hex_digit_injective(m: nat, n: nat)
    requires
        m < 16,
        n < 16,
        hex_digit(m) == hex_digit(n),
    ensures
        m == n,
{
    assert(hex_digit(m) as nat == if m < 10 { '0' as nat + m } else { ('a' as nat + m - 10) as nat });
    assert(hex_digit(n) as nat == if n < 10 { '0' as nat + n } else { ('a' as nat + n - 10) as nat });
}

/// A digest is written with the characters `0` to `9` and `a` to `f` only, so an expected digest
/// in any other spelling is never met.
pub proof fn law_hex_text_lower_case(bytes: Seq<u8>, i: int)
    requires
        0 <= i < hex_text(bytes).len(),
    ensures
        '0' <= hex_text(bytes)[i] <= '9' || 'a' <= hex_text(bytes)[i] <= 'f',
{
    let n = if i % 2 == 0 { bytes[i / 2] as nat / 16 } else { bytes[i / 2] as nat % 16 };
    assert(n < 16);
    assert(hex_digit(n) as nat == if n < 10 { '0' as nat + n } else { ('a' as nat + n - 10) as nat });
}

/// The number that a hexadecimal digit stands for.
pub open spec fn hex_value(c: char) -> int {
    if c <= '9' {
        c as int - '0' as int
    } else {
        c as int - 'a' as int + 10
    }
}

/// A digest is written with two characters for each byte, in order, the first of which stands for
/// its sixteens and the second for its ones.
pub proof fn law_hex_text_denotes_bytes(bytes: Seq<u8>, i: int)
    requires
        0 <= i < bytes.len(),
    ensures
        hex_text(bytes).len() == 2 * bytes.len(),
        16 * hex_value(hex_text(bytes)[2 * i]) + hex_value(hex_text(bytes)[2 * i + 1])
            == bytes[i],
{
    lemma_hex_pair(bytes, i);
    lemma_hex_value(bytes[i] as nat / 16);
    lemma_hex_value(bytes[i] as nat % 16);
}

/// A digit stands for the number that it is the digit of.
proof fn lemma_hex_value(n: nat)
    requires
        n < 16,
    ensures
        hex_value(hex_digit(n)) == n,
{
    assert(hex_digit(n) as nat == if n < 10 { '0' as nat + n } else { ('a' as nat + n - 10) as nat });
}

} // verus!
