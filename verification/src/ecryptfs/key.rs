//! From a passphrase to a key and its signature.
use crate::ecryptfs::secret::SecretBytes;
use sha2::{Digest, Sha512};
use vstd::prelude::*;
use vstd::slice::{slice_subrange, slice_to_vec};
use vstd::string::*;

verus! {

/// The salt of the key for file contents.
pub const ECRYPTFS_DEFAULT_SALT: [u8; 8] = [0x00, 0x11, 0x22, 0x33, 0x44, 0x55, 0x66, 0x77];

/// The salt of the key for file names: the characters `99887766`.
pub const ECRYPTFS_DEFAULT_SALT_FNEK: [u8; 8] = [0x39, 0x39, 0x38, 0x38, 0x37, 0x37, 0x36, 0x36];

/// How often the salted passphrase is hashed.
pub const ECRYPTFS_DEFAULT_NUM_HASH_ITERATIONS: u32 = 65536;

/// The size of a derived key.
pub const ECRYPTFS_MAX_KEY_BYTES: usize = 64;

/// The SHA-512 digest of `data`.
pub uninterp spec fn sha512(data: Seq<u8>) -> Seq<u8>;

/// Calls `sha2::Sha512::digest`, the SHA-512 hash function, whose output has 64 bytes.
#[verifier::external_body]
fn sha512_digest(data: &[u8]) -> (r: Vec<u8>)
    ensures
        r@ == sha512(data@),
        r@.len() == 64,
{
    Sha512::digest(data).to_vec()
}

/// The lower-case character of a hexadecimal digit.
pub open spec fn hex_digit(d: nat) -> char {
    if d < 10 {
        ('0' as nat + d) as char
    } else {
        ('a' as nat + (d - 10) as nat) as char
    }
}

/// Two hexadecimal digits for each byte, the high one first.
pub open spec fn hex_text(data: Seq<u8>) -> Seq<char> {
    Seq::new(
        2 * data.len(),
        |i: int|
            hex_digit(
                if i % 2 == 0 {
                    (data[i / 2] / 16) as nat
                } else {
                    (data[i / 2] % 16) as nat
                },
            ),
    )
}

/// Calls `hex::encode`, which writes each byte as two lower-case hexadecimal digits.
#[verifier::external_body]
fn hex_encode(data: &[u8]) -> (r: String)
    ensures
        r@ == hex_text(data@),
{
    hex::encode(data)
}

/// The digest of the digest, and so on: `n` times, starting from `data`.
pub open spec fn sha512_iterated(data: Seq<u8>, n: nat) -> Seq<u8>
    decreases n,
{
    if n == 0 {
        data
    } else {
        sha512(sha512_iterated(data, (n - 1) as nat))
    }
}

/// The key of a passphrase: the salt comes first, then the passphrase, then the hash
/// iterations.
pub open spec fn derived_key(passphrase: Seq<u8>, salt: Seq<u8>) -> Seq<u8> {
    sha512_iterated(salt + passphrase, ECRYPTFS_DEFAULT_NUM_HASH_ITERATIONS as nat)
}

/// The text form of the first eight bytes of a digest.
pub open spec fn signature_of_digest(digest: Seq<u8>) -> Seq<char> {
    hex_text(digest.take(8))
}

/// The signature of a key, by which the kernel finds it.
pub open spec fn key_signature(key: Seq<u8>) -> Seq<char> {
    signature_of_digest(sha512(key))
}

/// Bytes without the line feeds and carriage returns at their end.
pub open spec fn without_line_ending(bytes: Seq<u8>) -> Seq<u8>
    decreases bytes.len(),
{
    if bytes.len() > 0 && (bytes.last() == 0x0a || bytes.last() == 0x0d) {
        without_line_ending(bytes.drop_last())
    } else {
        bytes
    }
}

/// Keeps a secret as it is, except for the line endings at its end, which secrets from
/// files commonly have.
pub fn normalize_passphrase_bytes(input: &[u8]) -> (r: SecretBytes)
    ensures
        r@ == without_line_ending(input@),
{
    let mut output: Vec<u8> = slice_to_vec(input);
    while output.len() > 0 && (output[output.len() - 1] == 0x0a || output[output.len() - 1] == 0x0d)
        invariant
            without_line_ending(output@) == without_line_ending(input@),
        decreases output@.len(),
    {
        let ghost before = output@;
        output.pop();
        assert(output@ =~= before.drop_last());
    }
    SecretBytes::new(output)
}

/// The salt, then the passphrase.
pub fn salted_passphrase(passphrase: &[u8], salt: &[u8; 8]) -> (r: Vec<u8>)
    ensures
        r@ == salt@ + passphrase@,
{
    let mut data: Vec<u8> = Vec::new();
    data.extend_from_slice(salt.as_slice());
    data.extend_from_slice(passphrase);
    assert(data@ =~= salt@ + passphrase@);
    data
}

/// The signature that belongs to the digest of a key.
pub fn signature_from_digest(digest: &[u8]) -> (r: String)
    requires
        digest@.len() >= 8,
    ensures
        r@ == signature_of_digest(digest@),
{
    let head = slice_subrange(digest, 0, 8);
    assert(head@ =~= digest@.take(8));
    hex_encode(head)
}

/// Derives the key of a passphrase by iterated hashing, and its signature.
///
/// The signature is `hex(SHA512(key)[0..8])`, as `ecryptfs-add-passphrase` computes it.
pub fn derive_ecryptfs_key(passphrase: &[u8], salt: &[u8; 8]) -> (r: (Vec<u8>, String))
    ensures
        r.0@ == derived_key(passphrase@, salt@),
        r.0@ == sha512_iterated(salt@ + passphrase@, 65536),
        r.0@.len() == ECRYPTFS_MAX_KEY_BYTES,
        r.1@ == key_signature(derived_key(passphrase@, salt@)),
        r.1@.len() == 16,
{
    let data = salted_passphrase(passphrase, salt);
    let mut hash: Vec<u8> = sha512_digest(data.as_slice());
    let mut done: u32 = 1;
    assert(sha512_iterated(data@, 0) == data@);
    while done < ECRYPTFS_DEFAULT_NUM_HASH_ITERATIONS
        invariant
            1 <= done <= ECRYPTFS_DEFAULT_NUM_HASH_ITERATIONS,
            hash@ == sha512_iterated(data@, done as nat),
            hash@.len() == 64,
        decreases ECRYPTFS_DEFAULT_NUM_HASH_ITERATIONS - done,
    {
        hash = sha512_digest(hash.as_slice());
        done = done + 1;
    }
    let sig_hash = sha512_digest(hash.as_slice());
    let sig = signature_from_digest(sig_hash.as_slice());
    (hash, sig)
}

/// A character of a lower-case hexadecimal text.
pub open spec fn is_lower_hex(c: char) -> bool {
    '0' <= c <= '9' || 'a' <= c <= 'f'
}

/// The signature that belongs to a digest of at least eight bytes is sixteen
/// lower-case hexadecimal digits.
pub proof fn law_signature_is_hex(digest: Seq<u8>)
    requires
        digest.len() >= 8,
    ensures
        signature_of_digest(digest).len() == 16,
        forall|i: int| 0 <= i < 16 ==> is_lower_hex(#[trigger] signature_of_digest(digest)[i]),
{
}

/// Normalizing a passphrase keeps a prefix of it, drops nothing but line feeds and
/// carriage returns, and leaves none of these at the end.
pub proof fn law_normalized_passphrase(bytes: Seq<u8>)
    ensures
        without_line_ending(bytes).len() <= bytes.len(),
        without_line_ending(bytes) == bytes.take(without_line_ending(bytes).len() as int),
        forall|i: int|
            without_line_ending(bytes).len() <= i < bytes.len() ==> #[trigger] bytes[i] == 0x0a
                || bytes[i] == 0x0d,
        without_line_ending(bytes).len() > 0 ==> without_line_ending(bytes).last() != 0x0a
            && without_line_ending(bytes).last() != 0x0d,
    decreases bytes.len(),
{
    if bytes.len() > 0 && (bytes.last() == 0x0a || bytes.last() == 0x0d) {
        let front = bytes.drop_last();
        law_normalized_passphrase(front);
        let n = without_line_ending(bytes).len() as int;
        assert(front.take(n) =~= bytes.take(n));
        assert forall|i: int| n <= i < bytes.len() implies #[trigger] bytes[i] == 0x0a || bytes[i]
            == 0x0d by {
            if i < front.len() {
                assert(bytes[i] == front[i]);
            }
        }
    } else {
        assert(bytes.take(bytes.len() as int) =~= bytes);
    }
}

/// A normalized passphrase stays as it is when it is normalized again.
pub proof fn law_normalizing_twice(bytes: Seq<u8>)
    ensures
        without_line_ending(without_line_ending(bytes)) == without_line_ending(bytes),
{
    law_normalized_passphrase(bytes);
}

} // verus!
