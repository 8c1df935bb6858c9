//! Secret bytes, wiped when they are dropped.
use vstd::prelude::*;
use zeroize::Zeroizing;

verus! {

/// Secret bytes in a `zeroize::Zeroizing<Vec<u8>>`, which overwrites them with zeros
/// when it is dropped.
#[verifier::external_body]
pub struct SecretBytes {
    bytes: Zeroizing<Vec<u8>>,
}

/// The bytes that a secret holds.
pub uninterp spec fn secret_contents(secret: SecretBytes) -> Seq<u8>;

impl View for SecretBytes {
    type V = Seq<u8>;

    open spec fn view(&self) -> Seq<u8> {
        secret_contents(*self)
    }
}

/// Calls `Zeroizing::new`, which moves the vector into the wrapper as it is.
#[verifier::external_body]
fn zeroizing(bytes: Vec<u8>) -> (r: SecretBytes)
    ensures
        secret_contents(r) == bytes@,
{
    SecretBytes { bytes: Zeroizing::new(bytes) }
}

/// Calls `Zeroizing`'s `deref`, which borrows the wrapped vector; the slice is all of it.
#[verifier::external_body]
fn wrapped_bytes(secret: &SecretBytes) -> (r: &[u8])
    ensures
        r@ == secret_contents(*secret),
{
    secret.bytes.as_slice()
}

impl SecretBytes {
    /// Takes over bytes as a secret.
    pub fn new(bytes: Vec<u8>) -> (r: SecretBytes)
        ensures
            r@ == bytes@,
    {
        zeroizing(bytes)
    }

    /// The bytes.
    pub fn as_slice(&self) -> (r: &[u8])
        ensures
            r@ == self@,
    {
        wrapped_bytes(self)
    }
}

} // verus!
