//! The authentication token that the kernel takes as the payload of a key.
use crate::ecryptfs::key::{ECRYPTFS_DEFAULT_NUM_HASH_ITERATIONS, ECRYPTFS_MAX_KEY_BYTES};
use vstd::prelude::*;
use vstd::string::*;
use vstd::utf8::*;

verus! {

/// The version of the token.
pub const ECRYPTFS_VERSION: u16 = 0x0004;

/// The type of a token with a passphrase.
pub const ECRYPTFS_PASSWORD: u16 = 0x0000;

/// The flag of a token that holds a key.
pub const ECRYPTFS_SESSION_KEY_ENCRYPTION_KEY_SET: u32 = 0x02;

/// The number by which OpenPGP knows SHA-512.
pub const PGP_DIGEST_ALGO_SHA512: i32 = 10;

/// The size of the signature: sixteen digits and a terminating zero.
pub const ECRYPTFS_PASSWORD_SIG_SIZE: usize = 17;

/// The order of the bytes of a number.
#[derive(Clone, Copy, Debug, PartialEq, Eq, Structural)]
pub enum ByteOrder {
    /// The low byte first.
    Little,
    /// The high byte first.
    Big,
}

/// The kernel's `struct ecryptfs_password`.
pub struct EcryptfsPassword {
    /// Not used.
    pub password_bytes: i32,
    /// The hash algorithm.
    pub hash_algo: i32,
    /// The hash iterations.
    pub hash_iterations: i32,
    /// The size of the key.
    pub session_key_encryption_key_bytes: i32,
    /// Flags.
    pub flags: u32,
    /// The key.
    pub session_key_encryption_key: [u8; 64],
    /// The signature, ended by a zero.
    pub signature: [u8; 17],
    /// The salt.
    pub salt: [u8; 8],
}

/// The kernel's `struct ecryptfs_auth_tok`, with a passphrase.
pub struct EcryptfsAuthTok {
    /// The version.
    pub version: u16,
    /// The type.
    pub token_type: u16,
    /// Flags.
    pub flags: u32,
    /// The session key: flags, two sizes, 512 and 64 bytes. Not used with a passphrase.
    pub session_key: [u8; 588],
    /// Reserved.
    pub reserved: [u8; 32],
    /// The passphrase's key.
    pub password: EcryptfsPassword,
}

/// The first `limit` bytes of `data`, filled up with zeros to `size` bytes.
pub open spec fn zero_padded(data: Seq<u8>, limit: nat, size: nat) -> Seq<u8> {
    Seq::new(
        size,
        |i: int|
            if i < limit && i < data.len() {
                data[i]
            } else {
                0
            },
    )
}

/// The two bytes of a number.
pub open spec fn u16_bytes(x: u16, order: ByteOrder) -> Seq<u8> {
    let low = (x % 256) as u8;
    let high = (x / 256) as u8;
    match order {
        ByteOrder::Little => seq![low, high],
        ByteOrder::Big => seq![high, low],
    }
}

/// The four bytes of a number.
pub open spec fn u32_bytes(x: u32, order: ByteOrder) -> Seq<u8> {
    let b0 = (x % 256) as u8;
    let b1 = (x / 256 % 256) as u8;
    let b2 = (x / 65536 % 256) as u8;
    let b3 = (x / 16777216) as u8;
    match order {
        ByteOrder::Little => seq![b0, b1, b2, b3],
        ByteOrder::Big => seq![b3, b2, b1, b0],
    }
}

/// The number between 0 and 2^32 that has the same four bytes as `x`.
pub open spec fn bits_of(x: i32) -> u32 {
    if x >= 0 {
        x as u32
    } else {
        (x + 0x1_0000_0000) as u32
    }
}

impl EcryptfsPassword {
    /// The bytes of the structure in the kernel's layout; three bytes of padding at the
    /// end keep the size a multiple of four.
    pub open spec fn bytes(self, order: ByteOrder) -> Seq<u8> {
        u32_bytes(bits_of(self.password_bytes), order) + u32_bytes(bits_of(self.hash_algo), order)
            + u32_bytes(bits_of(self.hash_iterations), order) + u32_bytes(
            bits_of(self.session_key_encryption_key_bytes),
            order,
        ) + u32_bytes(self.flags, order) + self.session_key_encryption_key@ + self.signature@
            + self.salt@ + seq![0u8, 0, 0]
    }
}

impl EcryptfsAuthTok {
    /// The bytes of the structure in the kernel's layout.
    pub open spec fn bytes(self, order: ByteOrder) -> Seq<u8> {
        u16_bytes(self.version, order) + u16_bytes(self.token_type, order) + u32_bytes(
            self.flags,
            order,
        ) + self.session_key@ + self.reserved@ + self.password.bytes(order)
    }
}

/// The bytes of the token of a key with the given signature and salt.
pub open spec fn token_bytes(
    key: Seq<u8>,
    sig: Seq<u8>,
    salt: Seq<u8>,
    order: ByteOrder,
) -> Seq<u8> {
    u16_bytes(ECRYPTFS_VERSION, order) + u16_bytes(ECRYPTFS_PASSWORD, order) + u32_bytes(0, order)
        + Seq::new(588, |i: int| 0u8) + Seq::new(32, |i: int| 0u8) + (u32_bytes(0, order)
        + u32_bytes(bits_of(PGP_DIGEST_ALGO_SHA512), order) + u32_bytes(
        ECRYPTFS_DEFAULT_NUM_HASH_ITERATIONS,
        order,
    ) + u32_bytes(64, order) + u32_bytes(ECRYPTFS_SESSION_KEY_ENCRYPTION_KEY_SET, order)
        + zero_padded(key, 64, 64) + zero_padded(sig, 16, 17) + salt + seq![0u8, 0, 0])
}

/// Calls `u16::to_ne_bytes`: the bytes of a number as they lie in memory, in the order
/// of the machine that runs this. Which order that is the contract leaves open.
#[verifier::external_body]
pub(crate) fn native_bytes(x: u16) -> (r: [u8; 2])
    ensures
        r@ == u16_bytes(x, ByteOrder::Little) || r@ == u16_bytes(x, ByteOrder::Big),
{
    x.to_ne_bytes()
}

/// The byte order in which the number one was written as these two bytes.
pub fn byte_order_of_one(bytes: [u8; 2]) -> (r: ByteOrder)
    requires
        bytes@ == u16_bytes(1, ByteOrder::Little) || bytes@ == u16_bytes(1, ByteOrder::Big),
    ensures
        bytes@ == u16_bytes(1, r),
{
    if bytes[0] == 1 {
        ByteOrder::Little
    } else {
        ByteOrder::Big
    }
}

/// A byte order in which the machine writes the number one.
pub closed spec fn is_native(order: ByteOrder) -> bool {
    exists|bytes: [u8; 2]|
        #[trigger] call_ensures(native_bytes, (1u16,), bytes) && bytes@ == u16_bytes(1, order)
}

/// The machine's own byte order: the one in which `native_bytes` writes the number one.
pub(crate) fn native_byte_order() -> (r: ByteOrder)
    ensures
        is_native(r),
{
    let bytes = native_bytes(1);
    byte_order_of_one(bytes)
}

/// Appends the bytes of a `u16`.
fn push_u16(out: &mut Vec<u8>, x: u16, order: ByteOrder)
    ensures
        final(out)@ == old(out)@ + u16_bytes(x, order),
{
    let low: u8 = (x % 256) as u8;
    let high: u8 = (x / 256) as u8;
    match order {
        ByteOrder::Little => {
            out.push(low);
            out.push(high);
        },
        ByteOrder::Big => {
            out.push(high);
            out.push(low);
        },
    }
    assert(out@ =~= old(out)@ + u16_bytes(x, order));
}

/// Appends the bytes of a `u32`.
fn push_u32(out: &mut Vec<u8>, x: u32, order: ByteOrder)
    ensures
        final(out)@ == old(out)@ + u32_bytes(x, order),
{
    let b0: u8 = (x % 256) as u8;
    let b1: u8 = (x / 256 % 256) as u8;
    let b2: u8 = (x / 65536 % 256) as u8;
    let b3: u8 = (x / 16777216) as u8;
    match order {
        ByteOrder::Little => {
            out.push(b0);
            out.push(b1);
            out.push(b2);
            out.push(b3);
        },
        ByteOrder::Big => {
            out.push(b3);
            out.push(b2);
            out.push(b1);
            out.push(b0);
        },
    }
    assert(out@ =~= old(out)@ + u32_bytes(x, order));
}

/// Appends the bytes of an `i32`.
fn push_i32(out: &mut Vec<u8>, x: i32, order: ByteOrder)
    ensures
        final(out)@ == old(out)@ + u32_bytes(bits_of(x), order),
{
    let bits: u32 = if x >= 0 {
        x as u32
    } else {
        (x as i64 + 0x1_0000_0000) as u32
    };
    push_u32(out, bits, order);
}

impl EcryptfsPassword {
    /// Appends the bytes of the structure.
    fn append_to(&self, out: &mut Vec<u8>, order: ByteOrder)
        ensures
            final(out)@ == old(out)@ + self.bytes(order),
    {
        push_i32(out, self.password_bytes, order);
        push_i32(out, self.hash_algo, order);
        push_i32(out, self.hash_iterations, order);
        push_i32(out, self.session_key_encryption_key_bytes, order);
        push_u32(out, self.flags, order);
        out.extend_from_slice(self.session_key_encryption_key.as_slice());
        out.extend_from_slice(self.signature.as_slice());
        out.extend_from_slice(self.salt.as_slice());
        out.push(0);
        out.push(0);
        out.push(0);
        assert(out@ =~= old(out)@ + self.bytes(order));
    }
}

impl EcryptfsAuthTok {
    /// The token of a key. A signature longer than sixteen bytes and a key longer than
    /// 64 bytes are cut.
    pub fn new(key: &[u8], sig: &str, salt: &[u8; 8]) -> (r: EcryptfsAuthTok)
        ensures
            r.version == ECRYPTFS_VERSION,
            r.token_type == ECRYPTFS_PASSWORD,
            r.flags == 0,
            r.session_key@ == Seq::new(588, |i: int| 0u8),
            r.reserved@ == Seq::new(32, |i: int| 0u8),
            r.password.password_bytes == 0,
            r.password.hash_algo == PGP_DIGEST_ALGO_SHA512,
            r.password.hash_iterations == ECRYPTFS_DEFAULT_NUM_HASH_ITERATIONS,
            r.password.session_key_encryption_key_bytes == ECRYPTFS_MAX_KEY_BYTES,
            r.password.flags == ECRYPTFS_SESSION_KEY_ENCRYPTION_KEY_SET,
            r.password.session_key_encryption_key@ == zero_padded(key@, 64, 64),
            r.password.signature@ == zero_padded(encode_utf8(sig@), 16, 17),
            r.password.salt@ == salt@,
            forall|order: ByteOrder| #[trigger]
                r.bytes(order) == token_bytes(key@, encode_utf8(sig@), salt@, order),
    {
        let sig_bytes = sig.as_bytes();
        let mut signature: [u8; 17] = [0u8; 17];
        let mut i: usize = 0;
        while i < ECRYPTFS_PASSWORD_SIG_SIZE - 1 && i < sig_bytes.len()
            invariant
                i <= 16,
                i <= sig_bytes@.len(),
                forall|k: int| 0 <= k < i ==> signature@[k] == sig_bytes@[k],
                forall|k: int| i <= k < 17 ==> signature@[k] == 0,
            decreases 17 - i,
        {
            signature[i] = sig_bytes[i];
            i = i + 1;
        }
        assert(signature@ =~= zero_padded(sig_bytes@, 16, 17));
        let mut session_key_encryption_key: [u8; 64] = [0u8; 64];
        let mut j: usize = 0;
        while j < ECRYPTFS_MAX_KEY_BYTES && j < key.len()
            invariant
                j <= 64,
                j <= key@.len(),
                forall|k: int| 0 <= k < j ==> session_key_encryption_key@[k] == key@[k],
                forall|k: int| j <= k < 64 ==> session_key_encryption_key@[k] == 0,
            decreases 64 - j,
        {
            session_key_encryption_key[j] = key[j];
            j = j + 1;
        }
        assert(session_key_encryption_key@ =~= zero_padded(key@, 64, 64));
        let session_key: [u8; 588] = [0u8; 588];
        let reserved: [u8; 32] = [0u8; 32];
        assert(session_key@ =~= Seq::new(588, |i: int| 0u8));
        assert(reserved@ =~= Seq::new(32, |i: int| 0u8));
        EcryptfsAuthTok {
            version: ECRYPTFS_VERSION,
            token_type: ECRYPTFS_PASSWORD,
            flags: 0,
            session_key,
            reserved,
            password: EcryptfsPassword {
                password_bytes: 0,
                hash_algo: PGP_DIGEST_ALGO_SHA512,
                hash_iterations: ECRYPTFS_DEFAULT_NUM_HASH_ITERATIONS as i32,
                session_key_encryption_key_bytes: ECRYPTFS_MAX_KEY_BYTES as i32,
                flags: ECRYPTFS_SESSION_KEY_ENCRYPTION_KEY_SET,
                session_key_encryption_key,
                signature,
                salt: *salt,
            },
        }
    }

    /// The token in the kernel's layout, with numbers in the given byte order.
    pub fn to_bytes(&self, order: ByteOrder) -> (r: Vec<u8>)
        ensures
            r@ == self.bytes(order),
            r@.len() == 740,
    {
        let mut out: Vec<u8> = Vec::new();
        push_u16(&mut out, self.version, order);
        push_u16(&mut out, self.token_type, order);
        push_u32(&mut out, self.flags, order);
        out.extend_from_slice(self.session_key.as_slice());
        out.extend_from_slice(self.reserved.as_slice());
        self.password.append_to(&mut out, order);
        assert(out@ =~= self.bytes(order));
        out
    }

    /// The token in the kernel's layout, with numbers in the machine's own byte order.
    pub fn as_bytes(&self) -> (r: Vec<u8>)
        ensures
            exists|order: ByteOrder| #[trigger] is_native(order) && r@ == self.bytes(order),
            r@.len() == 740,
    {
        let order = native_byte_order();
        self.to_bytes(order)
    }
}

/// Where the fields of a token lie in its 740 bytes.
pub proof fn law_token_layout(tok: EcryptfsAuthTok, order: ByteOrder)
    ensures
        tok.bytes(order).len() == 740,
        tok.bytes(order).subrange(0, 2) == u16_bytes(tok.version, order),
        tok.bytes(order).subrange(2, 4) == u16_bytes(tok.token_type, order),
        tok.bytes(order).subrange(4, 8) == u32_bytes(tok.flags, order),
        tok.bytes(order).subrange(8, 596) == tok.session_key@,
        tok.bytes(order).subrange(596, 628) == tok.reserved@,
        tok.bytes(order).subrange(628, 632) == u32_bytes(
            bits_of(tok.password.password_bytes),
            order,
        ),
        tok.bytes(order).subrange(632, 636) == u32_bytes(bits_of(tok.password.hash_algo), order),
        tok.bytes(order).subrange(636, 640) == u32_bytes(
            bits_of(tok.password.hash_iterations),
            order,
        ),
        tok.bytes(order).subrange(640, 644) == u32_bytes(
            bits_of(tok.password.session_key_encryption_key_bytes),
            order,
        ),
        tok.bytes(order).subrange(644, 648) == u32_bytes(tok.password.flags, order),
        tok.bytes(order).subrange(648, 712) == tok.password.session_key_encryption_key@,
        tok.bytes(order).subrange(712, 729) == tok.password.signature@,
        tok.bytes(order).subrange(729, 737) == tok.password.salt@,
        tok.bytes(order).subrange(737, 740) == seq![0u8, 0, 0],
{
}

/// The signature field always ends in a zero, and holds the whole of a signature of
/// at most sixteen bytes.
pub proof fn law_signature_is_terminated(sig: Seq<u8>)
    ensures
        zero_padded(sig, 16, 17)[16] == 0,
        sig.len() <= 16 ==> zero_padded(sig, 16, 17).take(sig.len() as int) == sig,
{
}

} // verus!
