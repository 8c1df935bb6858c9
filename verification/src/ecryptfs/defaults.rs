//! The values of parameters that are left out.
use crate::text;
use crate::text::decimal_text;
use vstd::prelude::*;
use vstd::string::*;

verus! {

/// The cipher.
pub const CIPHER: &'static str = "aes";

/// The number of key bytes.
pub const KEY_BYTES: usize = 32;

/// Whether files that are not encrypted can be read.
pub const ENABLE_PASSTHROUGH: &'static str = "false";

/// Whether file names are encrypted.
pub const ENABLE_FILENAME_CRYPTO: &'static str = "false";

/// Whether the keys leave the keyring with the mount.
pub const UNLINK_SIGS: &'static str = "true";

/// The cipher.
pub fn cipher() -> (r: String)
    ensures
        r@ == "aes"@,
{
    CIPHER.to_owned()
}

/// The number of key bytes, in decimal.
pub fn key_bytes() -> (r: String)
    ensures
        r@ == "32"@,
        text::parse_number(r@, usize::MAX as nat) == Some(KEY_BYTES as nat),
{
    proof {
        reveal_strlit("32");
        assert(text::decimal(3) =~= seq!['3']);
        assert(text::decimal(32) =~= seq!['3', '2']);
        text::law_decimal_reads_back(KEY_BYTES as nat, usize::MAX as nat);
    }
    decimal_text(KEY_BYTES as u64)
}

/// Whether files that are not encrypted can be read.
pub fn enable_passthrough() -> (r: String)
    ensures
        r@ == "false"@,
{
    ENABLE_PASSTHROUGH.to_owned()
}

/// Whether file names are encrypted.
pub fn enable_filename_crypto() -> (r: String)
    ensures
        r@ == "false"@,
{
    ENABLE_FILENAME_CRYPTO.to_owned()
}

/// Whether the keys leave the keyring with the mount.
pub fn unlink_sigs() -> (r: String)
    ensures
        r@ == "true"@,
{
    UNLINK_SIGS.to_owned()
}

} // verus!
