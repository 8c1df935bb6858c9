//! The parameters of an eCryptfs mount, and the options that the mount system call gets.
use crate::ecryptfs::defaults;
use crate::ecryptfs::error::EcryptfsError;
use crate::text;
use crate::text::{decimal_text, joined_by_commas, same_text};
use vstd::prelude::*;
use vstd::string::*;
use vstd::utf8::*;

verus! {

/// The lower-case form of a text.
pub uninterp spec fn unicode_lowercase(s: Seq<char>) -> Seq<char>;

/// A text with its letters `A` to `Z` in lower case.
pub open spec fn ascii_lowercase(s: Seq<char>) -> Seq<char> {
    Seq::new(
        s.len(),
        |i: int|
            if 'A' <= s[i] <= 'Z' {
                (s[i] as nat + 32) as char
            } else {
                s[i]
            },
    )
}

/// Calls `str::to_lowercase`, the lower-case form by Unicode's rules. Of a text in ASCII
/// it changes the letters `A` to `Z` and nothing else.
#[verifier::external_body]
fn lowercase(s: &str) -> (r: String)
    ensures
        r@ == unicode_lowercase(s@),
        is_ascii_chars(s@) ==> r@ == ascii_lowercase(s@),
{
    s.to_lowercase()
}

/// The words that switch something on.
pub open spec fn is_affirmative(word: Seq<char>) -> bool {
    ||| word == "true"@
    ||| word == "1"@
    ||| word == "yes"@
    ||| word == "y"@
    ||| word == "on"@
}

/// Tells whether a word in lower case switches something on.
pub fn affirmative(word: &str) -> (r: bool)
    ensures
        r == is_affirmative(word@),
{
    same_text(word, "true") || same_text(word, "1") || same_text(word, "yes") || same_text(
        word,
        "y",
    ) || same_text(word, "on")
}

/// A text means yes: in lower case it is one of the words that switch something on.
pub open spec fn means_yes(value: Seq<char>) -> bool {
    is_affirmative(unicode_lowercase(value))
}

/// Reads a switch. The case of letters does not matter; what is no word for "on" means
/// "off".
pub fn parse_string_boolean_to_bool(value: &str) -> (r: bool)
    ensures
        r == means_yes(value@),
        is_ascii_chars(value@) ==> r == is_affirmative(ascii_lowercase(value@)),
{
    let lower = lowercase(value);
    affirmative(lower.as_str())
}

/// The parameters of an eCryptfs mount.
#[derive(Debug, PartialEq, Eq)]
pub struct EcryptfsMountParameters {
    /// Where the passphrase is found (such as `kbs://...`); needed for the mount.
    pub passphrase: Option<String>,
    /// Where the passphrase for file names is found. Without it, `passphrase` serves,
    /// if file names are to be encrypted.
    pub fnek_passphrase: Option<String>,
    /// The cipher.
    pub cipher: String,
    /// The number of key bytes, in decimal.
    pub key_bytes: String,
    /// Whether files that are not encrypted can be read.
    pub enable_passthrough: String,
    /// Whether file names are encrypted.
    pub enable_filename_crypto: String,
    /// Whether the keys leave the keyring with the mount.
    pub unlink_sigs: String,
}

/// Copies an optional string.
pub fn optional_clone(s: &Option<String>) -> (r: Option<String>)
    ensures
        r == *s,
{
    match s {
        Some(s) => Some(s.clone()),
        None => None,
    }
}

impl Clone for EcryptfsMountParameters {
    fn clone(&self) -> (r: Self)
        ensures
            r == *self,
    {
        EcryptfsMountParameters {
            passphrase: optional_clone(&self.passphrase),
            fnek_passphrase: optional_clone(&self.fnek_passphrase),
            cipher: self.cipher.clone(),
            key_bytes: self.key_bytes.clone(),
            enable_passthrough: self.enable_passthrough.clone(),
            enable_filename_crypto: self.enable_filename_crypto.clone(),
            unlink_sigs: self.unlink_sigs.clone(),
        }
    }
}

/// The text of an optional string.
pub open spec fn optional_text(s: Option<String>) -> Option<Seq<char>> {
    match s {
        Some(s) => Some(s@),
        None => None,
    }
}

/// The part of the options that names a signature.
pub open spec fn signature_part(label: Seq<char>, sig: Option<Seq<char>>) -> Seq<Seq<char>> {
    match sig {
        Some(sig) => seq![label + sig],
        None => Seq::empty(),
    }
}

/// One part, or none.
pub open spec fn part_if(wanted: bool, part: Seq<char>) -> Seq<Seq<char>> {
    if wanted {
        seq![part]
    } else {
        Seq::empty()
    }
}

/// The options of the mount system call: cipher and key size, then the switches that
/// are on, then the signatures that there are.
pub open spec fn mount_options(
    cipher: Seq<char>,
    key_bytes: nat,
    passthrough: bool,
    unlink_sigs: bool,
    sig: Option<Seq<char>>,
    fnek_sig: Option<Seq<char>>,
) -> Seq<char> {
    text::join(
        seq![
            "ecryptfs_cipher="@ + cipher,
            "ecryptfs_key_bytes="@ + text::decimal(key_bytes),
        ] + part_if(passthrough, "ecryptfs_passthrough"@) + part_if(
            unlink_sigs,
            "ecryptfs_unlink_sigs"@,
        ) + signature_part("ecryptfs_sig="@, sig) + signature_part("ecryptfs_fnek_sig="@, fnek_sig),
        ',',
    )
}

impl EcryptfsMountParameters {
    /// Where the passphrase is found.
    pub open spec fn fek_uri(self) -> Option<Seq<char>> {
        optional_text(self.passphrase)
    }

    /// File names are to be encrypted.
    pub open spec fn filename_crypto(self) -> bool {
        means_yes(self.enable_filename_crypto@)
    }

    /// Where the passphrase for file names is found, if they are to be encrypted.
    pub open spec fn fnek_uri(self) -> Option<Seq<char>> {
        if !self.filename_crypto() {
            None
        } else if self.fnek_passphrase is Some {
            optional_text(self.fnek_passphrase)
        } else {
            self.fek_uri()
        }
    }

    /// The number of key bytes: the default where the text is no number.
    pub open spec fn key_size(self) -> nat {
        match text::parse_number(self.key_bytes@, usize::MAX as nat) {
            Some(n) => n,
            None => defaults::KEY_BYTES as nat,
        }
    }

    /// The options of the mount system call, with the given signatures.
    pub open spec fn options(self, sig: Option<Seq<char>>, fnek_sig: Option<Seq<char>>) -> Seq<
        char,
    > {
        mount_options(
            self.cipher@,
            self.key_size(),
            means_yes(self.enable_passthrough@),
            means_yes(self.unlink_sigs@),
            sig,
            fnek_sig,
        )
    }

    /// Checks the parameters before mounting: there must be a passphrase.
    pub fn validate(&self) -> (r: Result<(), EcryptfsError>)
        ensures
            r is Ok <==> self.passphrase is Some,
            r is Err ==> r->Err_0 is MissingPassphrase,
    {
        if self.passphrase.is_none() {
            return Err(EcryptfsError::MissingPassphrase);
        }
        Ok(())
    }
}

/// The part with a signature.
fn push_signature(parts: &mut Vec<String>, label: &str, sig: &Option<String>)
    ensures
        text::strings(final(parts)@) == text::strings(old(parts)@) + signature_part(
            label@,
            optional_text(*sig),
        ),
{
    match sig {
        Some(sig) => {
            parts.push(label.to_owned().concat(sig.as_str()));
        },
        None => {},
    }
    assert(text::strings(parts@) =~= text::strings(old(parts)@) + signature_part(
        label@,
        optional_text(*sig),
    ));
}

/// Writes the options of the mount system call.
pub fn mount_options_text(
    cipher: &str,
    key_bytes: usize,
    passthrough: bool,
    unlink_sigs: bool,
    sig: &Option<String>,
    fnek_sig: &Option<String>,
) -> (r: String)
    ensures
        r@ == mount_options(
            cipher@,
            key_bytes as nat,
            passthrough,
            unlink_sigs,
            optional_text(*sig),
            optional_text(*fnek_sig),
        ),
{
    let mut parts: Vec<String> = Vec::new();
    parts.push("ecryptfs_cipher=".to_owned().concat(cipher));
    parts.push(
        "ecryptfs_key_bytes=".to_owned().concat(decimal_text(key_bytes as u64).as_str()),
    );
    let ghost first = seq![
        "ecryptfs_cipher="@ + cipher@,
        "ecryptfs_key_bytes="@ + text::decimal(key_bytes as nat),
    ];
    assert(text::strings(parts@) =~= first);
    if passthrough {
        parts.push("ecryptfs_passthrough".to_owned());
    }
    let ghost second = first + part_if(passthrough, "ecryptfs_passthrough"@);
    assert(text::strings(parts@) =~= second);
    if unlink_sigs {
        parts.push("ecryptfs_unlink_sigs".to_owned());
    }
    assert(text::strings(parts@) =~= second + part_if(unlink_sigs, "ecryptfs_unlink_sigs"@));
    push_signature(&mut parts, "ecryptfs_sig=", sig);
    push_signature(&mut parts, "ecryptfs_fnek_sig=", fnek_sig);
    joined_by_commas(&parts)
}

} // verus!
