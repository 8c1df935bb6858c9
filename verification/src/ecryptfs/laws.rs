//! What the eCryptfs driver does, said of its inputs and results.
use crate::ecryptfs::auth_tok;
use crate::ecryptfs::auth_tok::ByteOrder;
use crate::ecryptfs::collect;
use crate::ecryptfs::collect::{BuildActionView, ParameterBuildView, World};
use crate::ecryptfs::error::EcryptfsErrorView;
use crate::ecryptfs::key;
use crate::ecryptfs::key::{ECRYPTFS_DEFAULT_SALT, ECRYPTFS_DEFAULT_SALT_FNEK};
use crate::ecryptfs::keyring::{KeyReplyView, KeyringAdditionView, KeyringRequestView};
use crate::ecryptfs::mount;
use crate::ecryptfs::mount::{
    EcryptfsActionView, EcryptfsMountView, EcryptfsReplyView, EcryptfsStageView, MountWorld,
};
use crate::ecryptfs::params;
use crate::ecryptfs::params::EcryptfsMountParameters;
use crate::syscall::MountCallView;
use crate::text;
use crate::text_laws;
use vstd::prelude::*;
use vstd::string::*;
use vstd::utf8::*;

verus! {

/// Hashing no time gives the data, hashing once its digest, and hashing `m` times and
/// then `n` times is hashing `m + n` times.
pub proof fn law_iterations_add_up(data: Seq<u8>, m: nat, n: nat)
    ensures
        key::sha512_iterated(data, 0) == data,
        key::sha512_iterated(data, 1) == key::sha512(data),
        key::sha512_iterated(data, m + n) == key::sha512_iterated(
            key::sha512_iterated(data, m),
            n,
        ),
    decreases n,
{
    assert(key::sha512_iterated(data, 0) == data);
    if n > 0 {
        law_iterations_add_up(data, m, (n - 1) as nat);
    }
}

/// The key is the 65536-fold digest of a message that is the salt and then the
/// passphrase: every byte of both enters, in this order, and nothing else.
pub proof fn law_key_hashes_salt_and_whole_passphrase(
    passphrase: Seq<u8>,
    salt: Seq<u8>,
    message: Seq<u8>,
)
    requires
        message.len() == salt.len() + passphrase.len(),
        message.take(salt.len() as int) == salt,
        message.skip(salt.len() as int) == passphrase,
    ensures
        key::derived_key(passphrase, salt) == key::sha512_iterated(message, 65536),
{
    assert(message =~= message.take(salt.len() as int) + message.skip(salt.len() as int));
}

/// The signature of a key is sixteen lower-case hexadecimal digits: two for each of the
/// first eight bytes of the key's digest, the high one first.
pub proof fn law_signature_shows_the_digest(derived: Seq<u8>, i: int)
    requires
        key::sha512(derived).len() >= 8,
        0 <= i < 8,
    ensures
        ({
            let sig = key::key_signature(derived);
            let value = |c: char|
                if c <= '9' {
                    c as int - '0' as int
                } else {
                    c as int - 'a' as int + 10
                };
            &&& sig.len() == 16
            &&& '0' <= sig[2 * i] <= '9' || 'a' <= sig[2 * i] <= 'f'
            &&& '0' <= sig[2 * i + 1] <= '9' || 'a' <= sig[2 * i + 1] <= 'f'
            &&& 16 * value(sig[2 * i]) + value(sig[2 * i + 1]) == key::sha512(derived)[i]
        }),
{
    let head = key::sha512(derived).take(8);
    let sig = key::key_signature(derived);
    assert(sig[2 * i] == key::hex_digit((head[i] / 16) as nat));
    assert(sig[2 * i + 1] == key::hex_digit((head[i] % 16) as nat));
}

/// The bytes of a number, taken in the order of their weight, make up the number; the
/// other order is the reverse. A negative number has the bytes of its complement.
pub proof fn law_bytes_make_up_the_number(x: u16, y: u32, z: i32)
    ensures
        ({
            let b = auth_tok::u16_bytes(x, ByteOrder::Little);
            &&& b.len() == 2
            &&& b[0] + 256 * b[1] == x
            &&& auth_tok::u16_bytes(x, ByteOrder::Big) == b.reverse()
        }),
        ({
            let b = auth_tok::u32_bytes(y, ByteOrder::Little);
            &&& b.len() == 4
            &&& b[0] + 256 * b[1] + 65536 * b[2] + 16777216 * b[3] == y
            &&& auth_tok::u32_bytes(y, ByteOrder::Big) == b.reverse()
        }),
        auth_tok::bits_of(z) as int == if z < 0 {
            z + 0x1_0000_0000
        } else {
            z as int
        },
{
    assert(auth_tok::u16_bytes(x, ByteOrder::Big) =~= auth_tok::u16_bytes(
        x,
        ByteOrder::Little,
    ).reverse());
    assert(auth_tok::u32_bytes(y, ByteOrder::Big) =~= auth_tok::u32_bytes(
        y,
        ByteOrder::Little,
    ).reverse());
}

/// Padding keeps what fits, as it is, and fills the rest with zeros.
pub proof fn law_padding_keeps_what_fits(data: Seq<u8>, limit: nat, size: nat, i: int)
    requires
        limit <= size,
        0 <= i < size,
    ensures
        auth_tok::zero_padded(data, limit, size).len() == size,
        auth_tok::zero_padded(data, limit, size)[i] == if i < limit && i < data.len() {
            data[i]
        } else {
            0
        },
{
}

/// The token of a key of at most 64 bytes and a signature of at most 16 holds both whole,
/// each in its place, with the salt after them, and says how the key was derived.
#[verifier::rlimit(60)]
#[verifier::spinoff_prover]
pub proof fn law_token_holds_key_and_signature(
    derived: Seq<u8>,
    sig: Seq<u8>,
    salt: Seq<u8>,
    order: ByteOrder,
)
    requires
        derived.len() <= 64,
        sig.len() <= 16,
        salt.len() == 8,
    ensures
        ({
            let b = auth_tok::token_bytes(derived, sig, salt, order);
            &&& b.len() == 740
            &&& b.subrange(0, 2) == auth_tok::u16_bytes(4, order)
            &&& forall|i: int| 2 <= i < 632 ==> #[trigger] b[i] == 0
            &&& b.subrange(632, 636) == auth_tok::u32_bytes(10, order)
            &&& b.subrange(636, 640) == auth_tok::u32_bytes(65536, order)
            &&& b.subrange(640, 644) == auth_tok::u32_bytes(64, order)
            &&& b.subrange(644, 648) == auth_tok::u32_bytes(2, order)
            &&& b.subrange(648, 648 + derived.len() as int) == derived
            &&& forall|i: int| 648 + derived.len() <= i < 712 ==> #[trigger] b[i] == 0
            &&& b.subrange(712, 712 + sig.len() as int) == sig
            &&& forall|i: int| 712 + sig.len() <= i < 729 ==> #[trigger] b[i] == 0
            &&& b.subrange(729, 737) == salt
            &&& forall|i: int| 737 <= i < 740 ==> #[trigger] b[i] == 0
        }),
{
    let b = auth_tok::token_bytes(derived, sig, salt, order);
    let none16 = auth_tok::u16_bytes(0, order);
    let none32 = auth_tok::u32_bytes(0, order);
    assert(none16[0] == 0 && none16[1] == 0);
    assert(none32[0] == 0 && none32[1] == 0 && none32[2] == 0 && none32[3] == 0);
    assert(b.subrange(0, 2) =~= auth_tok::u16_bytes(4, order));
    assert(b.subrange(2, 4) =~= none16);
    assert(b.subrange(4, 8) =~= none32);
    assert(b.subrange(628, 632) =~= none32);
    assert forall|i: int| 2 <= i < 632 implies #[trigger] b[i] == 0 by {
        if i < 4 {
            assert(b[i] == b.subrange(2, 4)[i - 2]);
        } else if i < 8 {
            assert(b[i] == b.subrange(4, 8)[i - 4]);
        } else if i >= 628 {
            assert(b[i] == b.subrange(628, 632)[i - 628]);
        }
    }
    assert(b.subrange(632, 636) =~= auth_tok::u32_bytes(10, order));
    assert(b.subrange(636, 640) =~= auth_tok::u32_bytes(65536, order));
    assert(b.subrange(640, 644) =~= auth_tok::u32_bytes(64, order));
    assert(b.subrange(644, 648) =~= auth_tok::u32_bytes(2, order));
    assert(b.subrange(648, 648 + derived.len() as int) =~= derived);
    assert(b.subrange(712, 712 + sig.len() as int) =~= sig);
    assert(b.subrange(729, 737) =~= salt);
}

/// A key is offered as a key of type `user`, described by the signature of the 65536-fold
/// digest of salt and passphrase, with the token of that key, first to keyring -3 and,
/// if that one refuses, to keyring -4.
pub proof fn law_offered_key(
    passphrase: Seq<u8>,
    salt: Seq<u8>,
    order: ByteOrder,
    refusal: KeyReplyView,
)
    requires
        refusal.result < 0,
    ensures
        ({
            let derived = key::sha512_iterated(salt + passphrase, 65536);
            let sig = key::key_signature(derived);
            let offer = |keyring: int|
                KeyringRequestView {
                    key_type: "user"@,
                    description: sig,
                    payload: auth_tok::token_bytes(derived, encode_utf8(sig), salt, order),
                    keyring,
                };
            let start = KeyringAdditionView::start(passphrase, salt, order);
            &&& start.request() == Some(offer(-3))
            &&& start.after(refusal).request() == Some(offer(-4))
            &&& start.after(refusal).after(refusal).request() is None
        }),
{
}

/// A switch is on exactly if its text, in lower case, is one of five words.
pub proof fn law_switches(value: Seq<char>)
    ensures
        params::means_yes(value) <==> {
            let word = params::unicode_lowercase(value);
            word == "true"@ || word == "1"@ || word == "yes"@ || word == "y"@ || word == "on"@
        },
{
}

/// The passphrase is found where `passphrase` says. Where file names are to be encrypted,
/// their passphrase is found where `fnek_passphrase` says, and where `passphrase` says if
/// that is not given; where they are not, there is none.
pub proof fn law_addresses_of_the_passphrases(p: EcryptfsMountParameters)
    ensures
        p.fek_uri() == match p.passphrase {
            Some(uri) => Some(uri@),
            None => None,
        },
        p.fnek_uri() == if params::means_yes(p.enable_filename_crypto@) {
            match (p.fnek_passphrase, p.passphrase) {
                (Some(uri), _) => Some(uri@),
                (None, Some(uri)) => Some(uri@),
                (None, None) => None,
            }
        } else {
            None
        },
{
}

/// The number of key bytes is the one that is written out, or 32 where none is.
pub proof fn law_key_size_is_read(p: EcryptfsMountParameters, n: nat)
    requires
        n <= usize::MAX,
    ensures
        p.key_bytes@ == text::decimal(n) ==> p.key_size() == n,
        text::parse_number(p.key_bytes@, usize::MAX as nat) is None ==> p.key_size() == 32,
        text::parse_number(p.key_bytes@, usize::MAX as nat) matches Some(m) ==> p.key_size() == m,
{
    text::law_decimal_reads_back(n, usize::MAX as nat);
}

/// A text after a comma, if it is wanted.
spec fn after_comma(wanted: bool, part: Seq<char>) -> Seq<char> {
    if wanted {
        seq![','] + part
    } else {
        Seq::empty()
    }
}

proof fn lemma_join_part_if(parts: Seq<Seq<char>>, wanted: bool, part: Seq<char>)
    requires
        parts.len() > 0,
    ensures
        text::join(parts + params::part_if(wanted, part), ',') == text::join(parts, ',')
            + after_comma(wanted, part),
        (parts + params::part_if(wanted, part)).len() > 0,
{
    text_laws::law_join_puts_separators_between(parts, part, ',');
    if wanted {
        assert(parts + seq![part] =~= parts.push(part));
        assert(text::join(parts, ',') + seq![','] + part =~= text::join(parts, ',') + (seq![',']
            + part));
    } else {
        assert(parts + Seq::<Seq<char>>::empty() =~= parts);
        assert(text::join(parts, ',') + Seq::<char>::empty() =~= text::join(parts, ','));
    }
}

/// The options of the mount system call, written out: cipher and number of key bytes,
/// then each switch that is on, then each signature that there is, with commas between.
#[verifier::rlimit(60)]
#[verifier::spinoff_prover]
pub proof fn law_mount_options_written_out(
    p: EcryptfsMountParameters,
    sig: Option<Seq<char>>,
    fnek_sig: Option<Seq<char>>,
)
    ensures
        p.options(sig, fnek_sig) == "ecryptfs_cipher="@ + p.cipher@ + ",ecryptfs_key_bytes="@
            + text::decimal(p.key_size()) + (if params::means_yes(p.enable_passthrough@) {
            ",ecryptfs_passthrough"@
        } else {
            Seq::empty()
        }) + (if params::means_yes(p.unlink_sigs@) {
            ",ecryptfs_unlink_sigs"@
        } else {
            Seq::empty()
        }) + (match sig {
            Some(sig) => ",ecryptfs_sig="@ + sig,
            None => Seq::empty(),
        }) + (match fnek_sig {
            Some(sig) => ",ecryptfs_fnek_sig="@ + sig,
            None => Seq::empty(),
        }),
{
    let first = "ecryptfs_cipher="@ + p.cipher@;
    let second = "ecryptfs_key_bytes="@ + text::decimal(p.key_size());
    let passthrough = params::means_yes(p.enable_passthrough@);
    let unlink = params::means_yes(p.unlink_sigs@);
    let sig_part = match sig {
        Some(sig) => "ecryptfs_sig="@ + sig,
        None => Seq::empty(),
    };
    let fnek_part = match fnek_sig {
        Some(sig) => "ecryptfs_fnek_sig="@ + sig,
        None => Seq::empty(),
    };
    let two = seq![first, second];
    text_laws::law_join_puts_separators_between(Seq::empty(), first, ',');
    text_laws::law_join_puts_separators_between(seq![first], second, ',');
    assert(seq![first].push(second) =~= two);
    let three = two + params::part_if(passthrough, "ecryptfs_passthrough"@);
    lemma_join_part_if(two, passthrough, "ecryptfs_passthrough"@);
    let four = three + params::part_if(unlink, "ecryptfs_unlink_sigs"@);
    lemma_join_part_if(three, unlink, "ecryptfs_unlink_sigs"@);
    let five = four + params::part_if(sig is Some, sig_part);
    lemma_join_part_if(four, sig is Some, sig_part);
    lemma_join_part_if(five, fnek_sig is Some, fnek_part);
    assert(params::signature_part("ecryptfs_sig="@, sig) =~= params::part_if(
        sig is Some,
        sig_part,
    ));
    assert(params::signature_part("ecryptfs_fnek_sig="@, fnek_sig) =~= params::part_if(
        fnek_sig is Some,
        fnek_part,
    ));
    reveal_strlit("ecryptfs_key_bytes=");
    reveal_strlit(",ecryptfs_key_bytes=");
    assert(seq![','] + "ecryptfs_key_bytes="@ =~= ",ecryptfs_key_bytes="@);
    reveal_strlit("ecryptfs_passthrough");
    reveal_strlit(",ecryptfs_passthrough");
    assert(seq![','] + "ecryptfs_passthrough"@ =~= ",ecryptfs_passthrough"@);
    reveal_strlit("ecryptfs_unlink_sigs");
    reveal_strlit(",ecryptfs_unlink_sigs");
    assert(seq![','] + "ecryptfs_unlink_sigs"@ =~= ",ecryptfs_unlink_sigs"@);
    reveal_strlit("ecryptfs_sig=");
    reveal_strlit(",ecryptfs_sig=");
    assert(seq![','] + "ecryptfs_sig="@ =~= ",ecryptfs_sig="@);
    reveal_strlit("ecryptfs_fnek_sig=");
    reveal_strlit(",ecryptfs_fnek_sig=");
    assert(seq![','] + "ecryptfs_fnek_sig="@ =~= ",ecryptfs_fnek_sig="@);
    if let Some(s) = sig {
        assert(seq![','] + ("ecryptfs_sig="@ + s) =~= ",ecryptfs_sig="@ + s);
    }
    if let Some(s) = fnek_sig {
        assert(seq![','] + ("ecryptfs_fnek_sig="@ + s) =~= ",ecryptfs_fnek_sig="@ + s);
    }
    assert(first + seq![','] + second =~= "ecryptfs_cipher="@ + p.cipher@
        + ",ecryptfs_key_bytes="@ + text::decimal(p.key_size()));
}

/// What a collection comes to, said of the parameters and of what the key server and the
/// keyrings answer. The options name the signature of each key whose passphrase is asked
/// for, can be fetched, and gives a key that one of the two keyrings takes: that for file
/// contents under `ecryptfs_sig`, with its salt, and that for file names under
/// `ecryptfs_fnek_sig`, with its own.
#[verifier::rlimit(60)]
#[verifier::spinoff_prover]
pub proof fn law_collected_options_written_out(
    p: EcryptfsMountParameters,
    order: ByteOrder,
    world: World,
)
    ensures
        ({
            let sig_of = |uri: Option<Seq<char>>, salt: Seq<u8>|
                match uri {
                    None => None,
                    Some(uri) => match (world.fetch)(uri) {
                        None => None,
                        Some(raw) => {
                            let derived = key::sha512_iterated(
                                salt + key::without_line_ending(raw),
                                65536,
                            );
                            let sig = key::key_signature(derived);
                            let offer = |keyring: int|
                                KeyringRequestView {
                                    key_type: "user"@,
                                    description: sig,
                                    payload: auth_tok::token_bytes(
                                        derived,
                                        encode_utf8(sig),
                                        salt,
                                        order,
                                    ),
                                    keyring,
                                };
                            if (world.add_key)(offer(-3)).result >= 0 || (world.add_key)(
                                offer(-4),
                            ).result >= 0 {
                                Some(sig)
                            } else {
                                None
                            }
                        },
                    },
                };
            let sig = sig_of(
                match p.passphrase {
                    Some(uri) => Some(uri@),
                    None => None,
                },
                seq![0x00u8, 0x11, 0x22, 0x33, 0x44, 0x55, 0x66, 0x77],
            );
            let fnek_sig = if params::means_yes(p.enable_filename_crypto@) {
                sig_of(
                    match (p.fnek_passphrase, p.passphrase) {
                        (Some(uri), _) => Some(uri@),
                        (None, Some(uri)) => Some(uri@),
                        (None, None) => None,
                    },
                    seq![0x39u8, 0x39, 0x38, 0x38, 0x37, 0x37, 0x36, 0x36],
                )
            } else {
                None
            };
            collect::run(ParameterBuildView::start(p, order), world, 6).action()
                == BuildActionView::Done(
                "ecryptfs_cipher="@ + p.cipher@ + ",ecryptfs_key_bytes="@ + text::decimal(
                    p.key_size(),
                ) + (if params::means_yes(p.enable_passthrough@) {
                    ",ecryptfs_passthrough"@
                } else {
                    Seq::empty()
                }) + (if params::means_yes(p.unlink_sigs@) {
                    ",ecryptfs_unlink_sigs"@
                } else {
                    Seq::empty()
                }) + (match sig {
                    Some(sig) => ",ecryptfs_sig="@ + sig,
                    None => Seq::empty(),
                }) + (match fnek_sig {
                    Some(sig) => ",ecryptfs_fnek_sig="@ + sig,
                    None => Seq::empty(),
                }),
            )
        }),
{
    lemma_salts();
    collect::law_collected_options(p, order, world);
    law_mount_options_written_out(
        p,
        world.sig_for(p.fek_uri(), ECRYPTFS_DEFAULT_SALT@, order),
        world.sig_for(p.fnek_uri(), ECRYPTFS_DEFAULT_SALT_FNEK@, order),
    );
}

proof fn lemma_salts()
    ensures
        ECRYPTFS_DEFAULT_SALT@ == seq![0x00u8, 0x11, 0x22, 0x33, 0x44, 0x55, 0x66, 0x77],
        ECRYPTFS_DEFAULT_SALT_FNEK@ == seq![0x39u8, 0x39, 0x38, 0x38, 0x37, 0x37, 0x36, 0x36],
{
    assert(ECRYPTFS_DEFAULT_SALT@ =~= seq![0x00u8, 0x11, 0x22, 0x33, 0x44, 0x55, 0x66, 0x77]);
    assert(ECRYPTFS_DEFAULT_SALT_FNEK@ =~= seq![
        0x39u8,
        0x39,
        0x38,
        0x38,
        0x37,
        0x37,
        0x36,
        0x36,
    ]);
}

/// Where file names are to be encrypted and no passphrase of their own is given, the one
/// passphrase serves for both keys: if it can be fetched and the keyrings take every key,
/// the options end in the signature of the key that it gives with the salt for file names.
#[verifier::rlimit(60)]
#[verifier::spinoff_prover]
pub proof fn law_one_passphrase_serves_for_file_names(
    p: EcryptfsMountParameters,
    order: ByteOrder,
    world: World,
    uri: Seq<char>,
    raw: Seq<u8>,
)
    requires
        p.passphrase is Some,
        p.passphrase->0@ == uri,
        p.fnek_passphrase is None,
        params::means_yes(p.enable_filename_crypto@),
        (world.fetch)(uri) == Some(raw),
        forall|request: KeyringRequestView| (#[trigger] (world.add_key)(request)).result >= 0,
    ensures
        ({
            let salt = seq![0x39u8, 0x39, 0x38, 0x38, 0x37, 0x37, 0x36, 0x36];
            let derived = key::sha512_iterated(salt + key::without_line_ending(raw), 65536);
            let end = ",ecryptfs_fnek_sig="@ + key::key_signature(derived);
            collect::run(ParameterBuildView::start(p, order), world, 6).action() matches
                BuildActionView::Done(options) && end.is_suffix_of(options)
        }),
{
    law_collected_options_written_out(p, order, world);
    let salt = seq![0x39u8, 0x39, 0x38, 0x38, 0x37, 0x37, 0x36, 0x36];
    let derived = key::sha512_iterated(salt + key::without_line_ending(raw), 65536);
    let end = ",ecryptfs_fnek_sig="@ + key::key_signature(derived);
    if let BuildActionView::Done(options) = collect::run(
        ParameterBuildView::start(p, order),
        world,
        6,
    ).action() {
        assert(options.subrange(options.len() - end.len(), options.len() as int) =~= end);
    }
}

/// What each stage of a collection asks for: a passphrase at the address that the
/// parameters give.
pub proof fn law_collection_asks_for_the_given_addresses(build: ParameterBuildView)
    requires
        build.is_consistent(),
    ensures
        build.stage is FetchFek ==> build.params.passphrase is Some && build.action()
            == BuildActionView::FetchPassphrase(build.params.passphrase->0@),
        build.stage is FetchFnek ==> build.params.fnek_passphrase is Some && build.action()
            == BuildActionView::FetchPassphrase(build.params.fnek_passphrase->0@),
{
}

/// What a mount of the layer comes to, said of its arguments and of what the system
/// answers. The mount point is created unless it exists; then the directory with the
/// encrypted files is mounted there, as eCryptfs, without access times, with the options
/// that were collected.
pub proof fn law_ecryptfs_mount_written_out(
    p: EcryptfsMountParameters,
    source_path: Seq<char>,
    mount_point: Seq<char>,
    order: ByteOrder,
    world: MountWorld,
)
    ensures
        ({
            let collected = collect::run(ParameterBuildView::start(p, order), world.collect, 6);
            let end = mount::run_mount(
                EcryptfsMountView::start(p, source_path, mount_point, order),
                world,
                9,
            );
            &&& collected.action() is Done
            &&& end.stage == EcryptfsStageView::Finished(
                if !(world.exists)(mount_point) && (world.create)(mount_point) is Err {
                    Err(EcryptfsErrorView::CreateMountPoint((world.create)(mount_point)->Err_0))
                } else {
                    match (world.mount)(
                        MountCallView {
                            source: source_path,
                            target: mount_point,
                            fs_type: "ecryptfs"@,
                            no_atime: true,
                            options: collected.action()->Done_0,
                        },
                    ) {
                        Ok(()) => Ok(Some(Seq::empty())),
                        Err(cause) => Err(
                            EcryptfsErrorView::Mount { source_path, mount_point, cause },
                        ),
                    }
                },
            )
        }),
{
    mount::law_ecryptfs_mount_result(p, source_path, mount_point, order, world);
    collect::law_collected_options(p, order, world.collect);
}

/// What each stage of a mount of the layer asks for.
pub proof fn law_ecryptfs_mount_asks_about_its_mount_point(run: EcryptfsMountView)
    ensures
        run.stage is CheckMountPoint ==> run.action() == EcryptfsActionView::CheckExists(
            run.mount_point,
        ),
        run.stage is CreateMountPoint ==> run.action() == EcryptfsActionView::CreateDir(
            run.mount_point,
        ),
        run.stage matches EcryptfsStageView::Mounting { options } ==> run.action()
            == EcryptfsActionView::Mount(
            MountCallView {
                source: run.source_path,
                target: run.mount_point,
                fs_type: "ecryptfs"@,
                no_atime: true,
                options,
            },
        ),
        run.stage matches EcryptfsStageView::Collecting(build) ==> run.action()
            == EcryptfsActionView::Collect(build.action()),
{
}

/// The messages of the errors hold the whole of what they are about.
pub proof fn law_ecryptfs_messages(
    cause: Seq<char>,
    source_path: Seq<char>,
    mount_point: Seq<char>,
)
    ensures
        EcryptfsErrorView::MissingPassphrase.text() == "passphrase must be provided"@,
        EcryptfsErrorView::AddKey(cause).text() == "Failed to add key to keyring: "@ + cause,
        EcryptfsErrorView::CreateMountPoint(cause).text() == cause,
        (EcryptfsErrorView::Mount { source_path, mount_point, cause }).text()
            == "Failed to mount ecryptfs from "@ + source_path + " to mount point "@ + mount_point,
{
}

/// A reply to something that was not asked for changes nothing in the mount of a layer.
pub proof fn law_unasked_replies_change_no_layer(run: EcryptfsMountView, reply: EcryptfsReplyView)
    requires
        run.is_consistent(),
        !run.is_answered_by(reply),
    ensures
        run.after(reply) == run,
{
}

} // verus!
