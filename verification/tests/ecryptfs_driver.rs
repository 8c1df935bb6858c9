use cdh_storage::ecryptfs::auth_tok::{
    byte_order_of_one, ByteOrder, EcryptfsAuthTok, PGP_DIGEST_ALGO_SHA512,
};
use cdh_storage::ecryptfs::collect::{BuildAction, BuildReply, ParameterBuild};
use cdh_storage::ecryptfs::defaults;
use cdh_storage::ecryptfs::error::EcryptfsError;
use cdh_storage::ecryptfs::key::{
    derive_ecryptfs_key, normalize_passphrase_bytes, salted_passphrase, signature_from_digest,
    ECRYPTFS_DEFAULT_SALT, ECRYPTFS_DEFAULT_SALT_FNEK, ECRYPTFS_MAX_KEY_BYTES,
};
use cdh_storage::ecryptfs::keyring::{
    add_key_to_keyring, prepare_key, KeyReply, KEY_SPEC_SESSION_KEYRING, KEY_SPEC_USER_KEYRING,
};
use cdh_storage::ecryptfs::mount::{
    EcryptfsAction, EcryptfsMount, EcryptfsReply, EcryptfsStage,
};
use cdh_storage::ecryptfs::params::{
    affirmative, mount_options_text, parse_string_boolean_to_bool, EcryptfsMountParameters,
};
use cdh_storage::ecryptfs::secret::SecretBytes;

const URI: &str = "kbs:///default/key/one";
const FNEK_URI: &str = "kbs:///default/key/two";
const FEK_SIG: &str = "0ab955d75efe229c";
const FNEK_SIG: &str = "39b3c3fa4d086d94";

fn plain_parameters() -> EcryptfsMountParameters {
    EcryptfsMountParameters {
        passphrase: Some(URI.to_string()),
        fnek_passphrase: None,
        cipher: defaults::cipher(),
        key_bytes: defaults::key_bytes(),
        enable_passthrough: defaults::enable_passthrough(),
        enable_filename_crypto: defaults::enable_filename_crypto(),
        unlink_sigs: defaults::unlink_sigs(),
    }
}

fn expect_fetch(build: &ParameterBuild, uri: &str) {
    match build.action() {
        BuildAction::FetchPassphrase(address) => assert_eq!(address, uri),
        _ => panic!("expected a fetch"),
    }
}

fn expect_add_key(build: &ParameterBuild, sig: &str, keyring: i32) {
    match build.action() {
        BuildAction::AddKey(request) => {
            assert_eq!(request.key_type, "user");
            assert_eq!(request.description, sig);
            assert_eq!(request.keyring, keyring);
            assert_eq!(request.payload.len(), 740);
            assert_eq!(&request.payload[712..728], sig.as_bytes());
        }
        _ => panic!("expected a key to be added"),
    }
}

fn expect_options(build: &ParameterBuild, options: &str) {
    match build.action() {
        BuildAction::Done(text) => assert_eq!(text, options),
        _ => panic!("expected the options"),
    }
}

fn key_reply(result: i64, cause: &str) -> KeyReply {
    KeyReply { result, cause: cause.to_string() }
}

fn key_result(result: i64) -> BuildReply {
    BuildReply::KeyResult(key_reply(result, ""))
}

fn passphrase(text: &str) -> BuildReply {
    BuildReply::Passphrase(Some(SecretBytes::new(text.as_bytes().to_vec())))
}

#[test]
fn normalize_passphrase_trims_trailing_newline_and_crlf_only() {
    let with_newline = normalize_passphrase_bytes(b"My secure password\n");
    assert_eq!(with_newline.as_slice(), b"My secure password");

    let with_crlf = normalize_passphrase_bytes(b"My secure password\r\n");
    assert_eq!(with_crlf.as_slice(), b"My secure password");

    let with_space = normalize_passphrase_bytes(b"My secure password ");
    assert_eq!(with_space.as_slice(), b"My secure password ");
}

#[test]
fn derive_fek_signature_matches_ecryptfs_add_passphrase() {
    let passphrase = b"My secure password";
    let (_key, sig) = derive_ecryptfs_key(passphrase, &ECRYPTFS_DEFAULT_SALT);

    // Baseline from: echo "My secure password" | ecryptfs-add-passphrase
    assert_eq!(sig, "0ab955d75efe229c");
}

#[test]
fn derive_fnek_signature_matches_ecryptfs_add_passphrase_fnek() {
    let passphrase = b"My secure password";
    let (_key, sig) = derive_ecryptfs_key(passphrase, &ECRYPTFS_DEFAULT_SALT_FNEK);

    // Baseline from: echo "My secure password" | ecryptfs-add-passphrase --fnek
    assert_eq!(sig, "39b3c3fa4d086d94");
}

#[test]
fn auth_tok_uses_sha512_and_full_fekek_size() {
    let key = vec![0x11; ECRYPTFS_MAX_KEY_BYTES];
    let sig = "0ab955d75efe229c";
    let auth_tok = EcryptfsAuthTok::new(&key, sig, &ECRYPTFS_DEFAULT_SALT);

    let hash_algo = auth_tok.password.hash_algo;
    let key_bytes = auth_tok.password.session_key_encryption_key_bytes;
    let salt = auth_tok.password.salt;

    assert_eq!(hash_algo, PGP_DIGEST_ALGO_SHA512);
    assert_eq!(key_bytes, ECRYPTFS_MAX_KEY_BYTES as i32);
    assert_eq!(salt, ECRYPTFS_DEFAULT_SALT);
}

#[test]
fn normalizing_keeps_inner_line_endings_and_takes_many_at_the_end() {
    assert_eq!(normalize_passphrase_bytes(b"a\nb\r\n\n\r").as_slice(), b"a\nb");
    assert_eq!(normalize_passphrase_bytes(b"\r\n").as_slice(), b"");
    assert_eq!(normalize_passphrase_bytes(b"").as_slice(), b"");
    assert_eq!(normalize_passphrase_bytes(&[0xff, 0x00, 0x0a]).as_slice(), &[0xff, 0x00]);
    let once = normalize_passphrase_bytes(b"x\n\r\n");
    let twice = normalize_passphrase_bytes(once.as_slice());
    assert_eq!(once.as_slice(), twice.as_slice());
}

#[test]
fn secret_bytes_hold_what_they_were_given() {
    assert_eq!(SecretBytes::new(vec![1, 2, 3]).as_slice(), &[1, 2, 3]);
    assert_eq!(SecretBytes::new(Vec::new()).as_slice(), &[] as &[u8]);
}

#[test]
fn derived_key_is_the_iterated_digest() {
    let (key, sig) = derive_ecryptfs_key(b"", &ECRYPTFS_DEFAULT_SALT);
    assert_eq!(key.len(), 64);
    assert_eq!(&key[..4], &[0x2c, 0xb9, 0x8d, 0x5d]);
    assert_eq!(&key[60..], &[0x56, 0x50, 0xe1, 0x12]);
    assert_eq!(sig, "ea87d0365b9dc3d5");
}

#[test]
fn the_salt_comes_before_the_passphrase() {
    assert_eq!(salted_passphrase(b"pw", b"99887766"), b"99887766pw".to_vec());
    assert_eq!(ECRYPTFS_DEFAULT_SALT_FNEK, *b"99887766");
}

#[test]
fn a_signature_is_the_first_eight_bytes_in_hexadecimal() {
    let digest = [0x00, 0x0f, 0xf0, 0xab, 0xcd, 0xef, 0x12, 0x9a, 0x55];
    let sig = signature_from_digest(&digest);
    assert_eq!(sig, "000ff0abcdef129a");
    assert!(sig.chars().all(|c| c.is_ascii_digit() || ('a'..='f').contains(&c)));
}

#[test]
fn token_bytes_follow_the_kernel_layout() {
    let key: Vec<u8> = (0u8..64).collect();
    let tok = EcryptfsAuthTok::new(&key, FEK_SIG, &ECRYPTFS_DEFAULT_SALT);
    let little = tok.to_bytes(ByteOrder::Little);
    assert_eq!(little.len(), 740);
    assert_eq!(&little[0..8], &[4, 0, 0, 0, 0, 0, 0, 0]);
    assert!(little[8..628].iter().all(|b| *b == 0));
    assert_eq!(&little[628..632], &[0, 0, 0, 0]);
    assert_eq!(&little[632..636], &[10, 0, 0, 0]);
    assert_eq!(&little[636..640], &[0, 0, 1, 0]);
    assert_eq!(&little[640..644], &[64, 0, 0, 0]);
    assert_eq!(&little[644..648], &[2, 0, 0, 0]);
    assert_eq!(&little[648..712], &key[..]);
    assert_eq!(&little[712..728], FEK_SIG.as_bytes());
    assert_eq!(little[728], 0);
    assert_eq!(&little[729..737], &ECRYPTFS_DEFAULT_SALT);
    assert_eq!(&little[737..740], &[0, 0, 0]);
    let big = tok.to_bytes(ByteOrder::Big);
    assert_eq!(&big[0..2], &[0, 4]);
    assert_eq!(&big[636..640], &[0, 1, 0, 0]);
    assert_eq!(tok.as_bytes(), if 1u16.to_ne_bytes() == [1, 0] { little } else { big });
}

#[test]
fn the_number_one_shows_the_byte_order() {
    assert_eq!(byte_order_of_one(1u16.to_le_bytes()), ByteOrder::Little);
    assert_eq!(byte_order_of_one(1u16.to_be_bytes()), ByteOrder::Big);
}

#[test]
fn token_cuts_long_fields_and_fills_short_ones() {
    let key = vec![7u8; 70];
    let tok = EcryptfsAuthTok::new(&key, "0123456789abcdefXYZ", &ECRYPTFS_DEFAULT_SALT);
    assert_eq!(tok.password.session_key_encryption_key, [7u8; 64]);
    assert_eq!(&tok.password.signature[..16], b"0123456789abcdef");
    assert_eq!(tok.password.signature[16], 0);
    let short = EcryptfsAuthTok::new(&[1, 2], "ab", &ECRYPTFS_DEFAULT_SALT);
    assert_eq!(&short.password.session_key_encryption_key[..3], &[1, 2, 0]);
    assert_eq!(&short.password.signature[..3], &[b'a', b'b', 0]);
}

#[test]
fn a_negative_number_keeps_its_bytes() {
    let mut tok = EcryptfsAuthTok::new(&[], "", &ECRYPTFS_DEFAULT_SALT);
    tok.password.password_bytes = -2;
    assert_eq!(&tok.to_bytes(ByteOrder::Little)[628..632], &(-2i32).to_le_bytes());
    assert_eq!(&tok.to_bytes(ByteOrder::Big)[628..632], &(-2i32).to_be_bytes());
}

#[test]
fn a_key_goes_to_the_session_keyring_first() {
    let addition = prepare_key(b"My secure password", &ECRYPTFS_DEFAULT_SALT, ByteOrder::Little);
    let request = addition.request().expect("a request");
    assert_eq!(request.keyring, KEY_SPEC_SESSION_KEYRING);
    assert_eq!(request.keyring, -3);
    assert_eq!(request.description, FEK_SIG);
    assert_eq!(request.payload[648], 0x4c);
    assert!(addition.outcome().is_none());
    let added = addition.after(key_reply(17, ""));
    assert!(added.request().is_none());
    assert_eq!(added.added_sig(), Some(FEK_SIG.to_string()));
    assert!(matches!(added.outcome(), Some(Ok(sig)) if sig == FEK_SIG));
}

#[test]
fn a_key_that_the_session_keyring_refuses_goes_to_the_user_keyring() {
    let addition = add_key_to_keyring(b"My secure password", 32, &ECRYPTFS_DEFAULT_SALT_FNEK);
    let second = addition.after(key_reply(-1, "no session"));
    let request = second.request().expect("a request");
    assert_eq!(request.keyring, KEY_SPEC_USER_KEYRING);
    assert_eq!(request.keyring, -4);
    assert_eq!(second.added_sig(), None);
    assert!(second.outcome().is_none());
    let added = second.after(key_reply(0, ""));
    assert_eq!(added.added_sig(), Some(FNEK_SIG.to_string()));

    assert!(matches!(added.outcome(), Some(Ok(sig)) if sig == FNEK_SIG));
}

#[test]
fn a_key_that_both_keyrings_refuse_gives_the_second_reason() {
    let refused = prepare_key(b"x", &ECRYPTFS_DEFAULT_SALT, ByteOrder::Big)
        .after(key_reply(-1, "no session"))
        .after(key_reply(-126, "Key has expired"));
    assert!(refused.request().is_none());
    assert_eq!(refused.added_sig(), None);
    match refused.outcome() {
        Some(Err(e)) => {
            assert!(matches!(&e, EcryptfsError::AddKey(cause) if cause == "Key has expired"));
            assert_eq!(e.message(), "Failed to add key to keyring: Key has expired");
        }
        _ => panic!("expected a failure"),
    }
    let later = refused.after(key_reply(5, ""));
    assert_eq!(later.added_sig(), None);
}

#[test]
fn defaults_are_the_documented_ones() {
    assert_eq!(defaults::cipher(), "aes");
    assert_eq!(defaults::key_bytes(), "32");
    assert_eq!(defaults::enable_passthrough(), "false");
    assert_eq!(defaults::enable_filename_crypto(), "false");
    assert_eq!(defaults::unlink_sigs(), "true");
}

#[test]
fn switches_are_read_in_any_case() {
    for word in ["true", "TRUE", "1", "Yes", "y", "Y", "on", "oN"] {
        assert!(parse_string_boolean_to_bool(word), "{}", word);
    }
    for word in ["false", "0", "no", "", " true", "true ", "t", "enabled", "tr\u{fc}e"] {
        assert!(!parse_string_boolean_to_bool(word), "{}", word);
    }
    assert!(affirmative("on"));
    assert!(!affirmative("ON"));
}

#[test]
fn mount_options_hold_what_is_on() {
    assert_eq!(
        mount_options_text("aes", 32, false, true, &Some("ab".to_string()), &None),
        "ecryptfs_cipher=aes,ecryptfs_key_bytes=32,ecryptfs_unlink_sigs,ecryptfs_sig=ab"
    );
    assert_eq!(
        mount_options_text(
            "twofish",
            16,
            true,
            false,
            &Some("ab".to_string()),
            &Some("cd".to_string())
        ),
        "ecryptfs_cipher=twofish,ecryptfs_key_bytes=16,ecryptfs_passthrough,ecryptfs_sig=ab,\
         ecryptfs_fnek_sig=cd"
    );
    assert_eq!(
        mount_options_text("", 0, false, false, &None, &None),
        "ecryptfs_cipher=,ecryptfs_key_bytes=0"
    );
}

#[test]
fn a_passphrase_is_needed() {
    assert!(plain_parameters().validate().is_ok());
    let mut params = plain_parameters();
    params.passphrase = None;
    assert!(matches!(params.validate(), Err(EcryptfsError::MissingPassphrase)));
    match params.do_mount("/enc", "/clear") {
        Err(e) => assert_eq!(e.message(), "passphrase must be provided"),
        Ok(_) => panic!("expected an error"),
    }
}

#[test]
fn options_are_collected_with_one_key() {
    let build = plain_parameters().build_parameters();
    expect_fetch(&build, URI);
    let build = build.after(passphrase("My secure password\n"));
    expect_add_key(&build, FEK_SIG, -3);
    let build = build.after(key_result(5));
    expect_options(
        &build,
        "ecryptfs_cipher=aes,ecryptfs_key_bytes=32,ecryptfs_unlink_sigs,\
         ecryptfs_sig=0ab955d75efe229c",
    );
}

#[test]
fn a_shared_passphrase_is_fetched_once() {
    let mut params = plain_parameters();
    params.enable_filename_crypto = "on".to_string();
    params.fnek_passphrase = Some(URI.to_string());
    let build = params.build_parameters();
    expect_fetch(&build, URI);
    let build = build.after(passphrase("My secure password"));
    let build = build.after(key_result(5));
    expect_add_key(&build, FNEK_SIG, -3);
    let build = build.after(key_result(-1));
    expect_add_key(&build, FNEK_SIG, -4);
    let build = build.after(key_result(6));
    expect_options(
        &build,
        "ecryptfs_cipher=aes,ecryptfs_key_bytes=32,ecryptfs_unlink_sigs,\
         ecryptfs_sig=0ab955d75efe229c,ecryptfs_fnek_sig=39b3c3fa4d086d94",
    );
}

#[test]
fn file_names_can_have_a_passphrase_of_their_own() {
    let mut params = plain_parameters();
    params.enable_filename_crypto = "true".to_string();
    params.fnek_passphrase = Some(FNEK_URI.to_string());
    params.unlink_sigs = "no".to_string();
    let build = params.build_parameters().after(passphrase("My secure password"));
    let build = build.after(key_result(-1)).after(key_result(-1));
    expect_fetch(&build, FNEK_URI);
    let build = build.after(passphrase("other\r\n"));
    expect_add_key(&build, "fb865ab7f8372176", -3);
    let build = build.after(key_result(0));
    expect_options(
        &build,
        "ecryptfs_cipher=aes,ecryptfs_key_bytes=32,ecryptfs_fnek_sig=fb865ab7f8372176",
    );
}

#[test]
fn a_passphrase_that_cannot_be_fetched_leaves_no_signature() {
    let mut params = plain_parameters();
    params.enable_filename_crypto = "true".to_string();
    params.key_bytes = "many".to_string();
    let build = params.build_parameters().after(BuildReply::Passphrase(None));
    expect_options(&build, "ecryptfs_cipher=aes,ecryptfs_key_bytes=32,ecryptfs_unlink_sigs");
}

#[test]
fn without_file_name_encryption_its_passphrase_does_not_matter() {
    let mut params = plain_parameters();
    params.fnek_passphrase = Some(FNEK_URI.to_string());
    params.key_bytes = "+016".to_string();
    let build = params.build_parameters().after(passphrase("My secure password"));
    let build = build.after(key_result(0));
    expect_options(
        &build,
        "ecryptfs_cipher=aes,ecryptfs_key_bytes=16,ecryptfs_unlink_sigs,\
         ecryptfs_sig=0ab955d75efe229c",
    );
}

#[test]
fn a_reply_that_does_not_answer_changes_nothing() {
    let build = plain_parameters().build_parameters().after(key_result(3));
    expect_fetch(&build, URI);
}

fn collected() -> EcryptfsMount {
    match plain_parameters().do_mount("/enc", "/clear") {
        Ok(mount) => mount
            .after(EcryptfsReply::Collect(passphrase("My secure password")))
            .after(EcryptfsReply::Collect(key_result(1))),
        Err(_) => panic!("expected a mount"),
    }
}

#[test]
fn a_layer_is_mounted_at_a_new_mount_point() {
    let mount = collected();
    assert!(matches!(mount.action(), EcryptfsAction::CheckExists(path) if path == "/clear"));
    let mount = mount.after(EcryptfsReply::Exists(false));
    assert!(matches!(mount.action(), EcryptfsAction::CreateDir(path) if path == "/clear"));
    let mount = mount.after(EcryptfsReply::Outcome(Ok(())));
    match mount.action() {
        EcryptfsAction::Mount(call) => {
            assert_eq!(call.source, "/enc");
            assert_eq!(call.target, "/clear");
            assert_eq!(call.fs_type, "ecryptfs");
            assert!(call.no_atime);
            assert_eq!(
                call.options,
                "ecryptfs_cipher=aes,ecryptfs_key_bytes=32,ecryptfs_unlink_sigs,\
                 ecryptfs_sig=0ab955d75efe229c"
            );
        }
        _ => panic!("expected the system call"),
    }
    let mount = mount.after(EcryptfsReply::Outcome(Ok(())));
    assert!(matches!(mount.action(), EcryptfsAction::Done));
    match mount.stage {
        EcryptfsStage::Finished(Ok(header)) => assert_eq!(header, Some(String::new())),
        _ => panic!("expected success"),
    }
}

#[test]
fn a_mount_point_that_cannot_be_created_ends_the_mount() {
    let mount = collected()
        .after(EcryptfsReply::Exists(false))
        .after(EcryptfsReply::Outcome(Err("read-only".to_string())));
    match mount.stage {
        EcryptfsStage::Finished(Err(e)) => {
            assert!(matches!(&e, EcryptfsError::CreateMountPoint(cause) if cause == "read-only"));
            assert_eq!(e.message(), "read-only");
        }
        _ => panic!("expected a failure"),
    }
}

#[test]
fn a_refused_system_call_ends_the_mount() {
    let mount = collected()
        .after(EcryptfsReply::Exists(true))
        .after(EcryptfsReply::Outcome(Err("EINVAL".to_string())));
    match mount.stage {
        EcryptfsStage::Finished(Err(e)) => {
            assert!(matches!(&e, EcryptfsError::Mount { cause, .. } if cause == "EINVAL"));
            assert_eq!(
                e.message(),
                "Failed to mount ecryptfs from /enc to mount point /clear"
            );
        }
        _ => panic!("expected a failure"),
    }
}

#[test]
fn parameters_can_be_copied() {
    let mut params = plain_parameters();
    params.fnek_passphrase = Some(FNEK_URI.to_string());
    assert_eq!(params.clone(), params);
}
