use cdh_storage::ecryptfs::collect::BuildReply;
use cdh_storage::ecryptfs::error::EcryptfsError;
use cdh_storage::ecryptfs::mount::EcryptfsReply;
use cdh_storage::ecryptfs::params::EcryptfsMountParameters;
use cdh_storage::networkdevice::device::{
    choose_transit_mount_point, transit_mount_point_of, NetworkDevice, NetworkDeviceEncryptType,
    NetworkDeviceParameters,
};
use cdh_storage::networkdevice::error::NetworkDeviceError;
use cdh_storage::networkdevice::hooks::{
    create_guest_hooks, write_hook_config, HookStep, POSTSTOP_SCRIPT, PRESTART_SCRIPT,
};
use cdh_storage::networkdevice::mounting::{MountAction, MountReply, MountRun};
use cdh_storage::networkdevice::mounts::is_mounted;
use cdh_storage::networkdevice::network::{
    route_exists, state_is_up, wait_for_system_network_ready, NetworkAction, NetworkReply,
    NetworkWait,
};
use cdh_storage::networkdevice::options::{
    ensure_nfs4_mount_options, mount_options_to_string, parse_mount_options, MountOptions,
    DEFAULT_NFS_VERSION,
};
use cdh_storage::networkdevice::relative::resolve_relative_mount_path;
use cdh_storage::networkdevice::umount::UmountAction;

#[test]
fn parse_mount_options_handles_key_values_and_flags() {
    let parsed = parse_mount_options("vers=4.2,proto=tcp,soft");
    assert_eq!(parsed.get("vers"), Some(&"4.2".to_string()));
    assert_eq!(parsed.get("proto"), Some(&"tcp".to_string()));
    assert_eq!(parsed.get("soft"), Some(&"".to_string()));
}

#[test]
fn mount_options_roundtrip_preserves_entries() {
    let original = "vers=4.2,addr=10.0.0.2,proto=tcp,soft";
    let parsed = parse_mount_options(original);
    let serialized = mount_options_to_string(&parsed);
    let reparsed = parse_mount_options(&serialized);

    assert_eq!(parsed, reparsed);
}

#[test]
fn ensure_nfs4_mount_options_adds_required_defaults() {
    let addr = "127.0.0.1";
    let options = ensure_nfs4_mount_options(addr, None);
    let parsed = parse_mount_options(&options);

    assert_eq!(parsed.get("vers"), Some(&DEFAULT_NFS_VERSION.to_string()));
    assert_eq!(parsed.get("addr"), Some(&addr.to_string()));
}

#[test]
fn ensure_nfs4_mount_options_respects_user_values() {
    let addr = "127.0.0.1";
    let options = ensure_nfs4_mount_options(addr, Some("vers=4.1,addr=1.2.3.4,soft"));
    let parsed = parse_mount_options(&options);

    assert_eq!(parsed.get("vers"), Some(&"4.1".to_string()));
    assert_eq!(parsed.get("addr"), Some(&"1.2.3.4".to_string()));
    assert_eq!(parsed.get("soft"), Some(&"".to_string()));
}

#[test]
fn resolve_relative_mount_path_joins_with_transit_mount_point() {
    let resolved = resolve_relative_mount_path("/tmp/abc/nfs", Some("tenant-a/models"))
        .expect("must resolve");
    assert_eq!(resolved, "/tmp/abc/nfs/tenant-a/models");
}

#[test]
fn resolve_relative_mount_path_without_relative_path_uses_transit_mount_point() {
    let resolved = resolve_relative_mount_path("/tmp/abc/nfs", None).expect("must resolve");
    assert_eq!(resolved, "/tmp/abc/nfs");
}

#[test]
fn resolve_relative_mount_path_with_empty_relative_path_uses_transit_mount_point() {
    let resolved =
        resolve_relative_mount_path("/tmp/abc/nfs", Some("   ")).expect("must resolve");
    assert_eq!(resolved, "/tmp/abc/nfs");
}

#[test]
fn resolve_relative_mount_path_rejects_parent_components() {
    let err = resolve_relative_mount_path("/tmp/abc/nfs", Some("../escape"))
        .expect_err("must reject parent component");

    match err {
        NetworkDeviceError::InvalidRelativeMountPath { .. } => {}
        _ => panic!("expected InvalidRelativeMountPath"),
    }
}

#[test]
fn options_are_trimmed_and_the_last_value_counts() {
    let parsed = parse_mount_options(" a = 1 ,,b= x=y ,a=2,\tflag ");
    assert_eq!(parsed.len(), 3);
    assert_eq!(parsed.get("a"), Some(&"2".to_string()));
    assert_eq!(parsed.get("b"), Some(&"x=y".to_string()));
    assert_eq!(parsed.get("flag"), Some(&"".to_string()));
    assert!(parsed.contains_key("flag"));
    assert!(!parsed.contains_key(" a "));
    assert_eq!(parsed.get("c"), None);
    assert_eq!(parse_mount_options("").len(), 0);
    assert_eq!(parse_mount_options(",,").len(), 0);
}

#[test]
fn options_are_written_in_the_order_of_their_keys_first_use() {
    assert_eq!(mount_options_to_string(&parse_mount_options("b=1,a,b=2")), "b=2,a");
    assert_eq!(mount_options_to_string(&MountOptions::new()), "");
    let options = MountOptions::new()
        .with("x".to_string(), "".to_string())
        .with("y".to_string(), "1".to_string())
        .with("x".to_string(), "2".to_string());
    assert_eq!(mount_options_to_string(&options), "x=2,y=1");
}

#[test]
fn options_are_equal_whatever_their_order() {
    assert!(parse_mount_options("a=1,b") == parse_mount_options("b,a=1"));
    assert!(parse_mount_options("a=1,b") != parse_mount_options("a=1"));
    assert!(parse_mount_options("a=1,b") != parse_mount_options("a=2,b"));
    assert!(parse_mount_options("a=1") != parse_mount_options("b=1"));
}

#[test]
fn a_blank_option_does_not_survive_being_written_alone() {
    let parsed = parse_mount_options(" ");
    assert_eq!(parsed.len(), 1);
    assert_eq!(parsed.get(""), Some(&"".to_string()));
    assert_eq!(parse_mount_options(&mount_options_to_string(&parsed)).len(), 0);
}

#[test]
fn nfs4_defaults_are_appended() {
    assert_eq!(ensure_nfs4_mount_options("10.0.0.2", None), "vers=4.2,addr=10.0.0.2");
    assert_eq!(
        ensure_nfs4_mount_options("::1", Some("soft,vers=4.0")),
        "soft,vers=4.0,addr=::1"
    );
    assert_eq!(
        ensure_nfs4_mount_options("10.0.0.2", Some("addr=h")),
        "addr=h,vers=4.2"
    );
}

#[test]
fn relative_paths_are_trimmed() {
    let resolve = |path: &str| resolve_relative_mount_path("/t//", Some(path)).ok();
    assert_eq!(resolve(" /a/b/ "), Some("/t/a/b".to_string()));
    assert_eq!(resolve("a//b"), Some("/t/a//b".to_string()));
    assert_eq!(resolve("a/./b"), Some("/t/a/./b".to_string()));
    assert_eq!(resolve("..."), Some("/t/...".to_string()));
    assert_eq!(resolve("//"), Some("/t//".to_string()));
    assert_eq!(resolve(" \t"), Some("/t//".to_string()));
    assert_eq!(resolve("a/.."), None);
    assert_eq!(resolve("a/../b"), None);
    assert_eq!(resolve("./a"), None);
    assert_eq!(resolve("."), None);
}

#[test]
fn a_rejected_path_is_named() {
    let err = resolve_relative_mount_path("/t", Some(" /../x ")).expect_err("must reject");
    assert_eq!(
        err.message(),
        "Invalid relative mount path /../x: \
         path must be relative and must not contain '.' or '..'"
    );
}

#[test]
fn a_mount_point_is_found_in_the_second_column() {
    let mounts = "proc /proc proc rw 0 0\n10.0.0.2:/x  /tmp/a/nfs nfs4 rw 0 0\nshort\n";
    assert!(is_mounted(mounts, Some("/tmp/a/nfs"), "/tmp/link"));
    assert!(is_mounted(mounts, None, "/proc"));
    assert!(!is_mounted(mounts, Some("/real"), "/proc"));
    assert!(!is_mounted(mounts, None, "proc"));
    assert!(!is_mounted(mounts, None, "/tmp/a"));
    assert!(!is_mounted("", None, ""));
}

#[test]
fn interface_states_and_routes_are_read() {
    assert!(state_is_up("up\n"));
    assert!(!state_is_up("down\n"));
    assert!(!state_is_up("UP"));
    let routes = "Iface\tDestination\neth0\t00000000\n";
    assert!(route_exists(routes, "eth0"));
    assert!(!route_exists(routes, "eth"));
    assert!(!route_exists(routes, "eth1"));
    assert!(!route_exists(routes, "00000000"));
    assert!(route_exists("eth0", "eth0"));
    assert!(route_exists("Iface\neth0 0\n", "eth0"));
    assert!(!route_exists(" eth0", "eth0"));
    assert!(!route_exists("Iface\n eth0 0\n", "eth0"));
    assert!(!route_exists("", "eth0"));
}

fn names(list: &[&str]) -> NetworkReply {
    NetworkReply::Names(Some(list.iter().map(|n| n.to_string()).collect()))
}

fn contents(text: &str) -> NetworkReply {
    NetworkReply::Contents(Some(text.to_string()))
}

fn expect_read(wait: &NetworkWait, path: &str) {
    match wait.action() {
        NetworkAction::ReadFile(file) => assert_eq!(file, path),
        _ => panic!("expected a file to be read"),
    }
}

#[test]
fn the_network_is_ready_with_an_interface_and_a_route() {
    let wait = wait_for_system_network_ready();
    assert!(matches!(wait.action(), NetworkAction::ListDir(dir) if dir == "/sys/class/net"));
    let wait = wait.after(names(&["lo", "eth0", "eth1"]));
    expect_read(&wait, "/sys/class/net/eth0/operstate");
    let wait = wait.after(contents("down\n"));
    expect_read(&wait, "/sys/class/net/eth1/operstate");
    let wait = wait.after(contents(" up\n"));
    expect_read(&wait, "/proc/net/route");
    assert!(wait.result().is_none());
    let wait = wait.after(contents("Iface\neth1 0\n"));
    assert!(matches!(wait.result(), Some(Ok(()))));
    assert!(matches!(wait.action(), NetworkAction::Done));
}

#[test]
fn the_network_is_looked_for_sixty_times() {
    let mut wait = wait_for_system_network_ready();
    let mut pauses = 0;
    let mut looks = 0;
    while wait.result().is_none() {
        wait = match wait.action() {
            NetworkAction::ListDir(_) => {
                looks += 1;
                if looks % 2 == 0 {
                    wait.after(NetworkReply::Names(None))
                } else {
                    wait.after(names(&["lo", "eth0"]))
                }
            }
            NetworkAction::ReadFile(file) => {
                if file == "/proc/net/route" {
                    wait.after(NetworkReply::Contents(None))
                } else {
                    wait.after(contents("up"))
                }
            }
            NetworkAction::Sleep(ms) => {
                assert_eq!(ms, 1000);
                pauses += 1;
                wait.after(NetworkReply::Slept)
            }
            NetworkAction::Done => unreachable!(),
        };
    }
    assert_eq!(looks, 60);
    assert_eq!(pauses, 59);
    match wait.result() {
        Some(Err(e)) => assert_eq!(
            e.message(),
            "Network unreachable to system network after 60 attempts"
        ),
        _ => panic!("expected a failure"),
    }
}

#[test]
fn the_route_of_another_interface_does_not_count() {
    let mut wait = wait_for_system_network_ready();
    while wait.result().is_none() {
        wait = match wait.action() {
            NetworkAction::ListDir(_) => wait.after(names(&["lo", "eth1", "eth10"])),
            NetworkAction::ReadFile(file) => match file.as_str() {
                "/sys/class/net/eth1/operstate" => wait.after(contents("up\n")),
                "/sys/class/net/eth10/operstate" => wait.after(contents("down\n")),
                _ => wait.after(contents("Iface\tDestination\neth10\t00000000\n")),
            },
            NetworkAction::Sleep(_) => wait.after(NetworkReply::Slept),
            NetworkAction::Done => unreachable!(),
        };
    }
    match wait.result() {
        Some(Err(NetworkDeviceError::NetworkUnreachable { addr, attempts })) => {
            assert_eq!(addr, "system network");
            assert_eq!(attempts, 60);
        }
        _ => panic!("expected an unreachable network"),
    }
}

#[test]
fn a_later_look_can_find_the_network() {
    let wait = wait_for_system_network_ready().after(names(&[]));
    assert!(matches!(wait.action(), NetworkAction::Sleep(1000)));
    let wait = wait.after(NetworkReply::Slept).after(names(&["wlan0"]));
    let wait = wait.after(NetworkReply::Contents(None));
    let wait = wait.after(NetworkReply::Slept).after(names(&["wlan0"]));
    let wait = wait.after(contents("up")).after(contents("wlan0"));
    assert_eq!(wait.attempt, 3);
    assert!(matches!(wait.result(), Some(Ok(()))));
}

#[test]
fn hooks_are_created_in_order() {
    let steps = create_guest_hooks();
    let shown: Vec<String> = steps
        .iter()
        .map(|step| match step {
            HookStep::CreateDir(path) => format!("mkdir {}", path),
            HookStep::WriteFile { path, contents } => {
                assert!(contents == PRESTART_SCRIPT || contents == POSTSTOP_SCRIPT);
                format!("write {} {}", path, contents == PRESTART_SCRIPT)
            }
            HookStep::SetMode { path, mode } => format!("chmod {:o} {}", mode, path),
        })
        .collect();
    assert_eq!(
        shown,
        vec![
            "mkdir /run/cdh-hooks/prestart",
            "mkdir /run/cdh-hooks/poststop",
            "write /run/cdh-hooks/prestart/cdh-ecryptfs true",
            "chmod 755 /run/cdh-hooks/prestart/cdh-ecryptfs",
            "write /run/cdh-hooks/poststop/cdh-ecryptfs false",
            "chmod 755 /run/cdh-hooks/poststop/cdh-ecryptfs",
        ]
    );
    assert!(PRESTART_SCRIPT.starts_with("#!/bin/sh\n# CDH ecryptfs prestart hook"));
    assert!(PRESTART_SCRIPT.ends_with("echo \"CDH prestart: Mounted $SOURCE_MOUNT to $TARGET\" >&2\n"));
    assert!(POSTSTOP_SCRIPT.starts_with("#!/bin/sh\n# CDH ecryptfs poststop hook"));
    assert!(POSTSTOP_SCRIPT.ends_with("echo \"CDH poststop: Unmounted $TARGET\" >&2\nfi\n"));
}

#[test]
fn hooks_are_configured_with_both_paths() {
    match write_hook_config("/tmp/x/nfs_ecryptfs", "/data") {
        HookStep::WriteFile { path, contents } => {
            assert_eq!(path, "/run/cdh-hooks/conf");
            assert_eq!(
                contents,
                "# CDH ecryptfs hook configuration\n\
                 SOURCE_MOUNT=\"/tmp/x/nfs_ecryptfs\"\n\
                 CONTAINER_PATH=\"/data\"\n"
            );
        }
        _ => panic!("expected a file"),
    }
}

fn parameters(encrypted: bool) -> NetworkDeviceParameters {
    NetworkDeviceParameters {
        ip_addr: "10.0.0.2".to_string(),
        source_path: "/export".to_string(),
        mount_options: Some("soft".to_string()),
        transit_mount_point: Some("/mnt/t/".to_string()),
        relative_mount_path: Some("tenant".to_string()),
        encryption_type: if encrypted {
            Some(NetworkDeviceEncryptType::Ecryptfs(EcryptfsMountParameters {
                passphrase: Some("kbs:///a/b/c".to_string()),
                fnek_passphrase: None,
                cipher: "aes".to_string(),
                key_bytes: "32".to_string(),
                enable_passthrough: "false".to_string(),
                enable_filename_crypto: "false".to_string(),
                unlink_sigs: "true".to_string(),
            }))
        } else {
            None
        },
    }
}

fn ok() -> MountReply {
    MountReply::Outcome(Ok(()))
}

fn failed(cause: &str) -> MountReply {
    MountReply::Outcome(Err(cause.to_string()))
}

fn list_of_mounts(list: &str) -> MountReply {
    MountReply::Mounts { mounts: Ok(list.to_string()), canonical_path: Some("/mnt/t".to_string()) }
}

fn show(run: &MountRun) -> String {
    match run.action() {
        MountAction::Hook(HookStep::CreateDir(path)) => format!("hook dir {}", path),
        MountAction::Hook(HookStep::WriteFile { path, .. }) => format!("hook file {}", path),
        MountAction::Hook(HookStep::SetMode { path, .. }) => format!("hook mode {}", path),
        MountAction::CheckExists(path) => format!("exists {}", path),
        MountAction::CreateDir(path) => format!("create {}", path),
        MountAction::ReadMounts(path) => format!("mounts {}", path),
        MountAction::Network(_) => "network".to_string(),
        MountAction::Mount(call) => format!(
            "mount {} {} {} {} {}",
            call.source, call.target, call.fs_type, call.no_atime, call.options
        ),
        MountAction::Ecryptfs(_) => "ecryptfs".to_string(),
        MountAction::Done => "done".to_string(),
    }
}

fn failure(run: MountRun) -> NetworkDeviceError {
    match run.result() {
        Some(Err(e)) => e,
        _ => panic!("expected a failure"),
    }
}

fn through_network(device: &mut NetworkDevice, run: MountRun) -> MountRun {
    let run = device.advance(run, MountReply::Network(names(&["eth0"])));
    let run = device.advance(run, MountReply::Network(contents("up")));
    device.advance(run, MountReply::Network(contents("eth0 0")))
}

fn through_hooks(device: &mut NetworkDevice, mut run: MountRun) -> MountRun {
    for _ in 0..6 {
        assert!(show(&run).starts_with("hook "));
        run = device.advance(run, ok());
    }
    run
}

#[test]
fn a_plain_device_is_mounted_at_a_new_transit_mount_point() {
    let mut device = NetworkDevice::default();
    let run = NetworkDevice::real_mount(parameters(false), "/data");
    assert_eq!(show(&run), "exists /mnt/t/");
    let run = device.advance(run, MountReply::Exists(false));
    assert_eq!(show(&run), "create /mnt/t/");
    let run = device.advance(run, ok());
    assert_eq!(device.temp_paths, vec!["/mnt/t/".to_string()]);
    assert_eq!(show(&run), "mounts /mnt/t/");
    let run = device.advance(run, list_of_mounts("proc /proc proc rw 0 0\n"));
    assert_eq!(show(&run), "network");
    let run = through_network(&mut device, run);
    assert_eq!(
        show(&run),
        "mount 10.0.0.2:/export /mnt/t/ nfs4 false soft,vers=4.2,addr=10.0.0.2"
    );
    let run = device.advance(run, ok());
    assert_eq!(show(&run), "done");
    assert!(matches!(run.result(), Some(Ok(()))));
    assert_eq!(device.temp_paths.len(), 1);
    assert_eq!(device.mount_points, vec!["/mnt/t/".to_string()]);
}

#[test]
fn a_mounted_transit_is_not_mounted_again() {
    let mut device = NetworkDevice::default();
    let run = NetworkDevice::real_mount(parameters(false), "/data");
    let run = device.advance(run, MountReply::Exists(true));
    let run = device.advance(run, list_of_mounts("10.0.0.2:/export /mnt/t nfs4 rw 0 0\n"));
    assert!(matches!(run.result(), Some(Ok(()))));
    assert!(device.temp_paths.is_empty());
    assert!(device.mount_points.is_empty());
}

#[test]
fn an_encrypted_device_gets_a_layer_beside_the_transit() {
    let mut device = NetworkDevice::default();
    let run = NetworkDevice::real_mount(parameters(true), "/data");
    assert_eq!(show(&run), "hook dir /run/cdh-hooks/prestart");
    let run = through_hooks(&mut device, run);
    let run = device.advance(run, MountReply::Exists(true));
    let run = device.advance(run, list_of_mounts(""));
    let run = through_network(&mut device, run);
    let run = device.advance(run, ok());
    assert_eq!(show(&run), "exists /mnt/t/tenant");
    let run = device.advance(run, MountReply::Exists(false));
    assert_eq!(show(&run), "create /mnt/t/tenant");
    let run = device.advance(run, ok());
    assert!(device.temp_paths.is_empty());
    assert_eq!(show(&run), "exists /mnt/t_ecryptfs");
    let run = device.advance(run, MountReply::Exists(false));
    assert_eq!(show(&run), "create /mnt/t_ecryptfs");
    let run = device.advance(run, ok());
    assert_eq!(device.temp_paths, vec!["/mnt/t_ecryptfs".to_string()]);
    assert_eq!(show(&run), "ecryptfs");
    let reply = EcryptfsReply::Collect(BuildReply::Passphrase(None));
    let run = device.advance(run, MountReply::Ecryptfs(reply));
    let run = device.advance(run, MountReply::Ecryptfs(EcryptfsReply::Exists(true)));
    assert_eq!(show(&run), "ecryptfs");
    assert_eq!(device.mount_points, vec!["/mnt/t/".to_string()]);
    let run = device.advance(run, MountReply::Ecryptfs(EcryptfsReply::Outcome(Ok(()))));
    assert_eq!(device.mount_points, vec!["/mnt/t/".to_string(), "/mnt/t_ecryptfs".to_string()]);
    match run.action() {
        MountAction::Hook(HookStep::WriteFile { path, contents }) => {
            assert_eq!(path, "/run/cdh-hooks/conf");
            assert!(contents.contains("SOURCE_MOUNT=\"/mnt/t_ecryptfs\"\n"));
            assert!(contents.contains("CONTAINER_PATH=\"/data\"\n"));
        }
        _ => panic!("expected the configuration of the hooks"),
    }
    let run = device.advance(run, failed("read-only"));
    assert!(matches!(run.result(), Some(Ok(()))));
    assert_eq!(device.mount_points.len(), 2);
    let umount = device.umount();
    assert!(matches!(umount.action(), UmountAction::Umount(path) if path == "/mnt/t/"));
    let umount = umount.after(Ok(()));
    assert!(matches!(umount.action(), UmountAction::Umount(path) if path == "/mnt/t_ecryptfs"));
    let umount = umount.after(Ok(()));
    assert!(matches!(umount.action(), UmountAction::RemovePath(path) if path == "/mnt/t_ecryptfs"));
    assert!(matches!(umount.after(Ok(())).result(), Some(Ok(()))));
}

#[test]
fn failing_hooks_do_not_stop_the_mount() {
    let mut device = NetworkDevice::default();
    let run = NetworkDevice::real_mount(parameters(true), "/data");
    let run = device.advance(run, ok());
    assert_eq!(show(&run), "hook dir /run/cdh-hooks/poststop");
    let run = device.advance(run, failed("no space"));
    assert_eq!(show(&run), "exists /mnt/t/");
}

#[test]
fn file_operations_that_fail_end_the_mount() {
    let mut device = NetworkDevice::default();
    let run = NetworkDevice::real_mount(parameters(false), "/data");
    let run = device.advance(run, MountReply::Exists(false));
    let run = device.advance(run, failed("denied"));
    assert_eq!(failure(run).message(), "I/O error: denied");
    assert!(device.temp_paths.is_empty());

    let run = NetworkDevice::real_mount(parameters(false), "/data");
    let run = device.advance(run, MountReply::Exists(true));
    let reply = MountReply::Mounts { mounts: Err("no proc".to_string()), canonical_path: None };
    let run = device.advance(run, reply);
    assert!(matches!(failure(run), NetworkDeviceError::IOError(cause) if cause == "no proc"));
}

#[test]
fn a_refused_nfs_mount_ends_the_mount() {
    let mut device = NetworkDevice::default();
    let run = NetworkDevice::real_mount(parameters(true), "/data");
    let run = through_hooks(&mut device, run);
    let run = device.advance(run, MountReply::Exists(true));
    let reply = MountReply::Mounts { mounts: Ok(String::new()), canonical_path: None };
    let run = device.advance(run, reply);
    let run = through_network(&mut device, run);
    let run = device.advance(run, failed("ENODEV"));
    assert!(device.mount_points.is_empty());
    assert_eq!(
        failure(run).message(),
        "Failed to mount NFSv4 from 10.0.0.2:/export to mount point /mnt/t/: ENODEV"
    );
}

fn up_to_layer(params: NetworkDeviceParameters, device: &mut NetworkDevice) -> MountRun {
    let run = NetworkDevice::real_mount(params, "/data");
    let run = through_hooks(device, run);
    let run = device.advance(run, MountReply::Exists(true));
    device.advance(run, list_of_mounts("x /mnt/t nfs4 rw 0 0"))
}

#[test]
fn a_path_out_of_the_transit_ends_the_mount() {
    let mut device = NetworkDevice::default();
    let mut params = parameters(true);
    params.relative_mount_path = Some("a/../../b".to_string());
    let run = up_to_layer(params, &mut device);
    match failure(run) {
        NetworkDeviceError::InvalidRelativeMountPath { path, .. } => assert_eq!(path, "a/../../b"),
        _ => panic!("expected a rejected path"),
    }
}

#[test]
fn a_missing_passphrase_ends_the_mount_after_the_directories() {
    let mut device = NetworkDevice::default();
    let mut params = parameters(true);
    if let Some(NetworkDeviceEncryptType::Ecryptfs(ecryptfs)) = &mut params.encryption_type {
        ecryptfs.passphrase = None;
    }
    let run = up_to_layer(params, &mut device);
    let run = device.advance(run, MountReply::Exists(true));
    let run = device.advance(run, MountReply::Exists(false));
    let run = device.advance(run, ok());
    assert_eq!(device.temp_paths, vec!["/mnt/t_ecryptfs".to_string()]);
    assert_eq!(failure(run).message(), "Ecryptfs error: passphrase must be provided");
}

#[test]
fn a_refused_layer_ends_the_mount() {
    let mut device = NetworkDevice::default();
    let run = up_to_layer(parameters(true), &mut device);
    let run = device.advance(run, MountReply::Exists(true));
    let run = device.advance(run, MountReply::Exists(true));
    let reply = EcryptfsReply::Collect(BuildReply::Passphrase(None));
    let run = device.advance(run, MountReply::Ecryptfs(reply));
    let run = device.advance(run, MountReply::Ecryptfs(EcryptfsReply::Exists(true)));
    let reply = EcryptfsReply::Outcome(Err("EPERM".to_string()));
    let run = device.advance(run, MountReply::Ecryptfs(reply));
    match failure(run) {
        NetworkDeviceError::EcryptfsError { source: EcryptfsError::Mount { cause, .. } } => {
            assert_eq!(cause, "EPERM")
        }
        _ => panic!("expected a failure of the layer"),
    }
    assert!(device.mount_points.is_empty());
}

#[test]
fn layer_directories_that_cannot_be_created_end_the_mount() {
    let mut device = NetworkDevice::default();
    let run = up_to_layer(parameters(true), &mut device);
    let run = device.advance(run, MountReply::Exists(false));
    let run = device.advance(run, failed("source"));
    assert_eq!(failure(run).message(), "I/O error: source");

    let run = up_to_layer(parameters(true), &mut device);
    let run = device.advance(run, MountReply::Exists(true));
    let run = device.advance(run, MountReply::Exists(false));
    let run = device.advance(run, failed("target"));
    assert_eq!(failure(run).message(), "I/O error: target");
    assert!(device.temp_paths.is_empty());
}

#[test]
fn an_unreachable_network_ends_the_mount() {
    let mut device = NetworkDevice::default();
    let run = NetworkDevice::real_mount(parameters(false), "/data");
    let run = device.advance(run, MountReply::Exists(true));
    let mut run = device.advance(run, list_of_mounts(""));
    while show(&run) == "network" {
        run = device.advance(run, MountReply::Network(NetworkReply::Names(None)));
        run = device.advance(run, MountReply::Network(NetworkReply::Slept));
    }
    match failure(run) {
        NetworkDeviceError::NetworkUnreachable { addr, attempts } => {
            assert_eq!(addr, "system network");
            assert_eq!(attempts, 60);
        }
        _ => panic!("expected an unreachable network"),
    }
}

#[test]
fn a_reply_to_another_question_changes_nothing() {
    let mut device = NetworkDevice::default();
    let run = NetworkDevice::real_mount(parameters(false), "/data");
    let run = device.advance(run, ok());
    assert_eq!(show(&run), "exists /mnt/t/");
    assert!(device.temp_paths.is_empty());
}

#[test]
fn a_transit_mount_point_is_made_up() {
    let given = choose_transit_mount_point(&Some("/mnt".to_string()));
    assert_eq!(given, "/mnt");
    assert_eq!(transit_mount_point_of("u"), "/tmp/u/nfs");
    let mut params = parameters(false);
    params.transit_mount_point = None;
    let fresh = NetworkDevice::real_mount(params, "/data").transit;
    let other = choose_transit_mount_point(&None);
    assert_ne!(fresh, other);
    for path in [fresh, other] {
        let chars: Vec<char> = path.chars().collect();
        assert_eq!(chars.len(), 45);
        assert!(path.starts_with("/tmp/"));
        assert!(path.ends_with("/nfs"));
        let uuid = &chars[5..41];
        for (i, c) in uuid.iter().enumerate() {
            match i {
                8 | 13 | 18 | 23 => assert_eq!(*c, '-'),
                14 => assert_eq!(*c, '4'),
                19 => assert!(['8', '9', 'a', 'b'].contains(c)),
                _ => assert!(c.is_ascii_digit() || ('a'..='f').contains(c)),
            }
        }
    }
}

#[test]
fn the_clear_files_appear_beside_a_fresh_transit() {
    let mut device = NetworkDevice::default();
    let mut params = parameters(true);
    params.transit_mount_point = None;
    params.relative_mount_path = None;
    let run = NetworkDevice::real_mount(params, "/data");
    let transit = run.transit.clone();
    let run = through_hooks(&mut device, run);
    let run = device.advance(run, MountReply::Exists(false));
    let run = device.advance(run, ok());
    let reply = MountReply::Mounts {
        mounts: Ok(format!("x {} nfs4 rw 0 0", transit)),
        canonical_path: None,
    };
    let run = device.advance(run, reply);
    assert_eq!(show(&run), format!("exists {}", transit));
    let run = device.advance(run, MountReply::Exists(true));
    assert_eq!(show(&run), format!("exists {}_ecryptfs", transit));
    assert_eq!(device.temp_paths, vec![transit]);
}

#[test]
fn the_kind_of_encryption_has_a_name() {
    assert_eq!(parameters(true).encryption_type.map(|t| t.name()), Some("ecryptfs".to_string()));
}

fn device_with(mount_points: &[&str], temp_paths: &[&str]) -> NetworkDevice {
    NetworkDevice {
        temp_paths: temp_paths.iter().map(|p| p.to_string()).collect(),
        mount_points: mount_points.iter().map(|p| p.to_string()).collect(),
    }
}

#[test]
fn everything_is_unmounted_and_removed_in_order() {
    let device = device_with(&["/a", "/b"], &["/x", "/y"]);
    let mut run = device.umount();
    let mut done: Vec<String> = Vec::new();
    loop {
        match run.action() {
            UmountAction::Umount(path) => done.push(format!("umount {}", path)),
            UmountAction::RemovePath(path) => done.push(format!("remove {}", path)),
            UmountAction::Done => break,
        }
        run = run.after(Ok(()));
    }
    assert_eq!(done, vec!["umount /a", "umount /b", "remove /x", "remove /y"]);
    assert!(matches!(run.result(), Some(Ok(()))));
    assert_eq!(device.mount_points.len(), 2);
}

#[test]
fn the_first_failed_unmount_ends_the_unmounting() {
    let run = device_with(&["/a", "/b"], &["/x"]).umount();
    let run = run.after(Ok(())).after(Err("busy".to_string()));
    assert!(matches!(run.action(), UmountAction::Done));
    match run.result() {
        Some(Err(e)) => assert_eq!(e.message(), "Failed to umount device /b: busy"),
        _ => panic!("expected a failure"),
    }
}

#[test]
fn the_first_failed_removal_ends_the_unmounting() {
    let run = device_with(&[], &["/x", "/y"]).umount().after(Err("not empty".to_string()));
    assert!(matches!(run.action(), UmountAction::Done));
    assert_eq!(run.temp_paths.len(), 2);
    match run.result() {
        Some(Err(NetworkDeviceError::IOError(cause))) => assert_eq!(cause, "not empty"),
        _ => panic!("expected a failure"),
    }
    let fresh = NetworkDevice::default().umount();
    assert!(matches!(fresh.result(), Some(Ok(()))));
    assert!(device_with(&["/a"], &[]).umount().result().is_none());
}

#[test]
fn a_decoding_failure_has_a_message() {
    assert_eq!(
        NetworkDeviceError::SerdeError("missing field".to_string()).message(),
        "Failed to serialize or deserialize JSON: missing field"
    );
}
