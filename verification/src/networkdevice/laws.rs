//! What a network device does, said of its inputs and results.
use crate::ecryptfs::auth_tok::ByteOrder;
use crate::ecryptfs::error::EcryptfsErrorView;
use crate::ecryptfs::laws as ecryptfs_laws;
use crate::ecryptfs::mount;
use crate::ecryptfs::mount::{EcryptfsMountView, EcryptfsStageView};
use crate::ecryptfs::params::EcryptfsMountParameters;
use crate::networkdevice::device;
use crate::networkdevice::device::{
    NetworkDeviceEncryptType, NetworkDeviceParameters, NetworkDeviceView,
};
use crate::networkdevice::error::NetworkDeviceErrorView;
use crate::networkdevice::hooks;
use crate::networkdevice::hooks::{HookStepView, POSTSTOP_SCRIPT, PRESTART_SCRIPT};
use crate::networkdevice::mounting::{
    MountActionView, MountReplyView, MountRunView, MountStageView,
};
use crate::networkdevice::mounts;
use crate::networkdevice::network;
use crate::networkdevice::network::{
    NetworkActionView, NetworkReplyView, NetworkStageView, NetworkWaitView, NetworkWorld,
};
use crate::networkdevice::options;
use crate::networkdevice::options::Entry;
use crate::networkdevice::outcome;
use crate::networkdevice::outcome::DeviceWorld;
use crate::networkdevice::relative;
use crate::syscall::MountCallView;
use crate::text;
use crate::text::CharSet;
use crate::text_laws;
use vstd::prelude::*;
use vstd::string::*;

verus! {

/// The source of the NFSv4 mount call is the server's address, one colon, and the whole
/// path on the server. It is mounted at the transit mount point, as `nfs4`, with access
/// times.
pub proof fn law_nfs_call_names_server_and_path(run: MountRunView)
    ensures
        ({
            let ip = run.params.ip_addr@;
            let path = run.params.source_path@;
            let call = run.nfs_call();
            &&& call.source.len() == ip.len() + 1 + path.len()
            &&& call.source.take(ip.len() as int) == ip
            &&& call.source[ip.len() as int] == ':'
            &&& call.source.skip(ip.len() as int + 1) == path
            &&& call.target == run.transit
            &&& call.fs_type == "nfs4"@
            &&& !call.no_atime
            &&& run.stage is NfsMount ==> run.action() == MountActionView::Mount(call)
        }),
{
    reveal_strlit(":");
    let ip = run.params.ip_addr@;
    let source = run.nfs_call().source;
    assert(source.take(ip.len() as int) =~= ip);
    assert(source.skip(ip.len() as int + 1) =~= run.params.source_path@);
}

/// Mounts from one server that differ in the path make different calls.
pub proof fn law_different_paths_make_different_calls(a: MountRunView, b: MountRunView)
    requires
        a.params.ip_addr@ == b.params.ip_addr@,
        a.params.source_path@ != b.params.source_path@,
    ensures
        a.nfs_call().source != b.nfs_call().source,
{
    law_nfs_call_names_server_and_path(a);
    law_nfs_call_names_server_and_path(b);
}

/// Of the options that the user gives, every one keeps its value in the options of the
/// NFSv4 mount, however many there are. The version and the address are added where the
/// user gives none, and nothing else.
pub proof fn law_user_options_stand(s: Seq<char>, server_addr: Seq<char>, key: Seq<char>)
    ensures
        ({
            let all = options::with_nfs4_defaults(options::user_entries(Some(s)), server_addr);
            options::lookup(all, key) == match options::lookup(options::parse_options(s), key) {
                Some(value) => Some(value),
                None => if key == "vers"@ {
                    Some("4.2"@)
                } else if key == "addr"@ {
                    Some(server_addr)
                } else {
                    None
                },
            }
        }),
        ({
            let all = options::with_nfs4_defaults(options::user_entries(None), server_addr);
            options::lookup(all, key) == if key == "vers"@ {
                Some("4.2"@)
            } else if key == "addr"@ {
                Some(server_addr)
            } else {
                None
            }
        }),
{
    options::law_nfs4_defaults(options::user_entries(Some(s)), server_addr, key);
    options::law_nfs4_defaults(options::user_entries(None), server_addr, key);
}

/// The text that the NFSv4 mount call gets, when it is read again, gives every key that
/// the user's text gives the value that it has there, however many there are; the
/// version and the address have their defaults only where the user's text lacks them.
///
/// The address has no surrounding white space and no comma, as every IP address; no
/// option of the user has neither a key nor a value.
pub proof fn law_nfs_call_carries_the_user_options(run: MountRunView, key: Seq<char>)
    requires
        text::is_trimmed(run.params.ip_addr@, CharSet::WhiteSpace),
        !run.params.ip_addr@.contains(','),
        run.params.mount_options matches Some(s) ==> !options::has_blank(
            options::parse_options(s@),
        ),
    ensures
        ({
            let read = options::parse_options(run.nfs_call().options);
            let given = match run.params.mount_options {
                Some(s) => options::lookup(options::parse_options(s@), key),
                None => None,
            };
            options::lookup(read, key) == match given {
                Some(value) => Some(value),
                None => if key == "vers"@ {
                    Some("4.2"@)
                } else if key == "addr"@ {
                    Some(run.params.ip_addr@)
                } else {
                    None
                },
            }
        }),
{
    let user = match run.params.mount_options {
        Some(s) => Some(s@),
        None => None,
    };
    if run.params.mount_options is None {
        assert(!options::has_blank(Seq::empty()));
    }
    options::law_nfs4_options_text_reads_back(user, run.params.ip_addr@, key);
}

/// Reading one more piece after a comma: an empty one counts for nothing; one with an
/// equals sign sets the key before the first of them to what comes after it; any other
/// one is a flag. Keys and values lose the white space around them. Every other option
/// stays.
#[verifier::rlimit(60)]
#[verifier::spinoff_prover]
pub proof fn law_one_more_option_is_read(
    before: Seq<char>,
    name: Seq<char>,
    value: Seq<char>,
    key: Seq<char>,
)
    requires
        !name.contains(','),
        !name.contains('='),
        !value.contains(','),
    ensures
        options::parse_options(Seq::empty()) == Seq::<Entry>::empty(),
        options::parse_options(before.push(',')) == options::parse_options(before),
        ({
            let old = options::parse_options(before);
            let set = options::parse_options(before.push(',') + (name.push('=') + value));
            options::lookup(set, key) == if key == text::trim(name, CharSet::WhiteSpace) {
                Some(text::trim(value, CharSet::WhiteSpace))
            } else {
                options::lookup(old, key)
            }
        }),
        name.len() > 0 ==> {
            let old = options::parse_options(before);
            let flag = options::parse_options(before.push(',') + name);
            options::lookup(flag, key) == if key == text::trim(name, CharSet::WhiteSpace) {
                Some(Seq::empty())
            } else {
                options::lookup(old, key)
            }
        },
{
    let none = Seq::<char>::empty();
    let old = options::parse_options(before);
    let pieces = text::split(before, ',');
    assert(!none.contains(','));
    text::lemma_split_whole(none, ',');
    assert(seq![none].drop_last() =~= Seq::empty());
    assert(options::collect(Seq::empty()) == Seq::<Entry>::empty());
    text::lemma_split_concat(before, ',', none);
    assert(before.push(',') + none =~= before.push(','));
    assert((pieces + seq![none]).drop_last() =~= pieces);
    let whole = name.push('=') + value;
    assert forall|i: int| 0 <= i < whole.len() implies whole[i] != ',' by {
        if i < name.len() {
            assert(whole[i] == name[i]);
            assert(name.contains(name[i]));
        } else if i > name.len() {
            assert(whole[i] == value[i - name.len() - 1]);
            assert(value.contains(value[i - name.len() - 1]));
        }
    }
    text::lemma_split_whole(whole, ',');
    text::lemma_split_concat(before, ',', whole);
    assert((pieces + seq![whole]).drop_last() =~= pieces);
    text_laws::law_find_stops_at_the_first(name, '=', value);
    assert(whole.take(name.len() as int) =~= name);
    assert(whole.skip(name.len() as int + 1) =~= value);
    options::law_put_changes_one_key(
        old,
        text::trim(name, CharSet::WhiteSpace),
        text::trim(value, CharSet::WhiteSpace),
        key,
    );
    if name.len() > 0 {
        text::lemma_split_whole(name, ',');
        text::lemma_split_concat(before, ',', name);
        assert((pieces + seq![name]).drop_last() =~= pieces);
        options::law_put_changes_one_key(
            old,
            text::trim(name, CharSet::WhiteSpace),
            Seq::empty(),
            key,
        );
    }
}

/// Options are written one after the other, with commas between: a key with its value
/// after an equals sign, or alone where the value is empty.
pub proof fn law_one_more_option_is_written(entries: Seq<Entry>, name: Seq<char>, value: Seq<char>)
    ensures
        ({
            let last = if value.len() == 0 {
                name
            } else {
                name + seq!['='] + value
            };
            options::options_text(entries.push((name, value))) == if entries.len() == 0 {
                last
            } else {
                options::options_text(entries) + seq![','] + last
            }
        }),
        options::options_text(Seq::empty()) == Seq::<char>::empty(),
{
    let last = if value.len() == 0 {
        name
    } else {
        name + seq!['='] + value
    };
    assert(options::option_text((name, value)) =~= last);
    let parts = options::option_texts(entries);
    assert(options::option_texts(entries.push((name, value))) =~= parts.push(last));
    text_laws::law_join_puts_separators_between(parts, last, ',');
    assert(options::option_texts(Seq::empty()) =~= Seq::empty());
    if entries.len() == 0 {
        assert(parts.push(last) =~= seq![last]);
    }
}

/// An option that was not there comes last; one that was there keeps its place.
pub proof fn law_options_keep_their_places(
    entries: Seq<Entry>,
    name: Seq<char>,
    value: Seq<char>,
    i: int,
)
    requires
        0 <= i < entries.len(),
    ensures
        options::lookup(Seq::empty(), name) is None,
        options::lookup(entries, name) is None ==> options::put(entries, name, value)
            == entries.push((name, value)),
        options::lookup(entries, name) is Some ==> options::put(entries, name, value).len()
            == entries.len() && options::put(entries, name, value)[i].0 == entries[i].0,
{
    options::lemma_position(entries, name);
}

/// The state of an interface is read from the file `operstate` in the directory of
/// exactly that interface.
pub proof fn law_state_is_read_in_the_interfaces_directory(
    wait: NetworkWaitView,
    interface: Seq<char>,
    rest: Seq<Seq<char>>,
)
    requires
        wait.stage == (NetworkStageView::Operstate { interface, rest }),
    ensures
        wait.action() == NetworkActionView::ReadFile(
            "/sys/class/net/"@ + interface + "/operstate"@,
        ),
        !interface.contains('/') ==> text::split(wait.action()->ReadFile_0, '/') == seq![
            Seq::empty(),
            "sys"@,
            "class"@,
            "net"@,
            interface,
            "operstate"@,
        ],
{
    if !interface.contains('/') {
        reveal_strlit("/sys/class/net/");
        reveal_strlit("/operstate");
        reveal_strlit("sys");
        reveal_strlit("class");
        reveal_strlit("net");
        reveal_strlit("operstate");
        let none = Seq::<char>::empty();
        let file = "operstate"@;
        let a = interface.push('/') + file;
        let b = "net"@.push('/') + a;
        let c = "class"@.push('/') + b;
        let d = "sys"@.push('/') + c;
        assert("/sys/class/net/"@ + interface + "/operstate"@ =~= none.push('/') + d);
        text_laws::law_split_at_a_separator(file, '/', none);
        text_laws::law_split_at_a_separator(interface, '/', file);
        text_laws::law_split_at_a_separator("net"@, '/', a);
        text_laws::law_split_at_a_separator("class"@, '/', b);
        text_laws::law_split_at_a_separator("sys"@, '/', c);
        text_laws::law_split_at_a_separator(none, '/', d);
        assert(text::split(wait.action()->ReadFile_0, '/') =~= seq![
            none,
            "sys"@,
            "class"@,
            "net"@,
            interface,
            file,
        ]);
    }
}

/// What the other stages of a wait ask for: the interfaces are listed, the routing table
/// is read, and a pause takes a second.
pub proof fn law_wait_asks(wait: NetworkWaitView)
    ensures
        wait.stage is Listing ==> wait.action() == NetworkActionView::ListDir("/sys/class/net"@),
        wait.stage is Routes ==> wait.action() == NetworkActionView::ReadFile("/proc/net/route"@),
        wait.stage is Sleeping ==> wait.action() == NetworkActionView::Sleep(1000),
        wait.stage is Ready || wait.stage is Unreachable ==> wait.action() is Done,
{
}

/// What a wait comes to, said of what the system answers. It succeeds if and only if, at
/// one of sixty looks, the listing of `/sys/class/net` holds an interface other than
/// `lo` whose file `operstate` says `up`, and a line of `/proc/net/route` begins with the
/// interface's whole name.
#[verifier::rlimit(60)]
#[verifier::spinoff_prover]
pub proof fn law_wait_written_out(world: NetworkWorld)
    ensures
        (network::run_wait(NetworkWaitView::start(), world).result() == Some(
            Ok::<(), NetworkDeviceErrorView>(()),
        )) <==> (exists|look: nat, i: int|
            #![trigger (world.names)(look, "/sys/class/net"@)->0[i]]
            {
                let interface = (world.names)(look, "/sys/class/net"@)->0[i];
                let state = (world.state)(look, "/sys/class/net/"@ + interface + "/operstate"@);
                let routes = (world.routes)(look, "/proc/net/route"@, interface);
                &&& 1 <= look <= 60
                &&& (world.names)(look, "/sys/class/net"@) is Some
                &&& 0 <= i < (world.names)(look, "/sys/class/net"@)->0.len()
                &&& interface != "lo"@
                &&& state is Some && text::trim(state->0, CharSet::WhiteSpace) == "up"@
                &&& routes is Some && exists|j: int|
                    0 <= j < text::lines(routes->0).len() && interface.is_prefix_of(
                        #[trigger] text::lines(routes->0)[j],
                    ) && (text::lines(routes->0)[j].len() == interface.len() || text::white_space(
                        text::lines(routes->0)[j][interface.len() as int],
                    ))
            }),
        network::run_wait(NetworkWaitView::start(), world).result() == Some(
            Ok::<(), NetworkDeviceErrorView>(()),
        ) || network::run_wait(NetworkWaitView::start(), world).result() == Some(
            Err::<(), NetworkDeviceErrorView>(
                NetworkDeviceErrorView::NetworkUnreachable {
                    addr: "system network"@,
                    attempts: 60,
                },
            ),
        ),
{
    network::law_wait_result(world);
    if world.is_ready_from(1) {
        let look = choose|k: nat| 1 <= k <= 60 && #[trigger] world.is_ready(k);
        let names = (world.names)(look, "/sys/class/net"@)->0;
        let i = choose|i: int| 0 <= i < names.len() && world.is_usable(look, #[trigger] names[i]);
        let interface = (world.names)(look, "/sys/class/net"@)->0[i];
        assert(world.is_usable(look, interface));
        assert(world.shows_route(look, interface));
        let routes = (world.routes)(look, "/proc/net/route"@, interface)->0;
        assert(network::has_route(routes, interface));
        let j = choose|j: int|
            0 <= j < text::lines(routes).len() && network::is_route_of(
                #[trigger] text::lines(routes)[j],
                interface,
            );
        assert(interface.is_prefix_of(text::lines(routes)[j]));
    } else {
        assert forall|look: nat, i: int|
            #![trigger (world.names)(look, "/sys/class/net"@)->0[i]]
            1 <= look <= 60 && (world.names)(look, "/sys/class/net"@) is Some && 0 <= i < (
            world.names)(look, "/sys/class/net"@)->0.len() implies !world.is_usable(
            look,
            (world.names)(look, "/sys/class/net"@)->0[i],
        ) by {
            assert(!world.is_ready(look));
        }
        assert forall|look: nat, interface: Seq<char>, j: int|
            #![trigger text::lines((world.routes)(look, "/proc/net/route"@, interface)->0)[j]]
            {
                let routes = (world.routes)(look, "/proc/net/route"@, interface);
                let line = text::lines(routes->0)[j];
                routes is Some && 0 <= j < text::lines(routes->0).len() && interface.is_prefix_of(
                    line,
                ) && (line.len() == interface.len() || text::white_space(
                    line[interface.len() as int],
                ))
            } implies world.shows_route(look, interface) by {
            let routes = (world.routes)(look, "/proc/net/route"@, interface)->0;
            assert(network::is_route_of(text::lines(routes)[j], interface));
        }
    }
}

/// A text holds another one somewhere.
pub open spec fn holds(whole: Seq<char>, part: Seq<char>) -> bool {
    exists|from: int, to: int|
        0 <= from <= to <= whole.len() && #[trigger] whole.subrange(from, to) == part
}

/// The first hook waits for the configuration file that a mount writes, reads it, finds
/// the container's root and binds the clear files there at the container's path.
#[verifier::rlimit(60)]
#[verifier::spinoff_prover]
pub proof fn law_prestart_hook_binds_the_clear_files()
    ensures
        PRESTART_SCRIPT@.len() == 1231,
        holds(PRESTART_SCRIPT@, "CONFIG_FILE=\"/run/cdh-hooks/conf\"\n"@),
        holds(PRESTART_SCRIPT@, "while [ ! -f \"$CONFIG_FILE\" ] && [ $WAIT_COUNT -lt 60 ]; do\n    sleep 0.5\n"@),
        holds(PRESTART_SCRIPT@, "[ ! -f \"$CONFIG_FILE\" ] && exit 0\n"@),
        holds(PRESTART_SCRIPT@, ". \"$CONFIG_FILE\"\n[ -z \"$SOURCE_MOUNT\" ] || [ -z \"$CONTAINER_PATH\" ] && exit 0\n"@),
        holds(PRESTART_SCRIPT@, "CONTAINER_ID=$(echo \"$STATE\" | grep -o '\"id\"[[:space:]]*:[[:space:]]*\"[^\"]*\"' | head -1 | sed 's/.*\"\\([^\"]*\\)\"$/\\1/')\n"@),
        holds(PRESTART_SCRIPT@, "KATA_DIR=\"/run/kata-containers\"\nROOTFS=\"$KATA_DIR/$CONTAINER_ID/rootfs\"\nTARGET=\"$ROOTFS$CONTAINER_PATH\"\n"@),
        holds(PRESTART_SCRIPT@, "mkdir -p \"$TARGET\" 2>/dev/null\nmountpoint -q \"$TARGET\" 2>/dev/null && exit 0\n"@),
        holds(PRESTART_SCRIPT@, "mount --bind \"$SOURCE_MOUNT\" \"$TARGET\" && mount --make-private \"$TARGET\"\n"@),
{
    reveal_strlit(r#"#!/bin/sh
# CDH ecryptfs prestart hook - mounts encrypted storage into container
CONFIG_FILE="/run/cdh-hooks/conf"

# Wait for config file (CDH may still be mounting NFS/ecryptfs)
WAIT_COUNT=0
while [ ! -f "$CONFIG_FILE" ] && [ $WAIT_COUNT -lt 60 ]; do
    sleep 0.5
    WAIT_COUNT=$((WAIT_COUNT + 1))
done

[ ! -f "$CONFIG_FILE" ] && exit 0

. "$CONFIG_FILE"
[ -z "$SOURCE_MOUNT" ] || [ -z "$CONTAINER_PATH" ] && exit 0

STATE=$(cat)
CONTAINER_ID=$(echo "$STATE" | grep -o '"id"[[:space:]]*:[[:space:]]*"[^"]*"' | head -1 | sed 's/.*"\([^"]*\)"$/\1/')

if [ -z "$CONTAINER_ID" ]; then
    BUNDLE=$(echo "$STATE" | grep -o '"bundle"[[:space:]]*:[[:space:]]*"[^"]*"' | head -1 | sed 's/.*"\([^"]*\)"$/\1/')
    [ -n "$BUNDLE" ] && CONTAINER_ID=$(basename "$BUNDLE")
fi

[ -z "$CONTAINER_ID" ] && exit 0

KATA_DIR="/run/kata-containers"
ROOTFS="$KATA_DIR/$CONTAINER_ID/rootfs"
TARGET="$ROOTFS$CONTAINER_PATH"

for i in 1 2 3 4 5 6 7 8 9 10; do
    [ -d "$ROOTFS" ] && break
    sleep 0.1
done

[ ! -d "$ROOTFS" ] && exit 0

mkdir -p "$TARGET" 2>/dev/null
mountpoint -q "$TARGET" 2>/dev/null && exit 0

mount --bind "$SOURCE_MOUNT" "$TARGET" && mount --make-private "$TARGET"
echo "CDH prestart: Mounted $SOURCE_MOUNT to $TARGET" >&2
"#);
    assert(PRESTART_SCRIPT@.subrange(81, 115) =~= "CONFIG_FILE=\"/run/cdh-hooks/conf\"\n"@) by {
        reveal_strlit("CONFIG_FILE=\"/run/cdh-hooks/conf\"\n");
    }
    assert(PRESTART_SCRIPT@.subrange(193, 267) =~= "while [ ! -f \"$CONFIG_FILE\" ] && [ $WAIT_COUNT -lt 60 ]; do\n    sleep 0.5\n"@) by {
        reveal_strlit("while [ ! -f \"$CONFIG_FILE\" ] && [ $WAIT_COUNT -lt 60 ]; do\n    sleep 0.5\n");
    }
    assert(PRESTART_SCRIPT@.subrange(308, 342) =~= "[ ! -f \"$CONFIG_FILE\" ] && exit 0\n"@) by {
        reveal_strlit("[ ! -f \"$CONFIG_FILE\" ] && exit 0\n");
    }
    assert(PRESTART_SCRIPT@.subrange(343, 421) =~= ". \"$CONFIG_FILE\"\n[ -z \"$SOURCE_MOUNT\" ] || [ -z \"$CONTAINER_PATH\" ] && exit 0\n"@) by {
        reveal_strlit(". \"$CONFIG_FILE\"\n[ -z \"$SOURCE_MOUNT\" ] || [ -z \"$CONTAINER_PATH\" ] && exit 0\n");
    }
    assert(PRESTART_SCRIPT@.subrange(435, 553) =~= "CONTAINER_ID=$(echo \"$STATE\" | grep -o '\"id\"[[:space:]]*:[[:space:]]*\"[^\"]*\"' | head -1 | sed 's/.*\"\\([^\"]*\\)\"$/\\1/')\n"@) by {
        reveal_strlit("CONTAINER_ID=$(echo \"$STATE\" | grep -o '\"id\"[[:space:]]*:[[:space:]]*\"[^\"]*\"' | head -1 | sed 's/.*\"\\([^\"]*\\)\"$/\\1/')\n");
    }
    assert(PRESTART_SCRIPT@.subrange(803, 907) =~= "KATA_DIR=\"/run/kata-containers\"\nROOTFS=\"$KATA_DIR/$CONTAINER_ID/rootfs\"\nTARGET=\"$ROOTFS$CONTAINER_PATH\"\n"@) by {
        reveal_strlit("KATA_DIR=\"/run/kata-containers\"\nROOTFS=\"$KATA_DIR/$CONTAINER_ID/rootfs\"\nTARGET=\"$ROOTFS$CONTAINER_PATH\"\n");
    }
    assert(PRESTART_SCRIPT@.subrange(1022, 1099) =~= "mkdir -p \"$TARGET\" 2>/dev/null\nmountpoint -q \"$TARGET\" 2>/dev/null && exit 0\n"@) by {
        reveal_strlit("mkdir -p \"$TARGET\" 2>/dev/null\nmountpoint -q \"$TARGET\" 2>/dev/null && exit 0\n");
    }
    assert(PRESTART_SCRIPT@.subrange(1100, 1173) =~= "mount --bind \"$SOURCE_MOUNT\" \"$TARGET\" && mount --make-private \"$TARGET\"\n"@) by {
        reveal_strlit("mount --bind \"$SOURCE_MOUNT\" \"$TARGET\" && mount --make-private \"$TARGET\"\n");
    }
}

/// The second hook reads the same configuration file, finds the container's root and
/// unmounts the clear files there.
#[verifier::rlimit(60)]
#[verifier::spinoff_prover]
pub proof fn law_poststop_hook_unmounts_the_clear_files()
    ensures
        POSTSTOP_SCRIPT@.len() == 818,
        holds(POSTSTOP_SCRIPT@, "CONFIG_FILE=\"/run/cdh-hooks/conf\"\n"@),
        holds(POSTSTOP_SCRIPT@, "[ ! -f \"$CONFIG_FILE\" ] && exit 0\n"@),
        holds(POSTSTOP_SCRIPT@, ". \"$CONFIG_FILE\"\n[ -z \"$CONTAINER_PATH\" ] && exit 0\n"@),
        holds(POSTSTOP_SCRIPT@, "CONTAINER_ID=$(echo \"$STATE\" | grep -o '\"id\"[[:space:]]*:[[:space:]]*\"[^\"]*\"' | head -1 | sed 's/.*\"\\([^\"]*\\)\"$/\\1/')\n"@),
        holds(POSTSTOP_SCRIPT@, "TARGET=\"/run/kata-containers/$CONTAINER_ID/rootfs$CONTAINER_PATH\"\n"@),
        holds(POSTSTOP_SCRIPT@, "sync\nif mountpoint -q \"$TARGET\" 2>/dev/null; then\n    umount \"$TARGET\" 2>/dev/null || umount -l \"$TARGET\" 2>/dev/null\n"@),
{
    reveal_strlit(r#"#!/bin/sh
# CDH ecryptfs poststop hook - unmounts to protect data from cleanup
CONFIG_FILE="/run/cdh-hooks/conf"

[ ! -f "$CONFIG_FILE" ] && exit 0

. "$CONFIG_FILE"
[ -z "$CONTAINER_PATH" ] && exit 0

STATE=$(cat)
CONTAINER_ID=$(echo "$STATE" | grep -o '"id"[[:space:]]*:[[:space:]]*"[^"]*"' | head -1 | sed 's/.*"\([^"]*\)"$/\1/')

if [ -z "$CONTAINER_ID" ]; then
    BUNDLE=$(echo "$STATE" | grep -o '"bundle"[[:space:]]*:[[:space:]]*"[^"]*"' | head -1 | sed 's/.*"\([^"]*\)"$/\1/')
    [ -n "$BUNDLE" ] && CONTAINER_ID=$(basename "$BUNDLE")
fi

[ -z "$CONTAINER_ID" ] && exit 0

TARGET="/run/kata-containers/$CONTAINER_ID/rootfs$CONTAINER_PATH"

sync
if mountpoint -q "$TARGET" 2>/dev/null; then
    umount "$TARGET" 2>/dev/null || umount -l "$TARGET" 2>/dev/null
    echo "CDH poststop: Unmounted $TARGET" >&2
fi
"#);
    assert(POSTSTOP_SCRIPT@.subrange(79, 113) =~= "CONFIG_FILE=\"/run/cdh-hooks/conf\"\n"@) by {
        reveal_strlit("CONFIG_FILE=\"/run/cdh-hooks/conf\"\n");
    }
    assert(POSTSTOP_SCRIPT@.subrange(114, 148) =~= "[ ! -f \"$CONFIG_FILE\" ] && exit 0\n"@) by {
        reveal_strlit("[ ! -f \"$CONFIG_FILE\" ] && exit 0\n");
    }
    assert(POSTSTOP_SCRIPT@.subrange(149, 201) =~= ". \"$CONFIG_FILE\"\n[ -z \"$CONTAINER_PATH\" ] && exit 0\n"@) by {
        reveal_strlit(". \"$CONFIG_FILE\"\n[ -z \"$CONTAINER_PATH\" ] && exit 0\n");
    }
    assert(POSTSTOP_SCRIPT@.subrange(215, 333) =~= "CONTAINER_ID=$(echo \"$STATE\" | grep -o '\"id\"[[:space:]]*:[[:space:]]*\"[^\"]*\"' | head -1 | sed 's/.*\"\\([^\"]*\\)\"$/\\1/')\n"@) by {
        reveal_strlit("CONTAINER_ID=$(echo \"$STATE\" | grep -o '\"id\"[[:space:]]*:[[:space:]]*\"[^\"]*\"' | head -1 | sed 's/.*\"\\([^\"]*\\)\"$/\\1/')\n");
    }
    assert(POSTSTOP_SCRIPT@.subrange(583, 649) =~= "TARGET=\"/run/kata-containers/$CONTAINER_ID/rootfs$CONTAINER_PATH\"\n"@) by {
        reveal_strlit("TARGET=\"/run/kata-containers/$CONTAINER_ID/rootfs$CONTAINER_PATH\"\n");
    }
    assert(POSTSTOP_SCRIPT@.subrange(650, 768) =~= "sync\nif mountpoint -q \"$TARGET\" 2>/dev/null; then\n    umount \"$TARGET\" 2>/dev/null || umount -l \"$TARGET\" 2>/dev/null\n"@) by {
        reveal_strlit("sync\nif mountpoint -q \"$TARGET\" 2>/dev/null; then\n    umount \"$TARGET\" 2>/dev/null || umount -l \"$TARGET\" 2>/dev/null\n");
    }
}

/// The steps that create the hooks, written out: both directories, then each hook, which
/// everyone can run.
pub proof fn law_hook_steps_written_out()
    ensures
        hooks::hook_steps() == seq![
            HookStepView::CreateDir("/run/cdh-hooks/prestart"@),
            HookStepView::CreateDir("/run/cdh-hooks/poststop"@),
            HookStepView::WriteFile {
                path: "/run/cdh-hooks/prestart/cdh-ecryptfs"@,
                contents: PRESTART_SCRIPT@,
            },
            HookStepView::SetMode {
                path: "/run/cdh-hooks/prestart/cdh-ecryptfs"@,
                mode: 0o755,
            },
            HookStepView::WriteFile {
                path: "/run/cdh-hooks/poststop/cdh-ecryptfs"@,
                contents: POSTSTOP_SCRIPT@,
            },
            HookStepView::SetMode {
                path: "/run/cdh-hooks/poststop/cdh-ecryptfs"@,
                mode: 0o755,
            },
        ],
{
    reveal_strlit("/run/cdh-hooks");
    reveal_strlit("/");
    reveal_strlit("prestart");
    reveal_strlit("poststop");
    reveal_strlit("/cdh-ecryptfs");
    reveal_strlit("/run/cdh-hooks/prestart");
    reveal_strlit("/run/cdh-hooks/poststop");
    reveal_strlit("/run/cdh-hooks/prestart/cdh-ecryptfs");
    reveal_strlit("/run/cdh-hooks/poststop/cdh-ecryptfs");
    assert(hooks::hook_dir("prestart"@) =~= "/run/cdh-hooks/prestart"@);
    assert(hooks::hook_dir("poststop"@) =~= "/run/cdh-hooks/poststop"@);
    assert(hooks::hook_path("prestart"@) =~= "/run/cdh-hooks/prestart/cdh-ecryptfs"@);
    assert(hooks::hook_path("poststop"@) =~= "/run/cdh-hooks/poststop/cdh-ecryptfs"@);
}

/// The configuration of the hooks has a comment and two lines, each with the whole of a
/// path in quotes.
#[verifier::rlimit(60)]
#[verifier::spinoff_prover]
pub proof fn law_hook_config_has_both_paths(source_mount: Seq<char>, container_path: Seq<char>)
    ensures
        ({
            let step = hooks::hook_config_step(source_mount, container_path);
            &&& step == (HookStepView::WriteFile {
                path: "/run/cdh-hooks/conf"@,
                contents: "# CDH ecryptfs hook configuration\nSOURCE_MOUNT=\""@ + source_mount
                    + "\"\nCONTAINER_PATH=\""@ + container_path + "\"\n"@,
            })
            &&& !source_mount.contains('\n') && !container_path.contains('\n') ==> text::lines(
                step->contents,
            ) == seq![
                "# CDH ecryptfs hook configuration"@,
                "SOURCE_MOUNT=\""@ + source_mount + "\""@,
                "CONTAINER_PATH=\""@ + container_path + "\""@,
            ]
        }),
{
    if !source_mount.contains('\n') && !container_path.contains('\n') {
        reveal_strlit("# CDH ecryptfs hook configuration\nSOURCE_MOUNT=\"");
        reveal_strlit("\"\nCONTAINER_PATH=\"");
        reveal_strlit("\"\n");
        reveal_strlit("# CDH ecryptfs hook configuration");
        reveal_strlit("SOURCE_MOUNT=\"");
        reveal_strlit("CONTAINER_PATH=\"");
        reveal_strlit("\"");
        let first = "# CDH ecryptfs hook configuration"@;
        let second = "SOURCE_MOUNT=\""@ + source_mount + "\""@;
        let third = "CONTAINER_PATH=\""@ + container_path + "\""@;
        let none = Seq::<char>::empty();
        let two = second.push('\n') + (third.push('\n') + none);
        let contents = hooks::hook_config(source_mount, container_path);
        assert(contents =~= first.push('\n') + two);
        lemma_quoted_lacks_line_feed("SOURCE_MOUNT=\""@, source_mount);
        lemma_quoted_lacks_line_feed("CONTAINER_PATH=\""@, container_path);
        text_laws::law_lines_end_at_line_feeds(first, two);
        text_laws::law_lines_end_at_line_feeds(second, third.push('\n') + none);
        text_laws::law_lines_end_at_line_feeds(third, none);
        assert(second.last() == '"');
        assert(third.last() == '"');
        assert(text::lines(contents) =~= seq![first, second, third]);
    }
}

proof fn lemma_quoted_lacks_line_feed(label: Seq<char>, path: Seq<char>)
    requires
        !label.contains('\n'),
        !path.contains('\n'),
    ensures
        !(label + path + "\""@).contains('\n'),
{
    reveal_strlit("\"");
    let s = label + path + "\""@;
    assert forall|i: int| 0 <= i < s.len() implies s[i] != '\n' by {
        if i < label.len() {
            assert(s[i] == label[i]);
            assert(label.contains(label[i]));
        } else if i < label.len() + path.len() {
            assert(s[i] == path[i - label.len()]);
            assert(path.contains(path[i - label.len()]));
        }
    }
}

/// A fresh transit mount point is the directory `nfs` in a directory of its own, named
/// by the whole UUID, in `/tmp`.
pub proof fn law_fresh_transit_is_named_by_the_uuid(uuid: Seq<char>)
    ensures
        device::transit_path(uuid) == "/tmp/"@ + uuid + "/nfs"@,
        !uuid.contains('/') ==> text::split(device::transit_path(uuid), '/') == seq![
            Seq::empty(),
            "tmp"@,
            uuid,
            "nfs"@,
        ],
{
    if !uuid.contains('/') {
        reveal_strlit("/tmp/");
        reveal_strlit("/nfs");
        reveal_strlit("tmp");
        reveal_strlit("nfs");
        let none = Seq::<char>::empty();
        let a = uuid.push('/') + "nfs"@;
        let b = "tmp"@.push('/') + a;
        assert(device::transit_path(uuid) =~= none.push('/') + b);
        text_laws::law_split_at_a_separator("nfs"@, '/', none);
        text_laws::law_split_at_a_separator(uuid, '/', "nfs"@);
        text_laws::law_split_at_a_separator("tmp"@, '/', a);
        text_laws::law_split_at_a_separator(none, '/', b);
        assert(text::split(device::transit_path(uuid), '/') =~= seq![
            none,
            "tmp"@,
            uuid,
            "nfs"@,
        ]);
    }
}

/// What a relative path resolves to, said of the text: white space around it does not
/// count, then slashes around it do not count. The rest goes below the transit mount
/// point, after one slash, unless it holds a component `..` or begins with a component
/// `.`. Without a rest it is the transit mount point itself.
#[verifier::rlimit(60)]
#[verifier::spinoff_prover]
pub proof fn law_relative_path_goes_below_the_transit(
    kept: Seq<char>,
    slashes: Seq<char>,
    blank_before: Seq<char>,
    slashes_before: Seq<char>,
    names: Seq<char>,
    slashes_after: Seq<char>,
    blank_after: Seq<char>,
)
    requires
        kept.len() > 0 ==> kept.last() != '/',
        forall|i: int| 0 <= i < slashes.len() ==> #[trigger] slashes[i] == '/',
        forall|i: int| 0 <= i < slashes_before.len() ==> #[trigger] slashes_before[i] == '/',
        forall|i: int| 0 <= i < slashes_after.len() ==> #[trigger] slashes_after[i] == '/',
        forall|i: int|
            0 <= i < blank_before.len() ==> text::white_space(#[trigger] blank_before[i]),
        forall|i: int| 0 <= i < blank_after.len() ==> text::white_space(#[trigger] blank_after[i]),
        names.len() > 0 ==> names[0] != '/' && names.last() != '/',
        names.len() > 0 && slashes_before.len() == 0 ==> !text::white_space(names[0]),
        names.len() > 0 && slashes_after.len() == 0 ==> !text::white_space(names.last()),
    ensures
        relative::resolved_path(kept + slashes, None) == Ok::<Seq<char>, NetworkDeviceErrorView>(
            kept + slashes,
        ),
        ({
            let path = slashes_before + names + slashes_after;
            let given = blank_before + path + blank_after;
            let pieces = text::split(names, '/');
            relative::resolved_path(kept + slashes, Some(given)) == if names.len() == 0 {
                Ok::<Seq<char>, NetworkDeviceErrorView>(kept + slashes)
            } else if pieces[0] == "."@ || exists|i: int|
                0 <= i < pieces.len() && #[trigger] pieces[i] == ".."@ {
                Err(
                    NetworkDeviceErrorView::InvalidRelativeMountPath {
                        path,
                        reason: "path must be relative and must not contain '.' or '..'"@,
                    },
                )
            } else {
                Ok(kept + "/"@ + names)
            }
        }),
{
    let path = slashes_before + names + slashes_after;
    let none = Seq::<char>::empty();
    let slash = CharSet::Only('/');
    if path.len() > 0 {
        assert(path[0] == '/' || path[0] == names[0]) by {
            if slashes_before.len() > 0 {
                assert(path[0] == slashes_before[0]);
            } else if names.len() > 0 {
                assert(path[0] == names[0]);
            } else {
                assert(path[0] == slashes_after[0]);
            }
        }
        assert(path.last() == '/' || path.last() == names.last()) by {
            if slashes_after.len() > 0 {
                assert(path.last() == slashes_after.last());
            } else if names.len() > 0 {
                assert(path.last() == names.last());
            } else {
                assert(path.last() == slashes_before.last());
            }
        }
        if slashes_before.len() > 0 {
            assert(path[0] == slashes_before[0]);
        }
        if slashes_after.len() > 0 {
            assert(path.last() == slashes_after.last());
        }
    }
    text_laws::law_trim_keeps_the_middle(blank_before, path, blank_after, CharSet::WhiteSpace);
    text_laws::law_trim_keeps_the_middle(slashes_before, names, slashes_after, slash);
    text_laws::law_trim_one_end(none, kept, slashes, slash);
    if kept.len() == 0 {
        assert(text::trim_end(kept + slashes, slash) =~= kept);
    }
    text_laws::law_trim_keeps_the_middle(none, none, none, slash);
}

/// A mount point is listed exactly if it is the second word of some line.
pub proof fn law_mount_points_stand_in_the_second_column(mounts: Seq<char>, path: Seq<char>)
    ensures
        mounts::lists_mount_point(mounts, path) <==> exists|i: int|
            0 <= i < text::lines(mounts).len() && text::words(
                #[trigger] text::lines(mounts)[i],
            ).len() > 1 && text::words(text::lines(mounts)[i])[1] == path,
{
    if mounts::lists_mount_point(mounts, path) {
        let i = choose|i: int|
            0 <= i < text::lines(mounts).len() && mounts::line_is_about(
                #[trigger] text::lines(mounts)[i],
                path,
            );
        assert(text::words(text::lines(mounts)[i])[1] == path);
    }
    assert forall|i: int|
        0 <= i < text::lines(mounts).len() && text::words(#[trigger] text::lines(mounts)[i]).len()
            > 1 && text::words(text::lines(mounts)[i])[1] == path implies mounts::line_is_about(
        text::lines(mounts)[i],
        path,
    ) by {}
}

/// The messages of the errors hold the whole of what they are about.
pub proof fn law_device_messages(
    cause: Seq<char>,
    server: Seq<char>,
    mount_point: Seq<char>,
    attempts: nat,
    layer: EcryptfsErrorView,
)
    ensures
        (NetworkDeviceErrorView::EcryptfsError { source: layer }).text() == "Ecryptfs error: "@
            + layer.text(),
        NetworkDeviceErrorView::IOError(cause).text() == "I/O error: "@ + cause,
        NetworkDeviceErrorView::SerdeError(cause).text()
            == "Failed to serialize or deserialize JSON: "@ + cause,
        (NetworkDeviceErrorView::MountError { ip_addr: server, mount_point, source: cause }).text()
            == "Failed to mount NFSv4 from "@ + server + " to mount point "@ + mount_point + ": "@
            + cause,
        (NetworkDeviceErrorView::UmountFailed { mount_point, source: cause }).text()
            == "Failed to umount device "@ + mount_point + ": "@ + cause,
        (NetworkDeviceErrorView::NetworkUnreachable { addr: server, attempts }).text()
            == "Network unreachable to "@ + server + " after "@ + text::decimal(attempts)
            + " attempts"@,
        (NetworkDeviceErrorView::InvalidRelativeMountPath { path: mount_point, reason: cause }).text()
            == "Invalid relative mount path "@ + mount_point + ": "@ + cause,
{
}

/// What each stage of a device mount asks for, said of the transit mount point, the
/// container's path and the stage.
pub proof fn law_device_mount_asks(run: MountRunView)
    ensures
        ({
            let target = text::trim_end(run.transit, CharSet::Only('/')) + "_ecryptfs"@;
            match run.stage {
                MountStageView::Hooks { step, .. } => run.action() == MountActionView::Hook(step),
                MountStageView::TransitExists => run.action() == MountActionView::CheckExists(
                    run.transit,
                ),
                MountStageView::TransitCreate => run.action() == MountActionView::CreateDir(
                    run.transit,
                ),
                MountStageView::ReadMounts => run.action() == MountActionView::ReadMounts(
                    run.transit,
                ),
                MountStageView::Network(wait) => run.action() == MountActionView::Network(
                    wait.action(),
                ),
                MountStageView::NfsMount => run.action() == MountActionView::Mount(run.nfs_call()),
                MountStageView::SourceExists { source } => run.action()
                    == MountActionView::CheckExists(source),
                MountStageView::SourceCreate { source } => run.action()
                    == MountActionView::CreateDir(source),
                MountStageView::TargetExists { .. } => run.action() == MountActionView::CheckExists(
                    target,
                ),
                MountStageView::TargetCreate { .. } => run.action() == MountActionView::CreateDir(
                    target,
                ),
                MountStageView::Ecryptfs(layer) => run.action() == MountActionView::Ecryptfs(
                    layer.action(),
                ),
                MountStageView::HookConfig => run.action() == MountActionView::Hook(
                    hooks::hook_config_step(target, run.mount_point),
                ),
                MountStageView::Finished(_) => run.action() is Done,
            }
        }),
{
}

/// A mount begins with the first step for the hooks where files are to be encrypted, and
/// with the transit mount point where not. Each step follows when the one before it
/// succeeded; a failure, or the last step, leads to the transit mount point.
pub proof fn law_hook_steps_follow_each_other(
    params: NetworkDeviceParameters,
    transit: Seq<char>,
    mount_point: Seq<char>,
    order: ByteOrder,
    run: MountRunView,
    step: HookStepView,
    rest: Seq<HookStepView>,
    outcome: Result<(), Seq<char>>,
)
    requires
        run.stage == (MountStageView::Hooks { step, rest }),
    ensures
        ({
            let start = MountRunView::start(params, transit, mount_point, order);
            &&& start.params == params
            &&& start.transit == transit
            &&& start.mount_point == mount_point
            &&& start.order == order
            &&& params.encryption_type is None ==> start.stage is TransitExists
            &&& params.encryption_type is Some ==> (start.stage matches MountStageView::Hooks {
                step: first,
                rest: others,
            } && seq![first] + others == hooks::hook_steps())
        }),
        ({
            let next = run.after(MountReplyView::Outcome(outcome)).stage;
            if outcome is Ok && rest.len() > 0 {
                next matches MountStageView::Hooks { step: second, rest: others } && seq![second]
                    + others == rest
            } else {
                next is TransitExists
            }
        }),
{
    let steps = hooks::hook_steps();
    assert(seq![steps[0]] + steps.drop_first() =~= steps);
    if rest.len() > 0 {
        assert(seq![rest[0]] + rest.drop_first() =~= rest);
    }
}

/// What the mount of a device comes to, said of its parameters and of what the system
/// answers. Each clause gives the result of one way that a mount can go, from the first
/// failure to full success, and what the device records.
#[verifier::rlimit(60)]
#[verifier::spinoff_prover]
pub proof fn law_device_mount_written_out(
    before: NetworkDeviceView,
    params: NetworkDeviceParameters,
    transit: Seq<char>,
    mount_point: Seq<char>,
    order: ByteOrder,
    world: DeviceWorld,
)
    ensures
        ({
            let (after, end) = outcome::run_device_mount(
                before,
                MountRunView::start(params, transit, mount_point, order),
                world,
            );
            let server = params.ip_addr@ + ":"@ + params.source_path@;
            let call = MountCallView {
                source: server,
                target: transit,
                fs_type: "nfs4"@,
                no_atime: false,
                options: options::options_text(
                    options::with_nfs4_defaults(
                        match params.mount_options {
                            Some(s) => options::parse_options(s@),
                            None => Seq::empty(),
                        },
                        params.ip_addr@,
                    ),
                ),
            };
            let made = !(world.transit_exists)(transit);
            let listed = world.mounts is Ok && mounts::lists_mount_point(
                world.mounts->Ok_0,
                match (world.canonical_path)(transit) {
                    Some(path) => path,
                    None => transit,
                },
            );
            let ready = network::run_wait(NetworkWaitView::start(), world.network).stage is Ready;
            let have = !made || (world.transit_create)(transit) is Ok;
            let passed = have && world.mounts is Ok && (listed || ready && (world.nfs_mount)(
                call,
            ) is Ok);
            let with_transit = before.temp_paths + (if made {
                seq![transit]
            } else {
                Seq::empty()
            });
            let with_nfs = before.mount_points + (if listed {
                Seq::empty()
            } else {
                seq![transit]
            });
            &&& !have ==> end.result() == io_error((world.transit_create)(transit)->Err_0) && after
                == before
            &&& have && world.mounts is Err ==> end.result() == io_error(world.mounts->Err_0)
            &&& have && world.mounts is Ok && !listed && !ready ==> end.result() == failure(
                NetworkDeviceErrorView::NetworkUnreachable {
                    addr: "system network"@,
                    attempts: 60,
                },
            )
            &&& have && world.mounts is Ok && !listed && ready && (world.nfs_mount)(call) is Err
                ==> end.result() == failure(
                NetworkDeviceErrorView::MountError {
                    ip_addr: server,
                    mount_point: transit,
                    source: (world.nfs_mount)(call)->Err_0,
                },
            )
            &&& have && !passed ==> after.temp_paths == with_transit && after.mount_points
                == before.mount_points
            &&& passed && params.encryption_type is None ==> end.result() == success()
                && after.temp_paths == with_transit && after.mount_points == with_nfs
        }),
{
    let start = MountRunView::start(params, transit, mount_point, order);
    outcome::law_device_mount_result(before, params, transit, mount_point, order, world);
    network::law_wait_result(world.network);
    let (after, end) = outcome::run_device_mount(before, start, world);
    let none = Seq::<Seq<char>>::empty();
    assert(before.temp_paths + none + none =~= before.temp_paths);
    assert(before.temp_paths + seq![transit] + none =~= before.temp_paths + seq![transit]);
    assert(before.temp_paths + none =~= before.temp_paths);
    assert(before.mount_points + none + none =~= before.mount_points);
    assert(before.mount_points + seq![transit] + none =~= before.mount_points + seq![transit]);
    assert(before.mount_points + none =~= before.mount_points);
    assert(start.nfs_call().source == params.ip_addr@ + ":"@ + params.source_path@);
    if !(world.transit_exists)(transit) && (world.transit_create)(transit) is Err {
        assert(after =~= before);
    }
}

/// Success, as a result.
pub open spec fn success() -> Option<Result<(), NetworkDeviceErrorView>> {
    Some(Ok(()))
}

/// A failure, as a result.
pub open spec fn failure(e: NetworkDeviceErrorView) -> Option<Result<(), NetworkDeviceErrorView>> {
    Some(Err(e))
}

/// A failed file operation, as a result.
pub open spec fn io_error(cause: Seq<char>) -> Option<Result<(), NetworkDeviceErrorView>> {
    Some(Err(NetworkDeviceErrorView::IOError(cause)))
}

/// What the mount of an encrypted device comes to once the server's path is mounted. The
/// directory with the encrypted files is what the relative path resolves to, and is
/// created unless it exists; so is the mount point of the clear files; then the layer is
/// mounted from the one to the other.
#[verifier::rlimit(60)]
#[verifier::spinoff_prover]
pub proof fn law_encrypted_mount_written_out(
    before: NetworkDeviceView,
    params: NetworkDeviceParameters,
    ecryptfs: EcryptfsMountParameters,
    transit: Seq<char>,
    mount_point: Seq<char>,
    order: ByteOrder,
    world: DeviceWorld,
)
    requires
        params.encryption_type == Some(NetworkDeviceEncryptType::Ecryptfs(ecryptfs)),
        ({
            let call = MountCallView {
                source: params.ip_addr@ + ":"@ + params.source_path@,
                target: transit,
                fs_type: "nfs4"@,
                no_atime: false,
                options: options::options_text(
                    options::with_nfs4_defaults(
                        match params.mount_options {
                            Some(s) => options::parse_options(s@),
                            None => Seq::empty(),
                        },
                        params.ip_addr@,
                    ),
                ),
            };
            let listed = world.mounts is Ok && mounts::lists_mount_point(
                world.mounts->Ok_0,
                match (world.canonical_path)(transit) {
                    Some(path) => path,
                    None => transit,
                },
            );
            let ready = network::run_wait(NetworkWaitView::start(), world.network).stage is Ready;
            &&& (world.transit_exists)(transit) || (world.transit_create)(transit) is Ok
            &&& world.mounts is Ok
            &&& listed || ready && (world.nfs_mount)(call) is Ok
        }),
    ensures
        ({
            let listed = mounts::lists_mount_point(
                world.mounts->Ok_0,
                match (world.canonical_path)(transit) {
                    Some(path) => path,
                    None => transit,
                },
            );
            let with_transit = before.temp_paths + (if (world.transit_exists)(transit) {
                Seq::empty()
            } else {
                seq![transit]
            });
            let with_nfs = before.mount_points + (if listed {
                Seq::empty()
            } else {
                seq![transit]
            });
            let (after, end) = outcome::run_device_mount(
                before,
                MountRunView::start(params, transit, mount_point, order),
                world,
            );
            let resolved = relative::resolved_path(
                transit,
                match params.relative_mount_path {
                    Some(path) => Some(path@),
                    None => None,
                },
            );
            let target = text::trim_end(transit, CharSet::Only('/')) + "_ecryptfs"@;
            match resolved {
                Err(e) => end.result() == failure(e) && after.temp_paths == with_transit
                    && after.mount_points == with_nfs,
                Ok(source) => {
                    let no_source = !(world.source_exists)(source) && (world.source_create)(
                        source,
                    ) is Err;
                    let no_target = !(world.target_exists)(target) && (world.target_create)(
                        target,
                    ) is Err;
                    let layer = mount::run_mount(
                        EcryptfsMountView::start(ecryptfs, source, target, order),
                        world.layer,
                        9,
                    );
                    let with_target = with_transit + (if (world.target_exists)(target) {
                        Seq::empty()
                    } else {
                        seq![target]
                    });
                    if no_source {
                        end.result() == io_error((world.source_create)(source)->Err_0)
                            && after.temp_paths == with_transit && after.mount_points == with_nfs
                    } else if no_target {
                        end.result() == io_error((world.target_create)(target)->Err_0)
                            && after.temp_paths == with_transit && after.mount_points == with_nfs
                    } else if ecryptfs.passphrase is None {
                        end.result() == failure(
                            NetworkDeviceErrorView::EcryptfsError {
                                source: EcryptfsErrorView::MissingPassphrase,
                            },
                        ) && after.temp_paths == with_target && after.mount_points == with_nfs
                    } else {
                        match layer.stage {
                            EcryptfsStageView::Finished(Ok(_)) => end.result() == success()
                                && after.temp_paths == with_target && after.mount_points
                                == with_nfs + seq![target],
                            EcryptfsStageView::Finished(Err(e)) => end.result() == failure(
                                NetworkDeviceErrorView::EcryptfsError { source: e },
                            ) && after.temp_paths == with_target && after.mount_points
                                == with_nfs,
                            _ => false,
                        }
                    }
                },
            }
        }),
{
    let start = MountRunView::start(params, transit, mount_point, order);
    outcome::law_device_mount_result(before, params, transit, mount_point, order, world);
    let target = text::trim_end(transit, CharSet::Only('/')) + "_ecryptfs"@;
    let (after, end) = outcome::run_device_mount(before, start, world);
    let none = Seq::<Seq<char>>::empty();
    let with_transit = before.temp_paths + seq![transit];
    let with_nfs = before.mount_points + seq![transit];
    assert(before.temp_paths + none =~= before.temp_paths);
    assert(before.mount_points + none =~= before.mount_points);
    assert(with_transit + none =~= with_transit);
    assert(with_nfs + none =~= with_nfs);
    network::law_wait_result(world.network);
    assert(start.nfs_call().source == params.ip_addr@ + ":"@ + params.source_path@);
    if let Ok(source) = start.source() {
        mount::law_ecryptfs_mount_result(ecryptfs, source, target, order, world.layer);
    }
    assert(after =~= world.device(before, start));
}

/// A reply to something that was not asked for changes nothing, neither a mount nor what
/// the device records.
pub proof fn law_unasked_replies_change_nothing(
    device: NetworkDeviceView,
    run: MountRunView,
    reply: MountReplyView,
    wait: NetworkWaitView,
    answer: NetworkReplyView,
)
    requires
        run.is_consistent(),
        !run.is_answered_by(reply),
        !wait.is_answered_by(answer),
    ensures
        run.after(reply) == run,
        device.after(run, reply) == device,
        wait.after(answer) == wait,
{
    if let (MountStageView::Ecryptfs(layer), MountReplyView::Ecryptfs(inner)) = (
        run.stage,
        reply,
    ) {
        ecryptfs_laws::law_unasked_replies_change_no_layer(layer, inner);
    }
}

} // verus!
