//! The hooks that bring the clear files into a container.
//!
//! The hooks wait for a configuration file, so they can be created before anything is
//! mounted.
use vstd::prelude::*;
use vstd::string::*;

verus! {

/// Where the hooks are put. (The root file system cannot be written.)
pub const GUEST_HOOKS_DIR: &'static str = "/run/cdh-hooks";

/// The configuration of the hooks.
pub const HOOK_CONFIG_FILE: &'static str = "/run/cdh-hooks/conf";

/// The permissions of a hook: everyone can run it, its owner can change it.
pub const HOOK_MODE: u32 = 0o755;

/// The hook that waits for the configuration and then mounts the clear files into the
/// container.
pub const PRESTART_SCRIPT: &'static str = r#"#!/bin/sh
# CDH ecryptfs prestart hook - mounts encrypted storage into container
CONFIG_FILE="/run/cdh-hooks/conf"

# Wait for config file (CDH may still be mounting NFS/ecryptfs)
WAIT_COUNT=0
while [ ! -f "$CONFIG_FILE" ] && [ $WAIT_COUNT -lt 60 ]; do
    sleep 0.5
    WAIT_COUNT=$((WAIT_COUNT + 1))
done

[ ! -f "$CONFIG_FILE" ] && exit 0

. "$CONFIG_FILE"
[ -z "$SOURCE_MOUNT" ] || [ -z "$CONTAINER_PATH" ] && exit 0

STATE=$(cat)
CONTAINER_ID=$(echo "$STATE" | grep -o '"id"[[:space:]]*:[[:space:]]*"[^"]*"' | head -1 | sed 's/.*"\([^"]*\)"$/\1/')

if [ -z "$CONTAINER_ID" ]; then
    BUNDLE=$(echo "$STATE" | grep -o '"bundle"[[:space:]]*:[[:space:]]*"[^"]*"' | head -1 | sed 's/.*"\([^"]*\)"$/\1/')
    [ -n "$BUNDLE" ] && CONTAINER_ID=$(basename "$BUNDLE")
fi

[ -z "$CONTAINER_ID" ] && exit 0

KATA_DIR="/run/kata-containers"
ROOTFS="$KATA_DIR/$CONTAINER_ID/rootfs"
TARGET="$ROOTFS$CONTAINER_PATH"

for i in 1 2 3 4 5 6 7 8 9 10; do
    [ -d "$ROOTFS" ] && break
    sleep 0.1
done

[ ! -d "$ROOTFS" ] && exit 0

mkdir -p "$TARGET" 2>/dev/null
mountpoint -q "$TARGET" 2>/dev/null && exit 0

mount --bind "$SOURCE_MOUNT" "$TARGET" && mount --make-private "$TARGET"
echo "CDH prestart: Mounted $SOURCE_MOUNT to $TARGET" >&2
"#;

/// The hook that unmounts the clear files, to protect them from the container's cleanup.
pub const POSTSTOP_SCRIPT: &'static str = r#"#!/bin/sh
# CDH ecryptfs poststop hook - unmounts to protect data from cleanup
CONFIG_FILE="/run/cdh-hooks/conf"

[ ! -f "$CONFIG_FILE" ] && exit 0

. "$CONFIG_FILE"
[ -z "$CONTAINER_PATH" ] && exit 0

STATE=$(cat)
CONTAINER_ID=$(echo "$STATE" | grep -o '"id"[[:space:]]*:[[:space:]]*"[^"]*"' | head -1 | sed 's/.*"\([^"]*\)"$/\1/')

if [ -z "$CONTAINER_ID" ]; then
    BUNDLE=$(echo "$STATE" | grep -o '"bundle"[[:space:]]*:[[:space:]]*"[^"]*"' | head -1 | sed 's/.*"\([^"]*\)"$/\1/')
    [ -n "$BUNDLE" ] && CONTAINER_ID=$(basename "$BUNDLE")
fi

[ -z "$CONTAINER_ID" ] && exit 0

TARGET="/run/kata-containers/$CONTAINER_ID/rootfs$CONTAINER_PATH"

sync
if mountpoint -q "$TARGET" 2>/dev/null; then
    umount "$TARGET" 2>/dev/null || umount -l "$TARGET" 2>/dev/null
    echo "CDH poststop: Unmounted $TARGET" >&2
fi
"#;

/// One file operation on the hooks.
#[derive(Debug)]
pub enum HookStep {
    /// Create this directory and its parents.
    CreateDir(String),
    /// Write this file.
    WriteFile {
        /// The file.
        path: String,
        /// What it is to hold.
        contents: String,
    },
    /// Set the permissions of this file.
    SetMode {
        /// The file.
        path: String,
        /// The permissions.
        mode: u32,
    },
}

/// The contents of a [`HookStep`].
pub enum HookStepView {
    /// Create this directory and its parents.
    CreateDir(Seq<char>),
    /// Write this file.
    WriteFile {
        /// The file.
        path: Seq<char>,
        /// What it is to hold.
        contents: Seq<char>,
    },
    /// Set the permissions of this file.
    SetMode {
        /// The file.
        path: Seq<char>,
        /// The permissions.
        mode: u32,
    },
}

impl View for HookStep {
    type V = HookStepView;

    open spec fn view(&self) -> HookStepView {
        match *self {
            HookStep::CreateDir(path) => HookStepView::CreateDir(path@),
            HookStep::WriteFile { path, contents } => HookStepView::WriteFile {
                path: path@,
                contents: contents@,
            },
            HookStep::SetMode { path, mode } => HookStepView::SetMode { path: path@, mode },
        }
    }
}

impl HookStepView {
    /// The file or directory that the step is about.
    pub open spec fn path(self) -> Seq<char> {
        match self {
            HookStepView::CreateDir(path) => path,
            HookStepView::WriteFile { path, .. } => path,
            HookStepView::SetMode { path, .. } => path,
        }
    }
}

impl Clone for HookStep {
    fn clone(&self) -> (r: Self)
        ensures
            r == *self,
    {
        match self {
            HookStep::CreateDir(path) => HookStep::CreateDir(path.clone()),
            HookStep::WriteFile { path, contents } => HookStep::WriteFile {
                path: path.clone(),
                contents: contents.clone(),
            },
            HookStep::SetMode { path, mode } => HookStep::SetMode {
                path: path.clone(),
                mode: *mode,
            },
        }
    }
}

/// The directory of the hooks that run at one point of a container's life.
pub open spec fn hook_dir(point: Seq<char>) -> Seq<char> {
    GUEST_HOOKS_DIR@ + "/"@ + point
}

/// The hook that runs at one point of a container's life.
pub open spec fn hook_path(point: Seq<char>) -> Seq<char> {
    hook_dir(point) + "/cdh-ecryptfs"@
}

/// The contents of a sequence of steps.
pub open spec fn steps_view(steps: Seq<HookStep>) -> Seq<HookStepView> {
    Seq::new(steps.len(), |i: int| steps[i]@)
}

/// The steps that create the hooks, in their order: first both directories, then each
/// hook, which is written before it is made executable.
pub open spec fn hook_steps() -> Seq<HookStepView> {
    seq![
        HookStepView::CreateDir(hook_dir("prestart"@)),
        HookStepView::CreateDir(hook_dir("poststop"@)),
        HookStepView::WriteFile { path: hook_path("prestart"@), contents: PRESTART_SCRIPT@ },
        HookStepView::SetMode { path: hook_path("prestart"@), mode: HOOK_MODE },
        HookStepView::WriteFile { path: hook_path("poststop"@), contents: POSTSTOP_SCRIPT@ },
        HookStepView::SetMode { path: hook_path("poststop"@), mode: HOOK_MODE },
    ]
}

/// The steps that create the hooks. Each one is taken only if those before it
/// succeeded.
pub fn create_guest_hooks() -> (r: Vec<HookStep>)
    ensures
        steps_view(r@) == hook_steps(),
{
    let prestart_dir = GUEST_HOOKS_DIR.to_owned().concat("/").concat("prestart");
    let poststop_dir = GUEST_HOOKS_DIR.to_owned().concat("/").concat("poststop");
    let prestart_path = prestart_dir.clone().concat("/cdh-ecryptfs");
    let poststop_path = poststop_dir.clone().concat("/cdh-ecryptfs");
    let mut steps: Vec<HookStep> = Vec::new();
    steps.push(HookStep::CreateDir(prestart_dir));
    steps.push(HookStep::CreateDir(poststop_dir));
    steps.push(
        HookStep::WriteFile { path: prestart_path.clone(), contents: PRESTART_SCRIPT.to_owned() },
    );
    steps.push(HookStep::SetMode { path: prestart_path, mode: HOOK_MODE });
    steps.push(
        HookStep::WriteFile { path: poststop_path.clone(), contents: POSTSTOP_SCRIPT.to_owned() },
    );
    steps.push(HookStep::SetMode { path: poststop_path, mode: HOOK_MODE });
    assert(steps_view(steps@) =~= hook_steps());
    steps
}

/// The configuration that tells the hooks what to mount into the container, and where.
pub open spec fn hook_config(source_mount: Seq<char>, container_path: Seq<char>) -> Seq<char> {
    "# CDH ecryptfs hook configuration\nSOURCE_MOUNT=\""@ + source_mount
        + "\"\nCONTAINER_PATH=\""@ + container_path + "\"\n"@
}

/// The step that writes the configuration.
pub open spec fn hook_config_step(source_mount: Seq<char>, container_path: Seq<char>) -> HookStepView {
    HookStepView::WriteFile {
        path: HOOK_CONFIG_FILE@,
        contents: hook_config(source_mount, container_path),
    }
}

/// The step that writes the configuration of the hooks.
pub fn write_hook_config(source_mount: &str, container_path: &str) -> (r: HookStep)
    ensures
        r@ == hook_config_step(source_mount@, container_path@),
{
    HookStep::WriteFile {
        path: HOOK_CONFIG_FILE.to_owned(),
        contents: "# CDH ecryptfs hook configuration\nSOURCE_MOUNT=\"".to_owned().concat(
            source_mount,
        ).concat("\"\nCONTAINER_PATH=\"").concat(container_path).concat("\"\n"),
    }
}

/// Every step, that of the configuration too, is about the directory of the hooks or
/// something in it.
pub proof fn law_hooks_stay_in_their_directory(
    i: int,
    source_mount: Seq<char>,
    container_path: Seq<char>,
)
    requires
        0 <= i < hook_steps().len(),
    ensures
        (GUEST_HOOKS_DIR@ + "/"@).is_prefix_of(hook_steps()[i].path()),
        (GUEST_HOOKS_DIR@ + "/"@).is_prefix_of(
            hook_config_step(source_mount, container_path).path(),
        ),
{
    reveal_strlit("/run/cdh-hooks");
    reveal_strlit("/run/cdh-hooks/conf");
    reveal_strlit("/");
    let dir = GUEST_HOOKS_DIR@ + "/"@;
    let path = hook_steps()[i].path();
    assert(path.subrange(0, dir.len() as int) =~= dir);
    assert(HOOK_CONFIG_FILE@.subrange(0, dir.len() as int) =~= dir);
}

} // verus!
