//! Network devices and their parameters.
use crate::ecryptfs::key;
use crate::ecryptfs::params::EcryptfsMountParameters;
use crate::text;
use uuid::Uuid;
use vstd::prelude::*;
use vstd::string::*;

verus! {

/// How the files of a network device are encrypted.
#[derive(Debug, PartialEq, Eq)]
pub enum NetworkDeviceEncryptType {
    /// By an eCryptfs layer over the transit mount.
    Ecryptfs(EcryptfsMountParameters),
}

impl NetworkDeviceEncryptType {
    /// The name of the kind of encryption.
    pub fn name(&self) -> (r: String)
        ensures
            r@ == "ecryptfs"@,
    {
        match self {
            NetworkDeviceEncryptType::Ecryptfs(_) => "ecryptfs".to_owned(),
        }
    }
}

/// The parameters of a network device.
#[derive(Debug, PartialEq)]
pub struct NetworkDeviceParameters {
    /// The address of the server, in its usual text form.
    pub ip_addr: String,
    /// The path on the server.
    pub source_path: String,
    /// Options for the NFSv4 mount, separated by commas.
    pub mount_options: Option<String>,
    /// Where the server's path is mounted. Without it, a fresh path is made up.
    pub transit_mount_point: Option<String>,
    /// Where below the transit mount point the encrypted files lie.
    pub relative_mount_path: Option<String>,
    /// How the files are encrypted, if they are.
    pub encryption_type: Option<NetworkDeviceEncryptType>,
}

/// A network device, as far as it has been mounted.
pub struct NetworkDevice {
    /// The paths to remove when the device is unmounted: the directories that its mount
    /// created for itself, in the order in which they were created.
    pub temp_paths: Vec<String>,
    /// The mount points that the mount of the device created, in their order. They are
    /// unmounted, in this order, before the paths are removed.
    pub mount_points: Vec<String>,
}

/// The contents of a [`NetworkDevice`].
#[verifier::ext_equal]
pub struct NetworkDeviceView {
    /// The paths to remove when the device is unmounted.
    pub temp_paths: Seq<Seq<char>>,
    /// The mount points that the mount of the device created.
    pub mount_points: Seq<Seq<char>>,
}

impl View for NetworkDevice {
    type V = NetworkDeviceView;

    open spec fn view(&self) -> NetworkDeviceView {
        NetworkDeviceView {
            temp_paths: text::strings(self.temp_paths@),
            mount_points: text::strings(self.mount_points@),
        }
    }
}

impl NetworkDeviceView {
    /// The device with one more path to remove.
    pub open spec fn with_temp_path(self, path: Seq<char>) -> Self {
        NetworkDeviceView { temp_paths: self.temp_paths.push(path), ..self }
    }

    /// The device with one more mount point to unmount.
    pub open spec fn with_mount_point(self, path: Seq<char>) -> Self {
        NetworkDeviceView { mount_points: self.mount_points.push(path), ..self }
    }
}

impl Default for NetworkDevice {
    fn default() -> (r: Self)
        ensures
            r@.temp_paths.len() == 0,
            r@.mount_points.len() == 0,
    {
        NetworkDevice { temp_paths: Vec::new(), mount_points: Vec::new() }
    }
}

/// The text of a random UUID: lower-case hexadecimal digits in five groups, with the
/// version (four) and the variant in their places.
pub open spec fn is_random_uuid(s: Seq<char>) -> bool {
    &&& s.len() == 36
    &&& forall|i: int|
        0 <= i < 36 ==> if i == 8 || i == 13 || i == 18 || i == 23 {
            #[trigger] s[i] == '-'
        } else {
            key::is_lower_hex(s[i])
        }
    &&& s[14] == '4'
    &&& s[19] == '8' || s[19] == '9' || s[19] == 'a' || s[19] == 'b'
}

/// Calls `uuid::Uuid::new_v4` and writes the UUID with its `Display`. The text is that
/// of a random UUID; which one is left to chance. (The call panics where the operating
/// system gives no random bytes.)
#[verifier::external_body]
fn random_uuid() -> (r: String)
    ensures
        is_random_uuid(r@),
{
    Uuid::new_v4().to_string()
}

/// The transit mount point that goes with a UUID.
pub open spec fn transit_path(uuid: Seq<char>) -> Seq<char> {
    "/tmp/"@ + uuid + "/nfs"@
}

/// The transit mount point that goes with a UUID.
pub fn transit_mount_point_of(uuid: &str) -> (r: String)
    ensures
        r@ == transit_path(uuid@),
{
    "/tmp/".to_owned().concat(uuid).concat("/nfs")
}

/// The transit mount point: the one that is given, or a fresh one.
pub fn choose_transit_mount_point(given: &Option<String>) -> (r: String)
    ensures
        match *given {
            Some(path) => r@ == path@,
            None => exists|uuid: Seq<char>|
                #[trigger] is_random_uuid(uuid) && r@ == transit_path(uuid),
        },
{
    match given {
        Some(path) => path.clone(),
        None => {
            let uuid = random_uuid();
            let path = transit_mount_point_of(uuid.as_str());
            assert(is_random_uuid(uuid@) && path@ == transit_path(uuid@));
            path
        },
    }
}

} // verus!
