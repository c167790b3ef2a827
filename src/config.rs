use vstd::prelude::*;

use crate::error::BackupError;
use crate::paths::join_path;

verus! {

/// One device to back up, named by its serial.
#[derive(Debug, Clone)]
pub struct BackupDevice {
    /// The serial number of the device.
    pub serial: String,
    /// An optional human-readable name for the device.
    pub name: Option<String>,
    /// How many dated copies to keep; one when absent, and zero is refused.
    pub copies: Option<usize>,
}

/// One destination filesystem and the devices that are backed up onto it.
#[derive(Debug, Clone)]
pub struct BackupConfig {
    /// The devices to back up.
    pub backup_devices: Vec<BackupDevice>,
    /// The UUID of the destination filesystem.
    pub uuid: String,
    /// The directory under the destination's mount point; its root when absent.
    pub destination_path: Option<String>,
    /// The integrity-check command; `fsck -n` when absent.
    pub fsck_command: Option<String>,
    /// Whether to skip the integrity check.
    pub skip_fsck: Option<bool>,
    /// Whether to leave mounting and unmounting alone.
    pub skip_mount: Option<bool>,
}

/// The whole backup plan.
#[derive(Debug, Clone)]
pub struct Config {
    /// The groups, in the order in which they run.
    pub backups: Vec<BackupConfig>,
    /// Where destination filesystems are mounted; `/mnt` when absent.
    pub mountpath: Option<String>,
}

/// No two groups share a destination UUID.
pub open spec fn uuids_unique(backups: Seq<BackupConfig>) -> bool {
    forall|i: int, j: int| 0 <= i < j < backups.len() ==> backups[i].uuid@ != backups[j].uuid@
}

/// No two devices of a group share a serial.
pub open spec fn serials_unique(devices: Seq<BackupDevice>) -> bool {
    forall|i: int, j: int|
        0 <= i < j < devices.len() ==> devices[i].serial@ != devices[j].serial@
}

/// The device asks to keep zero copies.
pub open spec fn zero_copies(device: BackupDevice) -> bool {
    device.copies == Some(0usize)
}

/// No device of the group asks to keep zero copies.
pub open spec fn copies_positive(devices: Seq<BackupDevice>) -> bool {
    forall|i: int| 0 <= i < devices.len() ==> !zero_copies(#[trigger] devices[i])
}

/// A group is valid: unique serials and no retention count of zero.
pub open spec fn group_valid(group: BackupConfig) -> bool {
    serials_unique(group.backup_devices@) && copies_positive(group.backup_devices@)
}

/// Every group before index `g` is valid.
pub open spec fn groups_valid_before(backups: Seq<BackupConfig>, g: int) -> bool {
    forall|h: int| 0 <= h < g ==> group_valid(#[trigger] backups[h])
}

/// A plan is valid: unique UUIDs and valid groups.
pub open spec fn config_valid(config: Config) -> bool {
    uuids_unique(config.backups@) && groups_valid_before(config.backups@, config.backups@.len() as int)
}

/// What validation returns for a plan that was read: the plan itself when it
/// is valid, else the first rule broken, UUIDs first, then group by group
/// serials before retention counts.
pub open spec fn validation_outcome(read: Result<Config, String>, r: Result<Config, BackupError>) -> bool {
    match read {
        Err(e) => r == Err::<Config, BackupError>(BackupError::Unreadable(e)),
        Ok(c) => {
            let b = c.backups@;
            &&& (r is Ok <==> config_valid(c))
            &&& (r is Ok ==> r == Ok::<Config, BackupError>(c))
            &&& (r == Err::<Config, BackupError>(BackupError::DuplicateUuid) <==> !uuids_unique(b))
            &&& (r is Err ==> !(r->Err_0 is Unreadable))
            &&& (r matches Err(BackupError::DuplicateSerial(u)) ==> uuids_unique(b) && exists|g: int|
                0 <= g < b.len() && groups_valid_before(b, g) && !serials_unique(b[g].backup_devices@)
                    && u@ == b[g].uuid@)
            &&& (r matches Err(BackupError::ZeroCopies(s)) ==> uuids_unique(b) && exists|g: int, d: int|
                0 <= g < b.len() && groups_valid_before(b, g) && serials_unique(b[g].backup_devices@)
                    && 0 <= d < b[g].backup_devices@.len()
                    && zero_copies(b[g].backup_devices@[d])
                    && copies_positive(b[g].backup_devices@.take(d))
                    && s@ == b[g].backup_devices@[d].serial@)
            &&& (r is Err ==> (r->Err_0 is DuplicateUuid || r->Err_0 is DuplicateSerial
                || r->Err_0 is ZeroCopies))
        },
    }
}

impl Config {
    /// Loads a plan from what was read from its source, and validates it.
    pub fn new(read: Result<Config, String>) -> (r: Result<Config, BackupError>)
        ensures
            validation_outcome(read, r),
    {
        Self::validate_config(read)
    }

    /// Validates a plan that was read: UUIDs unique across the plan, serials
    /// unique within each group, and no retention count of zero.
    pub fn validate_config(config: Result<Config, String>) -> (r: Result<Config, BackupError>)
        ensures
            validation_outcome(config, r),
    {
        let plan = match config {
            Ok(c) => c,
            Err(e) => {
                return Err(BackupError::Unreadable(e));
            },
        };
        let n = plan.backups.len();
        let mut i: usize = 0;
        while i < n
            invariant
                config == Ok::<Config, String>(plan),
                n == plan.backups@.len(),
                i <= n,
                forall|a: int, b: int|
                    0 <= a < i && a < b < n ==> plan.backups@[a].uuid@
                        != plan.backups@[b].uuid@,
            decreases n - i,
        {
            let mut j: usize = i + 1;
            while j < n
                invariant
                    config == Ok::<Config, String>(plan),
                n == plan.backups@.len(),
                    i < n,
                    i < j <= n,
                    forall|b: int| i < b < j ==> plan.backups@[i as int].uuid@ != plan.backups@[b].uuid@,
                decreases n - j,
            {
                if plan.backups[i].uuid == plan.backups[j].uuid {
                    assert(!uuids_unique(plan.backups@)) by {
                        assert(plan.backups@[i as int].uuid@ == plan.backups@[j as int].uuid@);
                    }
                    return Err(BackupError::DuplicateUuid);
                }
                j = j + 1;
            }
            i = i + 1;
        }
        let mut g: usize = 0;
        while g < n
            invariant
                config == Ok::<Config, String>(plan),
                n == plan.backups@.len(),
                g <= n,
                uuids_unique(plan.backups@),
                groups_valid_before(plan.backups@, g as int),
            decreases n - g,
        {
            let group = &plan.backups[g];
            if !serials_are_unique(&group.backup_devices) {
                let ghost b = plan.backups@;
                assert(!config_valid(plan) && !group_valid(b[g as int]));
                assert(0 <= g < b.len() && groups_valid_before(b, g as int) && !serials_unique(
                    b[g as int].backup_devices@,
                ));
                let uuid = group.uuid.clone();
                return Err(BackupError::DuplicateSerial(uuid));
            }
            match first_zero_copies(&group.backup_devices) {
                Some(d) => {
                    let ghost b = plan.backups@;
                    let ghost devs = b[g as int].backup_devices@;
                    assert(!copies_positive(devs)) by {
                        assert(zero_copies(devs[d as int]));
                    }
                    assert(!config_valid(plan) && !group_valid(b[g as int]));
                    assert(0 <= g < b.len() && groups_valid_before(b, g as int) && serials_unique(
                        devs,
                    ) && 0 <= d < devs.len() && zero_copies(devs[d as int]) && copies_positive(
                        devs.take(d as int),
                    ));
                    let serial = group.backup_devices[d].serial.clone();
                    return Err(BackupError::ZeroCopies(serial));
                },
                None => {},
            }
            assert(group_valid(plan.backups@[g as int]));
            g = g + 1;
        }
        Ok(plan)
    }

    /// The default location of the plan: `config.json` in the configuration
    /// home directory, which the caller has found or created.
    pub fn default_config_file_path(config_home: Result<String, String>) -> (r: Result<String, BackupError>)
        ensures
            match config_home {
                Ok(home) => r is Ok && r->Ok_0@ == crate::paths::joined(home@, "config.json"@),
                Err(e) => r == Err::<String, BackupError>(BackupError::Unreadable(e)),
            },
    {
        match config_home {
            Ok(home) => Ok(join_path(home.as_str(), "config.json")),
            Err(e) => Err(BackupError::Unreadable(e)),
        }
    }
}

/// Whether the devices' serials are pairwise distinct.
pub fn serials_are_unique(devices: &Vec<BackupDevice>) -> (r: bool)
    ensures
        r == serials_unique(devices@),
{
    let n = devices.len();
    let mut i: usize = 0;
    while i < n
        invariant
            n == devices@.len(),
            i <= n,
            forall|a: int, b: int| 0 <= a < i && a < b < n ==> devices@[a].serial@ != devices@[b].serial@,
        decreases n - i,
    {
        let mut j: usize = i + 1;
        while j < n
            invariant
                n == devices@.len(),
                i < n,
                i < j <= n,
                forall|b: int| i < b < j ==> devices@[i as int].serial@ != devices@[b].serial@,
            decreases n - j,
        {
            if devices[i].serial == devices[j].serial {
                return false;
            }
            j = j + 1;
        }
        i = i + 1;
    }
    true
}

/// The index of the first device that asks to keep zero copies, if any.
pub fn first_zero_copies(devices: &Vec<BackupDevice>) -> (r: Option<usize>)
    ensures
        match r {
            Some(d) => d < devices@.len() && zero_copies(devices@[d as int])
                && copies_positive(devices@.take(d as int)),
            None => copies_positive(devices@),
        },
{
    let n = devices.len();
    let mut i: usize = 0;
    while i < n
        invariant
            n == devices@.len(),
            i <= n,
            copies_positive(devices@.take(i as int)),
        decreases n - i,
    {
        if devices[i].copies == Some(0usize) {
            return Some(i);
        }
        assert(devices@.take(i as int + 1) =~= devices@.take(i as int).push(devices@[i as int]));
        i = i + 1;
    }
    assert(devices@.take(n as int) =~= devices@);
    None
}

} // verus!
