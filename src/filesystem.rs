use vstd::prelude::*;

use crate::block_device::{
    carries, find_matches, matching, opt_bytes_of, parse_opt_bytes, BlockDevice, IdKind,
};
use crate::backup::{count_backups, listing_count, BackupFile};
use crate::config::BackupConfig;
use crate::error::BackupError;

verus! {

/// The destination filesystem of a group, bound to the one enumerated device
/// that carries the group's UUID.
#[derive(Debug)]
pub struct Filesystem {
    /// The enumerated device, with its current mount point.
    pub blockdevice: BlockDevice,
    /// `/dev/<name>`.
    pub device_path: String,
    /// Where the filesystem is mounted when this library mounts it.
    pub mountpath: String,
    /// The free space that the enumeration reported, in bytes.
    pub fsavail: Option<u64>,
    /// The integrity-check command, before the device path is added.
    pub fsck_command: String,
    pub skip_fsck: bool,
}

/// `/dev/` followed by a kernel device name.
pub open spec fn dev_path(name: Seq<char>) -> Seq<char> {
    seq!['/', 'd', 'e', 'v', '/'] + name
}

/// The mount path used when the plan names none.
pub open spec fn default_mountpath() -> Seq<char> {
    seq!['/', 'm', 'n', 't']
}

/// The integrity check used when a group names none.
pub open spec fn default_fsck_command() -> Seq<char> {
    seq!['f', 's', 'c', 'k', ' ', '-', 'n']
}

/// What a filesystem holds when it is built from its device and its group.
pub open spec fn filesystem_from(
    d: BlockDevice,
    cfg: BackupConfig,
    mountpath: Option<String>,
    fs: Filesystem,
) -> bool {
    &&& fs.blockdevice == d
    &&& fs.device_path@ == dev_path(d.name@)
    &&& fs.mountpath@ == match mountpath {
        Some(m) => m@,
        None => default_mountpath(),
    }
    &&& fs.fsavail == opt_bytes_of(d.fsavail)
    &&& fs.fsck_command@ == match cfg.fsck_command {
        Some(c) => c@,
        None => default_fsck_command(),
    }
    &&& fs.skip_fsck == (cfg.skip_fsck == Some(true))
}

/// Two filesystems that differ at most in the device's mount point.
pub open spec fn same_but_mountpoint(a: Filesystem, b: Filesystem) -> bool {
    &&& a.blockdevice.name == b.blockdevice.name
    &&& a.blockdevice.model == b.blockdevice.model
    &&& a.blockdevice.serial == b.blockdevice.serial
    &&& a.blockdevice.uuid == b.blockdevice.uuid
    &&& a.blockdevice.size == b.blockdevice.size
    &&& a.blockdevice.fsavail == b.blockdevice.fsavail
    &&& a.device_path == b.device_path
    &&& a.mountpath == b.mountpath
    &&& a.fsavail == b.fsavail
    &&& a.fsck_command == b.fsck_command
    &&& a.skip_fsck == b.skip_fsck
}

/// `/dev/<name>` for a device.
pub fn device_path_of(name: &String) -> (r: String)
    ensures
        r@ == dev_path(name@),
{
    let prefix = "/dev/";
    proof {
        reveal_strlit("/dev/");
    }
    String::from_str(prefix).concat(name.as_str())
}

/// Relies on `str::split` with a space as the separator: the pieces between
/// spaces, in order, empty ones included.
pub uninterp spec fn split_on_spaces(s: Seq<char>) -> Seq<Seq<char>>;

/// Relies on `str::split`, collected into owned strings.
#[verifier::external_body]
fn split_spaces(s: &str) -> (r: Vec<String>)
    ensures
        r@.map_values(|p: String| p@) == split_on_spaces(s@),
{
    s.split(' ').map(|p| p.to_string()).collect()
}

impl Filesystem {
    /// Binds a group to its destination filesystem: `Ok(None)` when no
    /// enumerated filesystem carries the group's UUID, the filesystem when
    /// exactly one does, an ambiguity error when several do.
    pub fn new(
        backup_config: &BackupConfig,
        available_filesystems: &[BlockDevice],
        mountpath: Option<String>,
    ) -> (r: Result<Option<Filesystem>, BackupError>)
        ensures
            ({
                let m = matching(available_filesystems@, IdKind::Uuid, backup_config.uuid@);
                &&& (m.len() == 0 ==> r == Ok::<Option<Filesystem>, BackupError>(None))
                &&& (m.len() == 1 ==> (r matches Ok(Some(fs)) && filesystem_from(
                    m[0],
                    *backup_config,
                    mountpath,
                    fs,
                )))
                &&& (m.len() > 1 ==> (r matches Err(BackupError::AmbiguousUuid(u))
                    && u@ == backup_config.uuid@))
            }),
    {
        let filtered = match Self::validate_uuid_uniq(
            backup_config.uuid.as_str(),
            available_filesystems,
        ) {
            Ok(v) => v,
            Err(e) => {
                return Err(e);
            },
        };
        match Self::validate_present_uuid(filtered) {
            Some(blockdevice) => {
                let device_path = device_path_of(&blockdevice.name);
                let mount_at = match mountpath {
                    Some(m) => m,
                    None => {
                        let d = "/mnt";
                        proof {
                            reveal_strlit("/mnt");
                        }
                        String::from_str(d)
                    },
                };
                let fsavail = parse_opt_bytes(&blockdevice.fsavail);
                let fsck_command = match &backup_config.fsck_command {
                    Some(c) => c.clone(),
                    None => {
                        let d = "fsck -n";
                        proof {
                            reveal_strlit("fsck -n");
                        }
                        String::from_str(d)
                    },
                };
                let skip_fsck = match backup_config.skip_fsck {
                    Some(b) => b,
                    None => false,
                };
                let fs = Filesystem {
                    blockdevice,
                    device_path,
                    mountpath: mount_at,
                    fsavail,
                    fsck_command,
                    skip_fsck,
                };
                let ghost m = matching(available_filesystems@, IdKind::Uuid, backup_config.uuid@);
                assert(fs.blockdevice == m[0]);
                assert(fs.device_path@ == dev_path(m[0].name@));
                assert(fs.fsavail == opt_bytes_of(m[0].fsavail));
                assert(fs.skip_fsck == (backup_config.skip_fsck == Some(true)));
                assert(fs.mountpath@ == match mountpath {
                    Some(m) => m@,
                    None => default_mountpath(),
                });
                assert(fs.fsck_command@ == match backup_config.fsck_command {
                    Some(c) => c@,
                    None => default_fsck_command(),
                });
                assert(filesystem_from(m[0], *backup_config, mountpath, fs));
                Ok(
                    Some(
                        fs,
                    ),
                )
            },
            None => Ok(None),
        }
    }

    /// The single device of a filtered enumeration, if it holds exactly one.
    pub fn validate_present_uuid(uuid_filtered_lsblk: Vec<BlockDevice>) -> (r: Option<BlockDevice>)
        ensures
            uuid_filtered_lsblk@.len() == 1 ==> r == Some(uuid_filtered_lsblk@[0]),
            uuid_filtered_lsblk@.len() != 1 ==> r is None,
    {
        let mut v = uuid_filtered_lsblk;
        if v.len() == 1 {
            Some(v.remove(0))
        } else {
            None
        }
    }

    /// The enumerated filesystems that carry `uuid`, or an ambiguity error
    /// when there are two or more.
    pub fn validate_uuid_uniq(uuid: &str, available_filesystems: &[BlockDevice]) -> (r: Result<
        Vec<BlockDevice>,
        BackupError,
    >)
        ensures
            ({
                let m = matching(available_filesystems@, IdKind::Uuid, uuid@);
                &&& (m.len() <= 1 ==> (r matches Ok(v) && v@ == m))
                &&& (m.len() > 1 ==> (r matches Err(BackupError::AmbiguousUuid(u)) && u@ == uuid@))
            }),
    {
        let filtered = find_matches(available_filesystems, IdKind::Uuid, uuid);
        if filtered.len() <= 1 {
            Ok(filtered)
        } else {
            Err(BackupError::AmbiguousUuid(String::from_str(uuid)))
        }
    }

    /// Whether the filesystem is mounted.
    pub fn is_mounted(&self) -> (r: bool)
        ensures
            r == self.blockdevice.mountpoint is Some,
    {
        self.blockdevice.mountpoint.is_some()
    }

    /// The command that mounts the filesystem at its mount path.
    pub fn mount_command(&self) -> (r: Vec<String>)
        ensures
            r@.len() == 3,
            r@[0]@ == seq!['m', 'o', 'u', 'n', 't'],
            r@[1]@ == self.device_path@,
            r@[2]@ == self.mountpath@,
    {
        let cmd = "mount";
        proof {
            reveal_strlit("mount");
        }
        vec![String::from_str(cmd), self.device_path.clone(), self.mountpath.clone()]
    }

    /// Records the outcome of the mount command: on success the filesystem
    /// is mounted at its mount path; on failure nothing changes.
    pub fn mount(&mut self, outcome: Result<(), String>) -> (r: Result<(), BackupError>)
        ensures
            same_but_mountpoint(*old(self), *final(self)),
            match outcome {
                Ok(()) => r is Ok && final(self).blockdevice.mountpoint == Some(old(self).mountpath),
                Err(e) => r == Err::<(), BackupError>(BackupError::CommandFailed(e)) && *final(self)
                    == *old(self),
            },
    {
        match outcome {
            Ok(()) => {
                self.blockdevice.mountpoint = Some(self.mountpath.clone());
                Ok(())
            },
            Err(e) => Err(BackupError::CommandFailed(e)),
        }
    }

    /// Where the filesystem is mounted, which unmounting acts on; an error
    /// naming its mount path when it is not mounted.
    pub fn unmount_target(&self) -> (r: Result<String, BackupError>)
        ensures
            match self.blockdevice.mountpoint {
                Some(p) => r == Ok::<String, BackupError>(p),
                None => r == Err::<String, BackupError>(BackupError::NotMounted(self.mountpath)),
            },
    {
        match &self.blockdevice.mountpoint {
            Some(p) => Ok(p.clone()),
            None => Err(BackupError::NotMounted(self.mountpath.clone())),
        }
    }

    /// Records the outcome of flushing and unmounting: on success the
    /// filesystem is no longer mounted; on failure nothing changes.
    pub fn unmount(&mut self, outcome: Result<(), String>) -> (r: Result<(), BackupError>)
        ensures
            same_but_mountpoint(*old(self), *final(self)),
            match outcome {
                Ok(()) => r is Ok && final(self).blockdevice.mountpoint is None,
                Err(e) => r == Err::<(), BackupError>(BackupError::CommandFailed(e)) && *final(self)
                    == *old(self),
            },
    {
        match outcome {
            Ok(()) => {
                self.blockdevice.mountpoint = None;
                Ok(())
            },
            Err(e) => Err(BackupError::CommandFailed(e)),
        }
    }

    /// The integrity-check command: the configured command split at spaces,
    /// followed by the device path.
    pub fn fsck_command_parts(&self) -> (r: Vec<String>)
        ensures
            r@.map_values(|p: String| p@) == split_on_spaces(self.fsck_command@).push(
                self.device_path@,
            ),
    {
        let mut parts = split_spaces(self.fsck_command.as_str());
        let ghost before = parts@;
        parts.push(self.device_path.clone());
        assert(parts@.map_values(|p: String| p@) =~= before.map_values(|p: String| p@).push(
            self.device_path@,
        ));
        parts
    }

    /// Decides the integrity check: passed when it is skipped or when the
    /// check command succeeded, failed otherwise.
    pub fn validate_fsck_or_skip(&self, outcome: Result<(), String>) -> (r: Result<(), BackupError>)
        ensures
            r is Ok <==> (self.skip_fsck || outcome is Ok),
            r is Err ==> r == Err::<(), BackupError>(BackupError::FsckFailed),
    {
        if self.skip_fsck {
            Ok(())
        } else {
            match outcome {
                Ok(()) => Ok(()),
                Err(_) => Err(BackupError::FsckFailed),
            }
        }
    }

    /// How many files of a listing of the destination directory carry the
    /// suffix of a device's backups; none when the listing failed.
    pub fn present_number_of_copies(
        &self,
        suffix_file_name_pattern: &str,
        listing: &Result<Vec<BackupFile>, String>,
    ) -> (r: usize)
        ensures
            r == listing_count(*listing, suffix_file_name_pattern@),
    {
        match listing {
            Ok(v) => count_backups(v, suffix_file_name_pattern),
            Err(_) => 0,
        }
    }

    /// The free space of this filesystem in a fresh enumeration: that of the
    /// first entry carrying its UUID, `None` when none does or when the
    /// figure is missing or unreadable.
    pub fn available_space(&self, fresh: &[BlockDevice]) -> (r: Option<u64>)
        ensures
            match self.blockdevice.uuid {
                Some(u) => {
                    let m = matching(fresh@, IdKind::Uuid, u@);
                    r == if m.len() > 0 {
                        opt_bytes_of(m[0].fsavail)
                    } else {
                        None
                    }
                },
                None => r is None,
            },
    {
        match &self.blockdevice.uuid {
            Some(u) => {
                let m = find_matches(fresh, IdKind::Uuid, u.as_str());
                if m.len() > 0 {
                    parse_opt_bytes(&m[0].fsavail)
                } else {
                    None
                }
            },
            None => None,
        }
    }
}

} // verus!
