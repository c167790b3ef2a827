use vstd::prelude::*;

use crate::backup::BackupArgs;
use crate::block_device::{copy_opt, matching, BlockDevice, IdKind, Lsblk};
use crate::config::{BackupConfig, BackupDevice, Config};
use crate::device::{device_from, Device};
use crate::error::BackupError;
use crate::filesystem::{filesystem_from, same_but_mountpoint, Filesystem};

verus! {

/// Where a group's lifecycle stands: the stage names what it waits for.
#[derive(Debug, Clone, Copy, PartialEq, Eq, Structural)]
pub enum GroupStage {
    Start,
    Unmounting,
    Checking,
    Mounting,
    /// The device at this index is being backed up.
    Device(usize),
    FinalUnmount,
    Done,
}

/// What the outside world reports to a group.
#[derive(Debug)]
pub enum GroupEvent {
    /// The group starts.
    Begin,
    /// The outcome of the last action.
    Outcome(Result<(), String>),
}

/// What a group asks the outside world to do next.
#[derive(Debug)]
pub enum GroupAction {
    /// Flush pending writes, then unmount what is mounted here.
    Unmount(String),
    /// Run the integrity check (`Filesystem::fsck_command_parts`).
    Check,
    /// Mount the filesystem (`Filesystem::mount_command`).
    Mount,
    /// Run the backup attempt of the device at this index.
    BackUpDevice(usize),
    /// The group is over, with this outcome.
    Finish(Result<(), BackupError>),
}

/// The devices of a group that resolve to exactly one enumerated device,
/// as indices into the configured list, in order.
pub open spec fn present_indices(specs: Seq<BackupDevice>, avail: Seq<BlockDevice>) -> Seq<int>
    decreases specs.len(),
{
    if specs.len() == 0 {
        Seq::empty()
    } else {
        let rest = present_indices(specs.drop_last(), avail);
        if matching(avail, IdKind::Serial, specs.last().serial@).len() == 1 {
            rest.push(specs.len() - 1)
        } else {
            rest
        }
    }
}

/// The configured device resolves to more than one enumerated device.
pub open spec fn ambiguous(spec: BackupDevice, avail: Seq<BlockDevice>) -> bool {
    matching(avail, IdKind::Serial, spec.serial@).len() > 1
}

/// The default destination path: the root of the destination filesystem.
pub open spec fn default_destination() -> Seq<char> {
    seq!['/', '.']
}

/// The devices of a group, resolved: those that are present, each built
/// from its single enumerated match.
pub open spec fn devices_resolved(
    specs: Seq<BackupDevice>,
    avail: Seq<BlockDevice>,
    dest: Seq<char>,
    out: Seq<Device>,
) -> bool {
    let idx = present_indices(specs, avail);
    &&& out.len() == idx.len()
    &&& forall|k: int|
        0 <= k < out.len() ==> {
            let s = specs[idx[k]];
            &&& (#[trigger] out[k]).destination_path@ == dest
            &&& device_from(
                matching(avail, IdKind::Serial, s.serial@)[0],
                s,
                out[k].destination_path,
                out[k],
            )
        }
}

/// A group bound to its destination filesystem and its present devices.
#[derive(Debug)]
pub struct Backups {
    /// The destination filesystem.
    pub dst_filesystem: Filesystem,
    /// The devices to back up, in configured order.
    pub backup_devices: Vec<Device>,
    pub backup_args: BackupArgs,
    /// Leave mounting and unmounting alone.
    pub skip_mount: bool,
    /// What the lifecycle waits for.
    pub stage: GroupStage,
}

/// The end of a group.
pub open spec fn group_finish(g: Backups, r: Result<(), BackupError>) -> (GroupStage, Option<String>, GroupAction) {
    (GroupStage::Done, g.dst_filesystem.blockdevice.mountpoint, GroupAction::Finish(r))
}

/// After all devices: unmount unless mounting is left alone.
pub open spec fn group_end(g: Backups, mp: Option<String>) -> (GroupStage, Option<String>, GroupAction) {
    if g.skip_mount {
        (GroupStage::Done, mp, GroupAction::Finish(Ok(())))
    } else {
        match mp {
            Some(p) => (GroupStage::FinalUnmount, mp, GroupAction::Unmount(p)),
            None => (GroupStage::Done, mp, GroupAction::Finish(
                Err(BackupError::NotMounted(g.dst_filesystem.mountpath)),
            )),
        }
    }
}

/// The attempt of device `i`, or the end when none is left.
pub open spec fn group_device(g: Backups, i: int, mp: Option<String>) -> (GroupStage, Option<String>, GroupAction) {
    if 0 <= i < g.backup_devices@.len() {
        (GroupStage::Device(i as usize), mp, GroupAction::BackUpDevice(i as usize))
    } else {
        group_end(g, mp)
    }
}

/// After a passed (or skipped) check: mount unless mounting is left alone.
pub open spec fn group_after_check(g: Backups, mp: Option<String>) -> (GroupStage, Option<String>, GroupAction) {
    if g.skip_mount {
        group_device(g, 0, mp)
    } else {
        (GroupStage::Mounting, mp, GroupAction::Mount)
    }
}

/// After the first unmount: check unless the check is skipped.
pub open spec fn group_after_unmount(g: Backups, mp: Option<String>) -> (GroupStage, Option<String>, GroupAction) {
    if g.dst_filesystem.skip_fsck {
        group_after_check(g, mp)
    } else {
        (GroupStage::Checking, mp, GroupAction::Check)
    }
}

/// The lifecycle's transition: from the group and an event, the next stage,
/// the filesystem's mount point afterwards, and the action to perform.
/// Unmount first when mounted (unless mounting is left alone), check, mount,
/// back up each device whatever the outcome of the others, unmount.
pub open spec fn group_next(g: Backups, e: GroupEvent) -> (GroupStage, Option<String>, GroupAction) {
    let mp = g.dst_filesystem.blockdevice.mountpoint;
    match (g.stage, e) {
        (GroupStage::Start, GroupEvent::Begin) => if !g.skip_mount && mp is Some {
            (GroupStage::Unmounting, mp, GroupAction::Unmount(mp->0))
        } else {
            group_after_unmount(g, mp)
        },
        (GroupStage::Unmounting, GroupEvent::Outcome(o)) => match o {
            Ok(()) => group_after_unmount(g, None),
            Err(e) => group_finish(g, Err(BackupError::CommandFailed(e))),
        },
        (GroupStage::Checking, GroupEvent::Outcome(o)) => if o is Ok || g.dst_filesystem.skip_fsck {
            group_after_check(g, mp)
        } else {
            group_finish(g, Err(BackupError::FsckFailed))
        },
        (GroupStage::Mounting, GroupEvent::Outcome(o)) => match o {
            Ok(()) => group_device(g, 0, Some(g.dst_filesystem.mountpath)),
            Err(e) => group_finish(g, Err(BackupError::CommandFailed(e))),
        },
        (GroupStage::Device(i), GroupEvent::Outcome(_)) => group_device(g, i + 1, mp),
        (GroupStage::FinalUnmount, GroupEvent::Outcome(o)) => match o {
            Ok(()) => (GroupStage::Done, None, GroupAction::Finish(Ok(()))),
            Err(e) => group_finish(g, Err(BackupError::CommandFailed(e))),
        },
        _ => group_finish(g, Err(BackupError::OutOfOrder)),
    }
}

impl Backups {
    /// Binds a group: `Ok(None)` when its destination filesystem is not
    /// present; an ambiguity error when its UUID, or the serial of one of its
    /// devices, matches several enumerated devices; else the group with the
    /// devices that are present.
    pub fn new(
        backup_config: &BackupConfig,
        lsblk: &Lsblk,
        backup_args: &BackupArgs,
        config: &Config,
    ) -> (r: Result<Option<Backups>, BackupError>)
        ensures
            ({
                let fsm = matching(lsblk.available_filesystems@, IdKind::Uuid, backup_config.uuid@);
                let specs = backup_config.backup_devices@;
                let avail = lsblk.available_devices@;
                let dest = match backup_config.destination_path {
                    Some(d) => d@,
                    None => default_destination(),
                };
                &&& (fsm.len() == 0 ==> r == Ok::<Option<Backups>, BackupError>(None))
                &&& (fsm.len() > 1 ==> (r matches Err(BackupError::AmbiguousUuid(u)) && u@
                    == backup_config.uuid@))
                &&& (fsm.len() == 1 ==> match r {
                    Ok(Some(g)) => {
                        &&& forall|j: int| 0 <= j < specs.len() ==> !ambiguous(#[trigger] specs[j], avail)
                        &&& filesystem_from(fsm[0], *backup_config, config.mountpath, g.dst_filesystem)
                        &&& devices_resolved(specs, avail, dest, g.backup_devices@)
                        &&& g.backup_args == *backup_args
                        &&& g.skip_mount == (backup_config.skip_mount == Some(true))
                        &&& g.stage == GroupStage::Start
                    },
                    Err(BackupError::AmbiguousSerial(s)) => exists|j: int|
                        0 <= j < specs.len() && ambiguous(specs[j], avail) && s@ == specs[j].serial@
                            && forall|i: int| 0 <= i < j ==> !ambiguous(#[trigger] specs[i], avail),
                    _ => false,
                })
            }),
    {
        let dst = match Filesystem::new(
            backup_config,
            lsblk.available_filesystems.as_slice(),
            copy_opt(&config.mountpath),
        ) {
            Ok(f) => f,
            Err(e) => {
                return Err(e);
            },
        };
        let dst_filesystem = match dst {
            Some(f) => f,
            None => {
                return Ok(None);
            },
        };
        let dest = match &backup_config.destination_path {
            Some(d) => d.clone(),
            None => {
                let d = "/.";
                proof {
                    reveal_strlit("/.");
                }
                String::from_str(d)
            },
        };
        let ghost specs = backup_config.backup_devices@;
        let ghost avail = lsblk.available_devices@;
        let mut backup_devices: Vec<Device> = Vec::new();
        let mut i: usize = 0;
        while i < backup_config.backup_devices.len()
            invariant
                matching(lsblk.available_filesystems@, IdKind::Uuid, backup_config.uuid@).len() == 1,
                filesystem_from(
                    matching(lsblk.available_filesystems@, IdKind::Uuid, backup_config.uuid@)[0],
                    *backup_config,
                    config.mountpath,
                    dst_filesystem,
                ),
                dest@ == match backup_config.destination_path {
                    Some(d) => d@,
                    None => default_destination(),
                },
                specs == backup_config.backup_devices@,
                avail == lsblk.available_devices@,
                i <= specs.len(),
                forall|j: int| 0 <= j < i ==> !ambiguous(#[trigger] specs[j], avail),
                devices_resolved(specs.take(i as int), avail, dest@, backup_devices@),
            decreases specs.len() - i,
        {
            let spec = &backup_config.backup_devices[i];
            assert(specs.take(i as int + 1).drop_last() =~= specs.take(i as int));
            assert(specs.take(i as int + 1).last() == specs[i as int]);
            match Device::new(spec, lsblk.available_devices.as_slice(), dest.clone()) {
                Err(e) => {
                    assert(ambiguous(specs[i as int], avail));
                    assert(0 <= i < specs.len() && ambiguous(specs[i as int], avail) && e->AmbiguousSerial_0@ == specs[i as int].serial@);
                    return Err(e);
                },
                Ok(None) => {
                    proof {
                        let idx = present_indices(specs.take(i as int + 1), avail);
                        assert(idx == present_indices(specs.take(i as int), avail));
                        assert forall|k: int| 0 <= k < backup_devices@.len() implies specs.take(
                            i as int + 1,
                        )[idx[k]] == specs.take(i as int)[idx[k]] by {
                            lemma_present_indices_bound(specs.take(i as int), avail, k);
                        }
                    }
                },
                Ok(Some(d)) => {
                    backup_devices.push(d);
                    proof {
                        let idx0 = present_indices(specs.take(i as int), avail);
                        let idx = present_indices(specs.take(i as int + 1), avail);
                        assert(idx == idx0.push(i as int));
                        assert forall|k: int| 0 <= k < idx0.len() implies specs.take(
                            i as int + 1,
                        )[idx[k]] == specs.take(i as int)[idx0[k]] by {
                            lemma_present_indices_bound(specs.take(i as int), avail, k);
                        }
                    }
                },
            }
            i = i + 1;
        }
        proof {
            assert(specs.take(specs.len() as int) =~= specs);
        }
        let skip_mount = match backup_config.skip_mount {
            Some(b) => b,
            None => false,
        };
        Ok(
            Some(
                Backups {
                    dst_filesystem,
                    backup_devices,
                    backup_args: *backup_args,
                    skip_mount,
                    stage: GroupStage::Start,
                },
            ),
        )
    }

    fn end(&self) -> (r: (GroupStage, GroupAction))
        ensures
            (r.0, self.dst_filesystem.blockdevice.mountpoint, r.1) == group_end(
                *self,
                self.dst_filesystem.blockdevice.mountpoint,
            ),
    {
        if self.skip_mount {
            (GroupStage::Done, GroupAction::Finish(Ok(())))
        } else {
            match self.dst_filesystem.unmount_target() {
                Ok(p) => (GroupStage::FinalUnmount, GroupAction::Unmount(p)),
                Err(e) => (GroupStage::Done, GroupAction::Finish(Err(e))),
            }
        }
    }

    fn device_or_end(&self, i: usize) -> (r: (GroupStage, GroupAction))
        ensures
            (r.0, self.dst_filesystem.blockdevice.mountpoint, r.1) == group_device(
                *self,
                i as int,
                self.dst_filesystem.blockdevice.mountpoint,
            ),
    {
        if i < self.backup_devices.len() {
            (GroupStage::Device(i), GroupAction::BackUpDevice(i))
        } else {
            self.end()
        }
    }

    fn after_check(&self) -> (r: (GroupStage, GroupAction))
        ensures
            (r.0, self.dst_filesystem.blockdevice.mountpoint, r.1) == group_after_check(
                *self,
                self.dst_filesystem.blockdevice.mountpoint,
            ),
    {
        if self.skip_mount {
            self.device_or_end(0)
        } else {
            (GroupStage::Mounting, GroupAction::Mount)
        }
    }

    fn after_unmount(&self) -> (r: (GroupStage, GroupAction))
        ensures
            (r.0, self.dst_filesystem.blockdevice.mountpoint, r.1) == group_after_unmount(
                *self,
                self.dst_filesystem.blockdevice.mountpoint,
            ),
    {
        if self.dst_filesystem.skip_fsck {
            self.after_check()
        } else {
            (GroupStage::Checking, GroupAction::Check)
        }
    }

    /// Advances the group's lifecycle by one event and returns the action to
    /// perform; the filesystem's mount point follows the mount and unmount
    /// outcomes.
    pub fn run(&mut self, event: GroupEvent) -> (r: GroupAction)
        ensures
            (final(self).stage, final(self).dst_filesystem.blockdevice.mountpoint, r) == group_next(
                *old(self),
                event,
            ),
            same_but_mountpoint(old(self).dst_filesystem, final(self).dst_filesystem),
            final(self).backup_devices == old(self).backup_devices,
            final(self).backup_args == old(self).backup_args,
            final(self).skip_mount == old(self).skip_mount,
    {
        let fail = GroupAction::Finish(Err(BackupError::OutOfOrder));
        let (stage, action) = match self.stage {
            GroupStage::Start => match event {
                GroupEvent::Begin => if !self.skip_mount && self.dst_filesystem.is_mounted() {
                    match self.dst_filesystem.unmount_target() {
                        Ok(p) => (GroupStage::Unmounting, GroupAction::Unmount(p)),
                        Err(e) => (GroupStage::Done, GroupAction::Finish(Err(e))),
                    }
                } else {
                    self.after_unmount()
                },
                _ => (GroupStage::Done, fail),
            },
            GroupStage::Unmounting => match event {
                GroupEvent::Outcome(o) => match self.dst_filesystem.unmount(o) {
                    Ok(()) => self.after_unmount(),
                    Err(e) => (GroupStage::Done, GroupAction::Finish(Err(e))),
                },
                _ => (GroupStage::Done, fail),
            },
            GroupStage::Checking => match event {
                GroupEvent::Outcome(o) => match self.dst_filesystem.validate_fsck_or_skip(o) {
                    Ok(()) => self.after_check(),
                    Err(e) => (GroupStage::Done, GroupAction::Finish(Err(e))),
                },
                _ => (GroupStage::Done, fail),
            },
            GroupStage::Mounting => match event {
                GroupEvent::Outcome(o) => match self.dst_filesystem.mount(o) {
                    Ok(()) => self.device_or_end(0),
                    Err(e) => (GroupStage::Done, GroupAction::Finish(Err(e))),
                },
                _ => (GroupStage::Done, fail),
            },
            GroupStage::Device(i) => match event {
                GroupEvent::Outcome(_) => if i < self.backup_devices.len() {
                    self.device_or_end(i + 1)
                } else {
                    self.end()
                },
                _ => (GroupStage::Done, fail),
            },
            GroupStage::FinalUnmount => match event {
                GroupEvent::Outcome(o) => match self.dst_filesystem.unmount(o) {
                    Ok(()) => (GroupStage::Done, GroupAction::Finish(Ok(()))),
                    Err(e) => (GroupStage::Done, GroupAction::Finish(Err(e))),
                },
                _ => (GroupStage::Done, fail),
            },
            GroupStage::Done => (GroupStage::Done, fail),
        };
        self.stage = stage;
        action
    }
}

proof fn lemma_present_indices_bound(specs: Seq<BackupDevice>, avail: Seq<BlockDevice>, k: int)
    requires
        0 <= k < present_indices(specs, avail).len(),
    ensures
        0 <= present_indices(specs, avail)[k] < specs.len(),
    decreases specs.len(),
{
    let rest = present_indices(specs.drop_last(), avail);
    if k < rest.len() {
        lemma_present_indices_bound(specs.drop_last(), avail, k);
    }
}

} // verus!
