use vstd::prelude::*;

use crate::block_device::BlockDevice;
use crate::device::Device;
use crate::error::BackupError;
use crate::filesystem::Filesystem;
use crate::naming::{dated_name, file_name, rooted_join, rooted_path, suffix_file_name_pattern, suffix_of, today};
use crate::paths::{join_path, joined};

verus! {

/// The options of a run.
#[derive(Debug, Clone, Copy, PartialEq, Eq, Structural)]
pub struct BackupArgs {
    /// Perform every check, but only announce deletions, copies and
    /// ownership changes.
    pub dry: bool,
}

/// A file found in the destination directory.
#[derive(Debug, Clone)]
pub struct BackupFile {
    pub name: String,
    /// Creation time in nanoseconds since the epoch, where it could be read.
    pub created: Option<u64>,
}

/// Where a device's backup attempt stands: the stage names what the engine
/// waits for.
#[derive(Debug, Clone, Copy, PartialEq, Eq, Structural)]
pub enum DeviceStage {
    Start,
    Presence,
    Listing,
    Removal,
    Space,
    Warned,
    Copying,
    Owning,
    Done,
}

/// What the outside world reports to the engine.
#[derive(Debug)]
pub enum DeviceEvent {
    /// The attempt starts.
    Begin,
    /// Whether today's backup file exists.
    Presence(bool),
    /// The files of the destination directory, or why they could not be read.
    Listing(Result<Vec<BackupFile>, String>),
    /// A fresh enumeration of filesystems, or why it failed.
    Space(Result<Vec<BlockDevice>, String>),
    /// The outcome of the last action; announcements and warnings are
    /// acknowledged with `Ok`.
    Outcome(Result<(), String>),
}

/// What the engine asks the outside world to do next.
#[derive(Debug)]
pub enum DeviceAction {
    /// Report whether this file exists.
    CheckPresence(String),
    /// List this directory.
    ListDirectory(String),
    /// Delete this file.
    Remove(String),
    /// Announce, without acting, that this file would be deleted.
    NoteRemoval(String),
    /// Enumerate the filesystems again, for their free space.
    MeasureSpace,
    /// Warn that free space could not be checked.
    WarnSpaceUnknown,
    /// Copy the device (first) into the file (second).
    Copy(String, String),
    /// Announce, without acting, the copy that would run.
    NoteCopy(String, String),
    /// Give this file to the invoking user and group.
    ChangeOwner(String),
    /// The attempt is over, with this outcome.
    Finish(Result<(), BackupError>),
}

/// A `DeviceAction` seen through the text of its paths.
pub enum Act {
    CheckPresence(Seq<char>),
    ListDirectory(Seq<char>),
    Remove(Seq<char>),
    NoteRemoval(Seq<char>),
    MeasureSpace,
    WarnSpaceUnknown,
    Copy(Seq<char>, Seq<char>),
    NoteCopy(Seq<char>, Seq<char>),
    ChangeOwner(Seq<char>),
    Finish(Result<(), BackupError>),
}

impl View for DeviceAction {
    type V = Act;

    open spec fn view(&self) -> Act {
        match self {
            DeviceAction::CheckPresence(p) => Act::CheckPresence(p@),
            DeviceAction::ListDirectory(p) => Act::ListDirectory(p@),
            DeviceAction::Remove(p) => Act::Remove(p@),
            DeviceAction::NoteRemoval(p) => Act::NoteRemoval(p@),
            DeviceAction::MeasureSpace => Act::MeasureSpace,
            DeviceAction::WarnSpaceUnknown => Act::WarnSpaceUnknown,
            DeviceAction::Copy(s, t) => Act::Copy(s@, t@),
            DeviceAction::NoteCopy(s, t) => Act::NoteCopy(s@, t@),
            DeviceAction::ChangeOwner(p) => Act::ChangeOwner(p@),
            DeviceAction::Finish(r) => Act::Finish(*r),
        }
    }
}

/// `pat` occurs in `s`.
pub open spec fn contains(s: Seq<char>, pat: Seq<char>) -> bool {
    exists|i: int| 0 <= i <= s.len() - pat.len() && #[trigger] s.subrange(i, i + pat.len()) == pat
}

/// Whether `pat` occurs in `s`.
pub fn contains_text(s: &str, pat: &str) -> (r: bool)
    ensures
        r == contains(s@, pat@),
{
    let n = s.unicode_len();
    let m = pat.unicode_len();
    if m > n {
        return false;
    }
    let target = String::from_str(pat);
    let mut i: usize = 0;
    loop
        invariant
            n == s@.len(),
            m == pat@.len(),
            m <= n,
            i <= n - m,
            target@ == pat@,
            forall|k: int| 0 <= k < i ==> #[trigger] s@.subrange(k, k + m) != pat@,
        decreases n - m - i,
    {
        let piece = String::from_str(s.substring_char(i, i + m));
        if piece == target {
            return true;
        }
        if i == n - m {
            return false;
        }
        i = i + 1;
    }
}

/// How many files of a listing name a backup with this suffix.
pub open spec fn count_matching(files: Seq<BackupFile>, suffix: Seq<char>) -> nat
    decreases files.len(),
{
    if files.len() == 0 {
        0
    } else {
        count_matching(files.drop_last(), suffix) + if contains(files.last().name@, suffix) {
            1nat
        } else {
            0nat
        }
    }
}

/// The count of a listing that could not be read is zero.
pub open spec fn listing_count(listing: Result<Vec<BackupFile>, String>, suffix: Seq<char>) -> nat {
    match listing {
        Ok(v) => count_matching(v@, suffix),
        Err(_) => 0,
    }
}

/// The creation time by which files are ordered: the epoch when unknown.
pub open spec fn age_key(f: BackupFile) -> u64 {
    match f.created {
        Some(t) => t,
        None => 0,
    }
}

/// File `k` is the oldest backup with this suffix, the first in listing
/// order among equally old ones.
pub open spec fn is_oldest(files: Seq<BackupFile>, suffix: Seq<char>, k: int) -> bool {
    &&& 0 <= k < files.len()
    &&& contains(files[k].name@, suffix)
    &&& forall|j: int|
        0 <= j < files.len() && contains(#[trigger] files[j].name@, suffix) ==> age_key(files[k])
            <= age_key(files[j])
    &&& forall|j: int|
        0 <= j < k && contains(#[trigger] files[j].name@, suffix) ==> age_key(files[k]) < age_key(
            files[j],
        )
}

/// No file of the listing carries the suffix.
pub open spec fn none_matching(files: Seq<BackupFile>, suffix: Seq<char>) -> bool {
    forall|j: int| 0 <= j < files.len() ==> !contains(#[trigger] files[j].name@, suffix)
}

/// The index of the oldest backup with this suffix, the first among equally
/// old ones; `None` when no file carries the suffix.
pub fn oldest_backup(files: &Vec<BackupFile>, suffix: &str) -> (r: Option<usize>)
    ensures
        match r {
            Some(k) => is_oldest(files@, suffix@, k as int),
            None => none_matching(files@, suffix@),
        },
{
    let mut best: Option<usize> = None;
    let mut best_key: u64 = 0;
    let mut i: usize = 0;
    while i < files.len()
        invariant
            i <= files@.len(),
            match best {
                Some(k) => {
                    &&& k < i
                    &&& best_key == age_key(files@[k as int])
                    &&& contains(files@[k as int].name@, suffix@)
                    &&& forall|j: int|
                        0 <= j < i && contains(#[trigger] files@[j].name@, suffix@) ==> best_key
                            <= age_key(files@[j])
                    &&& forall|j: int|
                        0 <= j < k && contains(#[trigger] files@[j].name@, suffix@) ==> best_key
                            < age_key(files@[j])
                },
                None => forall|j: int| 0 <= j < i ==> !contains(#[trigger] files@[j].name@, suffix@),
            },
        decreases files@.len() - i,
    {
        let f = &files[i];
        if contains_text(f.name.as_str(), suffix) {
            let key = match f.created {
                Some(t) => t,
                None => 0,
            };
            match best {
                None => {
                    best = Some(i);
                    best_key = key;
                },
                Some(_) => {
                    if key < best_key {
                        best = Some(i);
                        best_key = key;
                    }
                },
            }
        }
        i = i + 1;
    }
    best
}

/// How a space check ends.
#[derive(Debug, Clone, Copy, PartialEq, Eq, Structural)]
pub enum SpaceVerdict {
    /// More space is free than the device needs.
    Enough,
    /// No more space is free than the device needs.
    Insufficient,
    /// A figure is missing: the check cannot be made.
    Unknown,
}

/// The verdict on free space against needed space.
pub open spec fn space_verdict(available: Option<u64>, needed: Option<u64>) -> SpaceVerdict {
    match (available, needed) {
        (Some(a), Some(n)) => if a > n {
            SpaceVerdict::Enough
        } else {
            SpaceVerdict::Insufficient
        },
        _ => SpaceVerdict::Unknown,
    }
}

/// Compares free space with needed space: insufficient when both are known
/// and the free space is not larger, unknown when either is missing.
pub fn check_space(available: Option<u64>, needed: Option<u64>) -> (r: SpaceVerdict)
    ensures
        r == space_verdict(available, needed),
{
    match (available, needed) {
        (Some(a), Some(n)) => if a > n {
            SpaceVerdict::Enough
        } else {
            SpaceVerdict::Insufficient
        },
        _ => SpaceVerdict::Unknown,
    }
}

/// One device's backup attempt onto a destination filesystem.
pub struct Backup<'a> {
    /// The destination filesystem.
    pub dst_filesystem: &'a Filesystem,
    /// The device to back up.
    pub backup_device: &'a Device,
    pub backup_args: &'a BackupArgs,
    /// Today's date, which starts the file name.
    pub date: String,
    /// What the attempt waits for.
    pub stage: DeviceStage,
}

/// The suffix of the device's backup file names.
pub open spec fn suffix_spec(b: Backup) -> Seq<char> {
    suffix_of(b.backup_device.blockdevice.model, b.backup_device.blockdevice.serial)
}

/// Today's backup file name.
pub open spec fn name_spec(b: Backup) -> Seq<char> {
    dated_name(b.date@, b.backup_device.name@, suffix_spec(b))
}

/// The filesystem is mounted.
pub open spec fn mounted(b: Backup) -> bool {
    b.dst_filesystem.blockdevice.mountpoint is Some
}

/// The destination directory: the device's destination path under the
/// mount point.
pub open spec fn dir_spec(b: Backup) -> Seq<char> {
    rooted_join(b.dst_filesystem.blockdevice.mountpoint->0@, b.backup_device.destination_path@)
}

/// The path of today's backup file.
pub open spec fn file_spec(b: Backup) -> Seq<char> {
    rooted_join(dir_spec(b), name_spec(b))
}

/// The copy that the attempt makes, or announces in a dry run.
pub open spec fn copy_step(b: Backup) -> (DeviceStage, Act) {
    if b.backup_args.dry {
        (DeviceStage::Copying, Act::NoteCopy(b.backup_device.device_path@, file_spec(b)))
    } else {
        (DeviceStage::Copying, Act::Copy(b.backup_device.device_path@, file_spec(b)))
    }
}

/// The end of an attempt.
pub open spec fn finish(r: Result<(), BackupError>) -> (DeviceStage, Act) {
    (DeviceStage::Done, Act::Finish(r))
}

/// The step after a listing was read.
pub open spec fn after_listing(b: Backup, listing: Result<Vec<BackupFile>, String>) -> (DeviceStage, Act) {
    if listing_count(listing, suffix_spec(b)) >= b.backup_device.copies {
        match listing {
            Ok(v) => if exists|k: int| is_oldest(v@, suffix_spec(b), k) {
                let k = choose|k: int| is_oldest(v@, suffix_spec(b), k);
                let p = joined(dir_spec(b), v@[k].name@);
                if b.backup_args.dry {
                    (DeviceStage::Removal, Act::NoteRemoval(p))
                } else {
                    (DeviceStage::Removal, Act::Remove(p))
                }
            } else {
                copy_step(b)
            },
            Err(_) => copy_step(b),
        }
    } else {
        (DeviceStage::Space, Act::MeasureSpace)
    }
}

/// The step after the filesystems were enumerated again.
pub open spec fn after_space(b: Backup, fresh: Result<Vec<BlockDevice>, String>) -> (DeviceStage, Act) {
    match fresh {
        Err(e) => finish(Err(BackupError::CommandFailed(e))),
        Ok(v) => {
            let available = match b.dst_filesystem.blockdevice.uuid {
                Some(u) => {
                    let m = crate::block_device::matching(
                        v@,
                        crate::block_device::IdKind::Uuid,
                        u@,
                    );
                    if m.len() > 0 {
                        crate::block_device::opt_bytes_of(m[0].fsavail)
                    } else {
                        None
                    }
                },
                None => None,
            };
            let needed = crate::block_device::bytes_of(b.backup_device.blockdevice.size@);
            match space_verdict(available, needed) {
                SpaceVerdict::Enough => copy_step(b),
                SpaceVerdict::Insufficient => finish(Err(BackupError::InsufficientSpace)),
                SpaceVerdict::Unknown => (DeviceStage::Warned, Act::WarnSpaceUnknown),
            }
        },
    }
}

/// The engine's transition: from the attempt's stage and an event, the next
/// stage and the action to perform. Presence check, then retention, then
/// free space (only when nothing was evicted), then the copy and the change
/// of owner; an event that the stage does not wait for ends the attempt.
pub open spec fn next(b: Backup, e: DeviceEvent) -> (DeviceStage, Act) {
    if b.stage == DeviceStage::Done {
        finish(Err(BackupError::OutOfOrder))
    } else if !mounted(b) {
        finish(Err(BackupError::NotMounted(b.dst_filesystem.mountpath)))
    } else {
        next_mounted(b, e)
    }
}

/// The transition while the filesystem is mounted.
pub open spec fn next_mounted(b: Backup, e: DeviceEvent) -> (DeviceStage, Act) {
    match (b.stage, e) {
        (DeviceStage::Start, DeviceEvent::Begin) => (DeviceStage::Presence, Act::CheckPresence(
            file_spec(b),
        )),
        (DeviceStage::Presence, DeviceEvent::Presence(present)) => if present {
            finish(Err(BackupError::AlreadyPresent))
        } else {
            (DeviceStage::Listing, Act::ListDirectory(dir_spec(b)))
        },
        (DeviceStage::Listing, DeviceEvent::Listing(l)) => after_listing(b, l),
        (DeviceStage::Removal, DeviceEvent::Outcome(o)) => match o {
            Ok(()) => copy_step(b),
            Err(e) => finish(Err(BackupError::CommandFailed(e))),
        },
        (DeviceStage::Space, DeviceEvent::Space(fresh)) => after_space(b, fresh),
        (DeviceStage::Warned, DeviceEvent::Outcome(_)) => copy_step(b),
        (DeviceStage::Copying, DeviceEvent::Outcome(o)) => match o {
            Ok(()) => if b.backup_args.dry {
                finish(Ok(()))
            } else {
                (DeviceStage::Owning, Act::ChangeOwner(file_spec(b)))
            },
            Err(e) => finish(Err(BackupError::CommandFailed(e))),
        },
        (DeviceStage::Owning, DeviceEvent::Outcome(o)) => match o {
            Ok(()) => finish(Ok(())),
            Err(e) => finish(Err(BackupError::CommandFailed(e))),
        },
        _ => finish(Err(BackupError::OutOfOrder)),
    }
}

impl<'a> Backup<'a> {
    /// Starts a device's backup attempt onto a filesystem, dated today.
    pub fn new(
        dst_filesystem: &'a Filesystem,
        backup_device: &'a Device,
        backup_args: &'a BackupArgs,
    ) -> (r: Backup<'a>)
        ensures
            r.dst_filesystem == dst_filesystem,
            r.backup_device == backup_device,
            r.backup_args == backup_args,
            r.stage == DeviceStage::Start,
    {
        let date = today();
        Self::dated(dst_filesystem, backup_device, backup_args, date)
    }

    /// Starts a device's backup attempt with a given date.
    pub fn dated(
        dst_filesystem: &'a Filesystem,
        backup_device: &'a Device,
        backup_args: &'a BackupArgs,
        date: String,
    ) -> (r: Backup<'a>)
        ensures
            r.dst_filesystem == dst_filesystem,
            r.backup_device == backup_device,
            r.backup_args == backup_args,
            r.date == date,
            r.stage == DeviceStage::Start,
    {
        Backup { dst_filesystem, backup_device, backup_args, date, stage: DeviceStage::Start }
    }

    /// The stable suffix of the device's backup file names.
    pub fn suffix_file_name_pattern(&self) -> (r: String)
        ensures
            r@ == suffix_spec(*self),
    {
        suffix_file_name_pattern(
            &self.backup_device.blockdevice.model,
            &self.backup_device.blockdevice.serial,
        )
    }

    /// Today's backup file name.
    pub fn file_name(&self) -> (r: String)
        ensures
            r@ == name_spec(*self),
    {
        let suffix = self.suffix_file_name_pattern();
        file_name(self.date.as_str(), self.backup_device.name.as_str(), suffix.as_str())
    }

    /// The destination directory under the mount point.
    pub fn backup_dir_path(&self) -> (r: String)
        requires
            mounted(*self),
        ensures
            r@ == dir_spec(*self),
    {
        let mountpoint = match &self.dst_filesystem.blockdevice.mountpoint {
            Some(m) => m,
            None => {
                proof {
                    assert(false);
                }
                &self.dst_filesystem.mountpath
            },
        };
        rooted_path(mountpoint.as_str(), self.backup_device.destination_path.as_str())
    }

    /// The path of today's backup file.
    pub fn backup_file_path(&self) -> (r: String)
        requires
            mounted(*self),
        ensures
            r@ == file_spec(*self),
    {
        let dir = self.backup_dir_path();
        let name = self.file_name();
        rooted_path(dir.as_str(), name.as_str())
    }

    /// Whether the files already present call for an eviction: as many
    /// backups of this device as it may keep, or more.
    pub fn needs_deletion(&self, listing: &Result<Vec<BackupFile>, String>) -> (r: bool)
        ensures
            r == (listing_count(*listing, suffix_spec(*self)) >= self.backup_device.copies),
    {
        let suffix = self.suffix_file_name_pattern();
        let count = self.dst_filesystem.present_number_of_copies(suffix.as_str(), listing);
        count >= self.backup_device.copies
    }

    /// The copy, or its announcement in a dry run.
    fn copy_action(&self) -> (r: (DeviceStage, DeviceAction))
        requires
            mounted(*self),
        ensures
            (r.0, r.1@) == copy_step(*self),
    {
        let target = self.backup_file_path();
        let source = self.backup_device.device_path.clone();
        if self.backup_args.dry {
            (DeviceStage::Copying, DeviceAction::NoteCopy(source, target))
        } else {
            (DeviceStage::Copying, DeviceAction::Copy(source, target))
        }
    }

    /// Decides the retention step from the listing: evict (or announce the
    /// eviction of) the oldest backup when the device has as many as it may
    /// keep; else go on to the space check.
    pub fn delete_oldest_backup_if_needed(&self, listing: &Result<Vec<BackupFile>, String>) -> (r: (
        DeviceStage,
        DeviceAction,
    ))
        requires
            mounted(*self),
        ensures
            (r.0, r.1@) == after_listing(*self, *listing),
    {
        if !self.needs_deletion(listing) {
            return (DeviceStage::Space, DeviceAction::MeasureSpace);
        }
        match listing {
            Ok(v) => {
                let suffix = self.suffix_file_name_pattern();
                match oldest_backup(v, suffix.as_str()) {
                    Some(k) => {
                        let dir = self.backup_dir_path();
                        let path = join_path(dir.as_str(), v[k].name.as_str());
                        proof {
                            let s = suffix_spec(*self);
                            assert(is_oldest(v@, s, k as int));
                            let c = choose|c: int| is_oldest(v@, s, c);
                            lemma_oldest_unique(v@, s, k as int, c);
                        }
                        if self.backup_args.dry {
                            (DeviceStage::Removal, DeviceAction::NoteRemoval(path))
                        } else {
                            (DeviceStage::Removal, DeviceAction::Remove(path))
                        }
                    },
                    None => {
                        proof {
                            let s = suffix_spec(*self);
                            assert(!exists|c: int| is_oldest(v@, s, c)) by {
                                if exists|c: int| is_oldest(v@, s, c) {
                                    let c = choose|c: int| is_oldest(v@, s, c);
                                    assert(contains(v@[c].name@, s));
                                }
                            }
                        }
                        self.copy_action()
                    },
                }
            },
            Err(_) => self.copy_action(),
        }
    }

    /// Decides the space check from a fresh enumeration of filesystems.
    pub fn target_filesystem_has_enough_space(&self, fresh: &Result<Vec<BlockDevice>, String>) -> (r: (
        DeviceStage,
        DeviceAction,
    ))
        requires
            mounted(*self),
        ensures
            (r.0, r.1@) == after_space(*self, *fresh),
    {
        match fresh {
            Err(e) => (DeviceStage::Done, DeviceAction::Finish(Err(BackupError::CommandFailed(e.clone())))),
            Ok(v) => {
                let available = self.dst_filesystem.available_space(v.as_slice());
                let needed = self.backup_device.total_size();
                match check_space(available, needed) {
                    SpaceVerdict::Enough => self.copy_action(),
                    SpaceVerdict::Insufficient => (
                        DeviceStage::Done,
                        DeviceAction::Finish(Err(BackupError::InsufficientSpace)),
                    ),
                    SpaceVerdict::Unknown => (DeviceStage::Warned, DeviceAction::WarnSpaceUnknown),
                }
            },
        }
    }

    /// Decides the presence check: today's backup present ends the attempt.
    pub fn target_file_is_present(&self, present: bool) -> (r: (DeviceStage, DeviceAction))
        requires
            mounted(*self),
        ensures
            (r.0, r.1@) == (if present {
                finish(Err(BackupError::AlreadyPresent))
            } else {
                (DeviceStage::Listing, Act::ListDirectory(dir_spec(*self)))
            }),
    {
        if present {
            (DeviceStage::Done, DeviceAction::Finish(Err(BackupError::AlreadyPresent)))
        } else {
            (DeviceStage::Listing, DeviceAction::ListDirectory(self.backup_dir_path()))
        }
    }

    /// Advances the attempt by one event and returns the action to perform.
    pub fn run(&mut self, event: DeviceEvent) -> (r: DeviceAction)
        ensures
            (final(self).stage, r@) == next(*old(self), event),
            final(self).dst_filesystem == old(self).dst_filesystem,
            final(self).backup_device == old(self).backup_device,
            final(self).backup_args == old(self).backup_args,
            final(self).date == old(self).date,
    {
        let (stage, action) = self.validate_state(event);
        self.stage = stage;
        action
    }

    /// The transition of the engine, without changing the attempt.
    pub fn validate_state(&self, event: DeviceEvent) -> (r: (DeviceStage, DeviceAction))
        ensures
            (r.0, r.1@) == next(*self, event),
    {
        let fail = (DeviceStage::Done, DeviceAction::Finish(Err(BackupError::OutOfOrder)));
        if self.stage == DeviceStage::Done {
            return fail;
        }
        if !self.dst_filesystem.is_mounted() {
            return (
                DeviceStage::Done,
                DeviceAction::Finish(Err(BackupError::NotMounted(self.dst_filesystem.mountpath.clone()))),
            );
        }
        match self.stage {
            DeviceStage::Start => match event {
                DeviceEvent::Begin => (
                    DeviceStage::Presence,
                    DeviceAction::CheckPresence(self.backup_file_path()),
                ),
                _ => fail,
            },
            DeviceStage::Presence => match event {
                DeviceEvent::Presence(present) => {
                    self.target_file_is_present(present)
                },
                _ => fail,
            },
            DeviceStage::Listing => match event {
                DeviceEvent::Listing(l) => {
                    self.delete_oldest_backup_if_needed(&l)
                },
                _ => fail,
            },
            DeviceStage::Removal => match event {
                DeviceEvent::Outcome(Ok(())) => {
                    self.copy_action()
                },
                DeviceEvent::Outcome(Err(e)) => (
                    DeviceStage::Done,
                    DeviceAction::Finish(Err(BackupError::CommandFailed(e))),
                ),
                _ => fail,
            },
            DeviceStage::Space => match event {
                DeviceEvent::Space(fresh) => {
                    self.target_filesystem_has_enough_space(&fresh)
                },
                _ => fail,
            },
            DeviceStage::Warned => match event {
                DeviceEvent::Outcome(_) => {
                    self.copy_action()
                },
                _ => fail,
            },
            DeviceStage::Copying => match event {
                DeviceEvent::Outcome(Ok(())) => if self.backup_args.dry {
                    (DeviceStage::Done, DeviceAction::Finish(Ok(())))
                } else {
                    (DeviceStage::Owning, DeviceAction::ChangeOwner(self.backup_file_path()))
                },
                DeviceEvent::Outcome(Err(e)) => (
                    DeviceStage::Done,
                    DeviceAction::Finish(Err(BackupError::CommandFailed(e))),
                ),
                _ => fail,
            },
            DeviceStage::Owning => match event {
                DeviceEvent::Outcome(Ok(())) => (DeviceStage::Done, DeviceAction::Finish(Ok(()))),
                DeviceEvent::Outcome(Err(e)) => (
                    DeviceStage::Done,
                    DeviceAction::Finish(Err(BackupError::CommandFailed(e))),
                ),
                _ => fail,
            },
            DeviceStage::Done => fail,
        }
    }
}

/// How many files of a listing carry the suffix.
pub fn count_backups(files: &Vec<BackupFile>, suffix: &str) -> (r: usize)
    ensures
        r == count_matching(files@, suffix@),
{
    let mut count: usize = 0;
    let mut i: usize = 0;
    while i < files.len()
        invariant
            i <= files@.len(),
            count == count_matching(files@.take(i as int), suffix@),
            count <= i,
        decreases files@.len() - i,
    {
        assert(files@.take(i as int + 1).drop_last() =~= files@.take(i as int));
        if contains_text(files[i].name.as_str(), suffix) {
            count = count + 1;
        }
        i = i + 1;
    }
    assert(files@.take(files@.len() as int) =~= files@);
    count
}

proof fn lemma_oldest_unique(files: Seq<BackupFile>, suffix: Seq<char>, a: int, b: int)
    requires
        is_oldest(files, suffix, a),
        is_oldest(files, suffix, b),
    ensures
        a == b,
{
    if a < b {
        assert(contains(files[a].name@, suffix));
    } else if b < a {
        assert(contains(files[b].name@, suffix));
    }
}

} // verus!
