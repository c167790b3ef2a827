use vstd::prelude::*;

use crate::backup::{
    age_key, contains, count_matching, dir_spec, file_spec, finish, is_oldest, listing_count,
    mounted, next, none_matching, suffix_spec, Act, Backup, BackupFile, DeviceEvent, DeviceStage,
};
use crate::error::BackupError;
use crate::paths::joined;

verus! {

/// How far an attempt has gone: every step goes further, or ends it.
pub open spec fn stage_rank(s: DeviceStage) -> int {
    match s {
        DeviceStage::Start => 0,
        DeviceStage::Presence => 1,
        DeviceStage::Listing => 2,
        DeviceStage::Removal => 3,
        DeviceStage::Space => 3,
        DeviceStage::Warned => 4,
        DeviceStage::Copying => 5,
        DeviceStage::Owning => 6,
        DeviceStage::Done => 7,
    }
}

/// A deletion, live or announced.
pub open spec fn is_eviction(a: Act) -> bool {
    a is Remove || a is NoteRemoval
}

proof fn lemma_count_zero_none(files: Seq<BackupFile>, suffix: Seq<char>)
    requires
        count_matching(files, suffix) == 0,
    ensures
        none_matching(files, suffix),
    decreases files.len(),
{
    if files.len() > 0 {
        lemma_count_zero_none(files.drop_last(), suffix);
        assert forall|j: int| 0 <= j < files.len() implies !contains(#[trigger] files[j].name@, suffix) by {
            if j < files.len() - 1 {
                assert(files.drop_last()[j] == files[j]);
            }
        }
    }
}

proof fn lemma_oldest_exists(files: Seq<BackupFile>, suffix: Seq<char>)
    requires
        count_matching(files, suffix) > 0,
    ensures
        exists|k: int| is_oldest(files, suffix, k),
    decreases files.len(),
{
    let pre = files.drop_last();
    let n = files.len() - 1;
    assert forall|j: int| 0 <= j < n implies #[trigger] pre[j] == files[j] by {}
    if count_matching(pre, suffix) > 0 {
        lemma_oldest_exists(pre, suffix);
        let k = choose|k: int| is_oldest(pre, suffix, k);
        assert(pre[k] == files[k]);
        if contains(files[n].name@, suffix) && age_key(files[n]) < age_key(files[k]) {
            assert forall|j: int|
                0 <= j < files.len() && contains(#[trigger] files[j].name@, suffix) implies age_key(
                files[n],
            ) <= age_key(files[j]) by {
                if j < n {
                    assert(contains(pre[j].name@, suffix));
                }
            }
            assert forall|j: int|
                0 <= j < n && contains(#[trigger] files[j].name@, suffix) implies age_key(files[n])
                < age_key(files[j]) by {
                assert(contains(pre[j].name@, suffix));
            }
            assert(is_oldest(files, suffix, n));
        } else {
            assert forall|j: int|
                0 <= j < files.len() && contains(#[trigger] files[j].name@, suffix) implies age_key(
                files[k],
            ) <= age_key(files[j]) by {
                if j < n {
                    assert(contains(pre[j].name@, suffix));
                }
            }
            assert forall|j: int|
                0 <= j < k && contains(#[trigger] files[j].name@, suffix) implies age_key(files[k])
                < age_key(files[j]) by {
                assert(contains(pre[j].name@, suffix));
            }
            assert(is_oldest(files, suffix, k));
        }
    } else {
        lemma_count_zero_none(pre, suffix);
        assert(contains(files[n].name@, suffix));
        assert forall|j: int|
            0 <= j < files.len() && contains(#[trigger] files[j].name@, suffix) implies j == n by {
            if j < n {
                assert(!contains(pre[j].name@, suffix));
            }
        }
        assert(is_oldest(files, suffix, n));
    }
}

/// Retention: an attempt that has read the destination directory evicts
/// exactly when the backups of the device there number at least the
/// retention count, and then the one file it deletes (or, in a dry run,
/// announces) is the oldest backup, the first in listing order among
/// equally old ones.
pub proof fn lemma_eviction_iff_at_retention(b: Backup, listing: Result<Vec<BackupFile>, String>)
    requires
        b.stage == DeviceStage::Listing,
        mounted(b),
        b.backup_device.copies >= 1,
    ensures
        is_eviction(next(b, DeviceEvent::Listing(listing)).1) <==> listing_count(
            listing,
            suffix_spec(b),
        ) >= b.backup_device.copies,
        is_eviction(next(b, DeviceEvent::Listing(listing)).1) ==> (listing matches Ok(v) && exists|
            k: int,
        |
            is_oldest(v@, suffix_spec(b), k) && next(b, DeviceEvent::Listing(listing)).1 == if b.backup_args.dry {
                Act::NoteRemoval(joined(dir_spec(b), v@[k].name@))
            } else {
                Act::Remove(joined(dir_spec(b), v@[k].name@))
            }),
{
    if listing_count(listing, suffix_spec(b)) >= b.backup_device.copies {
        let v = listing->Ok_0;
        lemma_oldest_exists(v@, suffix_spec(b));
    }
}

/// One eviction per attempt: only the step that reads the directory
/// evicts, and every step either goes further or ends the attempt, so no
/// stage comes twice.
pub proof fn lemma_single_eviction(b: Backup, e: DeviceEvent)
    ensures
        next(b, e).0 == DeviceStage::Done || stage_rank(next(b, e).0) > stage_rank(b.stage),
        is_eviction(next(b, e).1) ==> b.stage == DeviceStage::Listing && next(b, e).0
            == DeviceStage::Removal,
{
}

/// Running again on the same day: the file that a run copies to is the one
/// that a later attempt with the same device, filesystem and date checks
/// first, and finding it there ends that attempt without any deletion.
pub proof fn lemma_same_day_rerun(first: Backup, second: Backup, e: DeviceEvent)
    requires
        first.dst_filesystem == second.dst_filesystem,
        first.backup_device == second.backup_device,
        first.date == second.date,
        mounted(first),
        first.stage != DeviceStage::Done,
        second.stage == DeviceStage::Start,
    ensures
        next(first, e).1 matches Act::Copy(_, target) ==> next(second, DeviceEvent::Begin) == (
            DeviceStage::Presence,
            Act::CheckPresence(target),
        ),
        next(Backup { stage: DeviceStage::Presence, ..second }, DeviceEvent::Presence(true))
            == finish(Err(BackupError::AlreadyPresent)),
{
    assert(file_spec(first) == file_spec(second));
}

/// What a dry run does in place of an action: deletions and copies are
/// announced, and the change of owner, which follows a copy that never
/// happened, is left out.
pub open spec fn announced(a: Act) -> Act {
    match a {
        Act::Remove(p) => Act::NoteRemoval(p),
        Act::Copy(s, t) => Act::NoteCopy(s, t),
        Act::ChangeOwner(_) => Act::Finish(Ok(())),
        other => other,
    }
}

/// Dry run: it never deletes, copies or changes an owner, and step by step
/// it decides as a real run does, announcing what the real run would do.
pub proof fn lemma_dry_run(live: Backup, dry: Backup, e: DeviceEvent)
    requires
        dry.dst_filesystem == live.dst_filesystem,
        dry.backup_device == live.backup_device,
        dry.date == live.date,
        dry.stage == live.stage,
        dry.backup_args.dry,
        !live.backup_args.dry,
    ensures
        !(next(dry, e).1 is Remove || next(dry, e).1 is Copy || next(dry, e).1 is ChangeOwner),
        next(dry, e).1 == announced(next(live, e).1),
        next(dry, e).0 == if next(live, e).1 is ChangeOwner {
            DeviceStage::Done
        } else {
            next(live, e).0
        },
{
    assert(dir_spec(dry) == dir_spec(live));
    assert(file_spec(dry) == file_spec(live));
    assert(suffix_spec(dry) == suffix_spec(live));
}

} // verus!
