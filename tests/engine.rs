use dd_backup::back_up::BackUp;
use dd_backup::backup::{
    check_space, contains_text, count_backups, oldest_backup, Backup, BackupArgs, BackupFile,
    DeviceAction, DeviceEvent, DeviceStage, SpaceVerdict,
};
use dd_backup::backups::{Backups, GroupAction, GroupEvent, GroupStage};
use dd_backup::block_device::BlockDevice;
use dd_backup::device::Device;
use dd_backup::error::BackupError;
use dd_backup::filesystem::Filesystem;

fn block(name: &str, uuid: Option<&str>, mountpoint: Option<&str>, size: &str, fsavail: Option<&str>) -> BlockDevice {
    BlockDevice {
        name: name.to_string(),
        model: Some("model1".to_string()),
        serial: Some("serial1".to_string()),
        uuid: uuid.map(|u| u.to_string()),
        mountpoint: mountpoint.map(|m| m.to_string()),
        size: size.to_string(),
        fsavail: fsavail.map(|f| f.to_string()),
    }
}

fn filesystem(mounted: bool) -> Filesystem {
    Filesystem {
        blockdevice: block("sdb1", Some("uuid1"), if mounted { Some("/mnt") } else { None }, "1000", Some("10")),
        device_path: "/dev/sdb1".to_string(),
        mountpath: "/mnt".to_string(),
        fsavail: Some(10),
        fsck_command: "fsck -n".to_string(),
        skip_fsck: false,
    }
}

fn device(copies: usize, size: &str) -> Device {
    Device {
        blockdevice: block("sda", None, None, size, None),
        device_path: "/dev/sda".to_string(),
        name: "disk".to_string(),
        copies,
        destination_path: "/.".to_string(),
    }
}

fn file(name: &str, created: Option<u64>) -> BackupFile {
    BackupFile {
        name: name.to_string(),
        created,
    }
}

fn fresh(fsavail: Option<&str>) -> Vec<BlockDevice> {
    vec![block("sdb1", Some("uuid1"), Some("/mnt"), "1000", fsavail)]
}

const TODAY: &str = "2024-05-01";
const TARGET: &str = "/mnt/2024-05-01_disk_model1_serial1.img";

#[test]
fn paths_and_names() {
    let fs = filesystem(true);
    let dev = device(1, "15");
    let args = BackupArgs { dry: false };
    let b = Backup::dated(&fs, &dev, &args, TODAY.to_string());
    assert_eq!(b.suffix_file_name_pattern(), "model1_serial1.img");
    assert_eq!(b.file_name(), "2024-05-01_disk_model1_serial1.img");
    assert_eq!(b.backup_dir_path(), "/mnt");
    assert_eq!(b.backup_file_path(), TARGET);

    let mut spaced = device(1, "15");
    spaced.blockdevice.model = Some("My Disk".to_string());
    spaced.destination_path = "backups/./daily/../weekly".to_string();
    let b = Backup::dated(&fs, &spaced, &args, TODAY.to_string());
    assert_eq!(b.suffix_file_name_pattern(), "My-Disk_serial1.img");
    assert_eq!(b.backup_dir_path(), "/mnt/backups/weekly");

    let today = Backup::new(&fs, &dev, &args);
    assert!(!today.date.is_empty());
    assert_eq!(today.stage, DeviceStage::Start);
}

#[test]
fn eviction_of_the_oldest_then_copy_without_space_check() {
    let fs = filesystem(true);
    let dev = device(2, "15");
    let args = BackupArgs { dry: false };
    let mut b = Backup::dated(&fs, &dev, &args, TODAY.to_string());
    match b.run(DeviceEvent::Begin) {
        DeviceAction::CheckPresence(p) => assert_eq!(p, TARGET),
        other => panic!("unexpected {:?}", other),
    }
    match b.run(DeviceEvent::Presence(false)) {
        DeviceAction::ListDirectory(p) => assert_eq!(p, "/mnt"),
        other => panic!("unexpected {:?}", other),
    }
    let listing = vec![
        file("2024-04-03_disk_model1_serial1.img", Some(300)),
        file("2024-04-01_disk_model1_serial1.img", Some(100)),
        file("notes.txt", Some(1)),
        file("2024-04-02_disk_model1_serial1.img", Some(200)),
    ];
    match b.run(DeviceEvent::Listing(Ok(listing))) {
        DeviceAction::Remove(p) => assert_eq!(p, "/mnt/2024-04-01_disk_model1_serial1.img"),
        other => panic!("unexpected {:?}", other),
    }
    match b.run(DeviceEvent::Outcome(Ok(()))) {
        DeviceAction::Copy(s, t) => {
            assert_eq!(s, "/dev/sda");
            assert_eq!(t, TARGET);
        }
        other => panic!("unexpected {:?}", other),
    }
    match b.run(DeviceEvent::Outcome(Ok(()))) {
        DeviceAction::ChangeOwner(p) => assert_eq!(p, TARGET),
        other => panic!("unexpected {:?}", other),
    }
    assert!(matches!(b.run(DeviceEvent::Outcome(Ok(()))), DeviceAction::Finish(Ok(()))));
    assert_eq!(b.stage, DeviceStage::Done);
    assert!(matches!(b.run(DeviceEvent::Begin), DeviceAction::Finish(Err(BackupError::OutOfOrder))));
}

#[test]
fn insufficient_space_rejects_the_copy() {
    let fs = filesystem(true);
    let dev = device(1, "15");
    let args = BackupArgs { dry: false };
    let mut b = Backup::dated(&fs, &dev, &args, TODAY.to_string());
    b.run(DeviceEvent::Begin);
    b.run(DeviceEvent::Presence(false));
    assert!(matches!(b.run(DeviceEvent::Listing(Ok(vec![]))), DeviceAction::MeasureSpace));
    assert!(matches!(
        b.run(DeviceEvent::Space(Ok(fresh(Some("10"))))),
        DeviceAction::Finish(Err(BackupError::InsufficientSpace))
    ));
    assert_eq!(b.stage, DeviceStage::Done);
}

#[test]
fn unknown_space_warns_and_copies() {
    let fs = filesystem(true);
    let dev = device(1, "15");
    let args = BackupArgs { dry: false };
    let mut b = Backup::dated(&fs, &dev, &args, TODAY.to_string());
    b.run(DeviceEvent::Begin);
    b.run(DeviceEvent::Presence(false));
    b.run(DeviceEvent::Listing(Err("permission denied".to_string())));
    assert!(matches!(b.run(DeviceEvent::Space(Ok(fresh(None)))), DeviceAction::WarnSpaceUnknown));
    assert!(matches!(b.run(DeviceEvent::Outcome(Ok(()))), DeviceAction::Copy(_, _)));

    let unknown_size = device(1, "1.5T");
    let mut c = Backup::dated(&fs, &unknown_size, &args, TODAY.to_string());
    c.run(DeviceEvent::Begin);
    c.run(DeviceEvent::Presence(false));
    c.run(DeviceEvent::Listing(Ok(vec![])));
    assert!(matches!(c.run(DeviceEvent::Space(Ok(fresh(Some("99"))))), DeviceAction::WarnSpaceUnknown));
}

#[test]
fn enough_space_copies() {
    let fs = filesystem(true);
    let dev = device(3, "15");
    let args = BackupArgs { dry: false };
    let mut b = Backup::dated(&fs, &dev, &args, TODAY.to_string());
    b.run(DeviceEvent::Begin);
    b.run(DeviceEvent::Presence(false));
    let listing = vec![file("2024-04-01_disk_model1_serial1.img", None), file("x_model1_serial1.img", Some(5))];
    assert!(matches!(b.run(DeviceEvent::Listing(Ok(listing))), DeviceAction::MeasureSpace));
    assert!(matches!(b.run(DeviceEvent::Space(Ok(fresh(Some("16"))))), DeviceAction::Copy(_, _)));
    assert!(matches!(
        b.run(DeviceEvent::Outcome(Err("dd: error".to_string()))),
        DeviceAction::Finish(Err(BackupError::CommandFailed(e))) if e == "dd: error"
    ));
}

#[test]
fn same_day_rerun_skips_without_deleting() {
    let fs = filesystem(true);
    let dev = device(1, "15");
    let args = BackupArgs { dry: false };
    let mut second = Backup::dated(&fs, &dev, &args, TODAY.to_string());
    match second.run(DeviceEvent::Begin) {
        DeviceAction::CheckPresence(p) => assert_eq!(p, TARGET),
        other => panic!("unexpected {:?}", other),
    }
    assert!(matches!(
        second.run(DeviceEvent::Presence(true)),
        DeviceAction::Finish(Err(BackupError::AlreadyPresent))
    ));
    assert_eq!(second.stage, DeviceStage::Done);
}

#[test]
fn dry_run_only_announces() {
    let fs = filesystem(true);
    let dev = device(1, "15");
    let args = BackupArgs { dry: true };
    let mut b = Backup::dated(&fs, &dev, &args, TODAY.to_string());
    b.run(DeviceEvent::Begin);
    b.run(DeviceEvent::Presence(false));
    let listing = vec![file("2024-04-01_disk_model1_serial1.img", Some(1))];
    match b.run(DeviceEvent::Listing(Ok(listing))) {
        DeviceAction::NoteRemoval(p) => assert_eq!(p, "/mnt/2024-04-01_disk_model1_serial1.img"),
        other => panic!("unexpected {:?}", other),
    }
    match b.run(DeviceEvent::Outcome(Ok(()))) {
        DeviceAction::NoteCopy(s, t) => {
            assert_eq!(s, "/dev/sda");
            assert_eq!(t, TARGET);
        }
        other => panic!("unexpected {:?}", other),
    }
    assert!(matches!(b.run(DeviceEvent::Outcome(Ok(()))), DeviceAction::Finish(Ok(()))));
}

#[test]
fn unmounted_destination_ends_the_attempt() {
    let fs = filesystem(false);
    let dev = device(1, "15");
    let args = BackupArgs { dry: false };
    let mut b = Backup::dated(&fs, &dev, &args, TODAY.to_string());
    assert!(matches!(
        b.run(DeviceEvent::Begin),
        DeviceAction::Finish(Err(BackupError::NotMounted(p))) if p == "/mnt"
    ));
}

#[test]
fn retention_helpers() {
    assert!(contains_text("2024_disk_m_s.img", "m_s.img"));
    assert!(!contains_text("m_s.im", "m_s.img"));
    assert!(contains_text("abc", ""));
    let files = vec![
        file("a_s.img", Some(5)),
        file("b_s.img", None),
        file("c_s.img", None),
        file("d.txt", None),
    ];
    assert_eq!(count_backups(&files, "s.img"), 3);
    assert_eq!(oldest_backup(&files, "s.img"), Some(1));
    assert_eq!(oldest_backup(&files, "zzz"), None);
    assert_eq!(check_space(Some(10), Some(15)), SpaceVerdict::Insufficient);
    assert_eq!(check_space(Some(15), Some(15)), SpaceVerdict::Insufficient);
    assert_eq!(check_space(Some(16), Some(15)), SpaceVerdict::Enough);
    assert_eq!(check_space(None, Some(15)), SpaceVerdict::Unknown);
    assert_eq!(check_space(Some(1), None), SpaceVerdict::Unknown);
}

fn group(skip_mount: bool, skip_fsck: bool, mounted: bool, n: usize) -> Backups {
    let mut fs = filesystem(mounted);
    fs.skip_fsck = skip_fsck;
    Backups {
        dst_filesystem: fs,
        backup_devices: (0..n).map(|_| device(1, "15")).collect(),
        backup_args: BackupArgs { dry: false },
        skip_mount,
        stage: GroupStage::Start,
    }
}

#[test]
fn group_lifecycle_unmounts_checks_mounts_and_unmounts() {
    let mut g = group(false, false, true, 2);
    assert!(matches!(g.run(GroupEvent::Begin), GroupAction::Unmount(p) if p == "/mnt"));
    assert!(matches!(g.run(GroupEvent::Outcome(Ok(()))), GroupAction::Check));
    assert!(!g.dst_filesystem.is_mounted());
    assert!(matches!(g.run(GroupEvent::Outcome(Ok(()))), GroupAction::Mount));
    assert!(matches!(g.run(GroupEvent::Outcome(Ok(()))), GroupAction::BackUpDevice(0)));
    assert!(g.dst_filesystem.is_mounted());
    assert!(matches!(g.run(GroupEvent::Outcome(Err("failed".to_string()))), GroupAction::BackUpDevice(1)));
    assert!(matches!(g.run(GroupEvent::Outcome(Ok(()))), GroupAction::Unmount(_)));
    assert!(matches!(g.run(GroupEvent::Outcome(Ok(()))), GroupAction::Finish(Ok(()))));
    assert!(!g.dst_filesystem.is_mounted());
    assert_eq!(g.stage, GroupStage::Done);
}

#[test]
fn group_check_failure_skips_the_group() {
    let mut g = group(false, false, false, 1);
    assert!(matches!(g.run(GroupEvent::Begin), GroupAction::Check));
    assert!(matches!(
        g.run(GroupEvent::Outcome(Err("errors".to_string()))),
        GroupAction::Finish(Err(BackupError::FsckFailed))
    ));
}

#[test]
fn group_skips_mount_and_check() {
    let mut g = group(true, true, true, 1);
    assert!(matches!(g.run(GroupEvent::Begin), GroupAction::BackUpDevice(0)));
    assert!(matches!(g.run(GroupEvent::Outcome(Ok(()))), GroupAction::Finish(Ok(()))));
    assert!(g.dst_filesystem.is_mounted());
    let mut mount_fails = group(false, true, false, 1);
    assert!(matches!(mount_fails.run(GroupEvent::Begin), GroupAction::Mount));
    assert!(matches!(
        mount_fails.run(GroupEvent::Outcome(Err("no".to_string()))),
        GroupAction::Finish(Err(BackupError::CommandFailed(_)))
    ));
}

#[test]
fn single_copy_image_name() {
    let fs = filesystem(true);
    let mut dev = device(1, "15");
    dev.blockdevice.model = Some("Big Disk".to_string());
    let mut b = BackUp::new(&fs, &dev);
    b.date = TODAY.to_string();
    assert_eq!(b.file_name(), "Big_Disk-serial1-2024-05-01.img");
    assert_eq!(b.output_file_path(), "/mnt/Big_Disk-serial1-2024-05-01.img");
    assert_eq!(b.input_file_path(), "/dev/sda");
    dev.blockdevice.model = None;
    let mut c = BackUp::new(&fs, &dev);
    c.date = TODAY.to_string();
    assert_eq!(c.file_name(), "serial1-2024-05-01.img");
}
