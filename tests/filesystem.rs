use dd_backup::block_device::{parse_bytes, resolve, BlockDevice, IdKind, Lsblk};
use dd_backup::command::append_sudo_if_available;
use dd_backup::config::{BackupConfig, BackupDevice, Config};
use dd_backup::device::Device;
use dd_backup::error::BackupError;
use dd_backup::filesystem::Filesystem;

fn generate_test_filesystems() -> Vec<BlockDevice> {
    vec![
        BlockDevice {
            name: "sda1".to_string(),
            model: Some("model1".to_string()),
            serial: Some("serial1".to_string()),
            uuid: Some("uuid1".to_string()),
            mountpoint: Some("/mnt/sda1".to_string()),
            size: "100GB".to_string(),
            fsavail: Some("50GB".to_string()),
        },
        BlockDevice {
            name: "sdb1".to_string(),
            model: Some("model2".to_string()),
            serial: Some("serial2".to_string()),
            uuid: Some("uuid2".to_string()),
            mountpoint: Some("/mnt/sdb1".to_string()),
            size: "200GB".to_string(),
            fsavail: Some("100GB".to_string()),
        },
        BlockDevice {
            name: "sdc1".to_string(),
            model: Some("model3".to_string()),
            serial: Some("serial3".to_string()),
            uuid: Some("uuid2".to_string()),
            mountpoint: Some("/mnt/sdc1".to_string()),
            size: "300GB".to_string(),
            fsavail: Some("150GB".to_string()),
        },
    ]
}

fn group(uuid: &str) -> BackupConfig {
    BackupConfig {
        uuid: uuid.to_string(),
        backup_devices: vec![],
        destination_path: None,
        fsck_command: None,
        skip_fsck: None,
        skip_mount: None,
    }
}

#[test]
fn test_validate_present_uuid() {
    let filesystems = generate_test_filesystems();

    let uuid_filtered_lsblk = filesystems
        .iter()
        .filter(|fs| fs.uuid.as_deref() == Some("uuid1"))
        .cloned()
        .collect::<Vec<BlockDevice>>();
    assert!(Filesystem::validate_present_uuid(uuid_filtered_lsblk).is_some());

    let uuid_filtered_lsblk = filesystems
        .iter()
        .filter(|fs| fs.uuid.as_deref() == Some("uuid2"))
        .cloned()
        .collect::<Vec<BlockDevice>>();
    assert!(Filesystem::validate_present_uuid(uuid_filtered_lsblk).is_none());
}

#[test]
fn test_validate_uuid_uniq() {
    let filesystems = generate_test_filesystems();

    assert!(Filesystem::validate_uuid_uniq("uuid1", &filesystems).is_ok());
    assert!(Filesystem::validate_uuid_uniq("uuid2", &filesystems).is_err());
    assert!(Filesystem::validate_uuid_uniq("uuid3", &filesystems).is_ok()); // UUID not present
}

#[test]
fn resolution_is_absent_single_or_ambiguous() {
    let filesystems = generate_test_filesystems();
    assert!(matches!(resolve(&[], IdKind::Uuid, "uuid1"), Ok(None)));
    assert!(matches!(resolve(&filesystems, IdKind::Uuid, "uuid3"), Ok(None)));
    match resolve(&filesystems, IdKind::Uuid, "uuid1") {
        Ok(Some(d)) => assert_eq!(d.name, "sda1"),
        other => panic!("unexpected {:?}", other),
    }
    assert!(resolve(&filesystems, IdKind::Uuid, "uuid2").is_err());
    match resolve(&filesystems, IdKind::Serial, "serial3") {
        Ok(Some(d)) => assert_eq!(d.name, "sdc1"),
        other => panic!("unexpected {:?}", other),
    }
}

#[test]
fn filesystem_new_applies_defaults() {
    let mut filesystems = generate_test_filesystems();
    filesystems[0].fsavail = Some("4096".to_string());
    let fs = Filesystem::new(&group("uuid1"), &filesystems, None).unwrap().unwrap();
    assert_eq!(fs.device_path, "/dev/sda1");
    assert_eq!(fs.mountpath, "/mnt");
    assert_eq!(fs.fsck_command, "fsck -n");
    assert_eq!(fs.fsavail, Some(4096));
    assert!(!fs.skip_fsck);
    assert!(fs.is_mounted());

    let mut cfg = group("uuid1");
    cfg.fsck_command = Some("e2fsck -f -n".to_string());
    cfg.skip_fsck = Some(true);
    let fs = Filesystem::new(&cfg, &filesystems, Some("/media/b".to_string())).unwrap().unwrap();
    assert_eq!(fs.mountpath, "/media/b");
    assert!(fs.skip_fsck);
    assert_eq!(fs.fsck_command_parts(), vec!["e2fsck", "-f", "-n", "/dev/sda1"]);

    assert!(Filesystem::new(&group("uuid9"), &filesystems, None).unwrap().is_none());
    match Filesystem::new(&group("uuid2"), &filesystems, None) {
        Err(BackupError::AmbiguousUuid(u)) => assert_eq!(u, "uuid2"),
        other => panic!("unexpected {:?}", other.map(|o| o.is_some())),
    }
}

#[test]
fn mount_unmount_and_check_transitions() {
    let filesystems = generate_test_filesystems();
    let mut fs = Filesystem::new(&group("uuid1"), &filesystems, None).unwrap().unwrap();
    assert_eq!(fs.unmount_target().unwrap(), "/mnt/sda1");
    assert!(matches!(fs.unmount(Err("busy".to_string())), Err(BackupError::CommandFailed(_))));
    assert!(fs.is_mounted());
    assert!(fs.unmount(Ok(())).is_ok());
    assert!(!fs.is_mounted());
    assert!(matches!(fs.unmount_target(), Err(BackupError::NotMounted(p)) if p == "/mnt"));
    assert_eq!(fs.mount_command(), vec!["mount", "/dev/sda1", "/mnt"]);
    assert!(fs.mount(Ok(())).is_ok());
    assert_eq!(fs.blockdevice.mountpoint, Some("/mnt".to_string()));
    assert_eq!(fs.fsck_command_parts(), vec!["fsck", "-n", "/dev/sda1"]);
    assert!(fs.validate_fsck_or_skip(Ok(())).is_ok());
    assert!(matches!(fs.validate_fsck_or_skip(Err("bad".to_string())), Err(BackupError::FsckFailed)));
    fs.skip_fsck = true;
    assert!(fs.validate_fsck_or_skip(Err("bad".to_string())).is_ok());
}

#[test]
fn available_space_reads_fresh_enumeration() {
    let filesystems = generate_test_filesystems();
    let fs = Filesystem::new(&group("uuid1"), &filesystems, None).unwrap().unwrap();
    let mut fresh = generate_test_filesystems();
    assert_eq!(fs.available_space(&fresh), None);
    fresh[0].fsavail = Some("1000".to_string());
    assert_eq!(fs.available_space(&fresh), Some(1000));
    assert_eq!(fs.available_space(&fresh[1..]), None);
}

#[test]
fn parse_bytes_reads_decimal_counts() {
    assert_eq!(parse_bytes("12345"), Some(12345));
    assert_eq!(parse_bytes("0"), Some(0));
    assert_eq!(parse_bytes("18446744073709551615"), Some(u64::MAX));
    assert_eq!(parse_bytes("18446744073709551616"), None);
    assert_eq!(parse_bytes("50GB"), None);
    assert_eq!(parse_bytes(""), None);
}

#[test]
fn device_new_resolves_by_serial() {
    let devices = generate_test_filesystems();
    let spec = BackupDevice {
        serial: "serial2".to_string(),
        name: Some("disk".to_string()),
        copies: None,
    };
    let dev = Device::new(&spec, &devices, "/.".to_string()).unwrap().unwrap();
    assert_eq!(dev.device_path, "/dev/sdb1");
    assert_eq!(dev.name, "disk");
    assert_eq!(dev.copies, 1);
    assert_eq!(dev.total_size(), None);

    let unnamed = BackupDevice {
        serial: "serial1".to_string(),
        name: None,
        copies: Some(4),
    };
    let dev = Device::new(&unnamed, &devices, "/b".to_string()).unwrap().unwrap();
    assert_eq!(dev.name, "sda1");
    assert_eq!(dev.copies, 4);

    let absent = BackupDevice {
        serial: "nope".to_string(),
        name: None,
        copies: None,
    };
    assert!(Device::new(&absent, &devices, "/".to_string()).unwrap().is_none());

    let mut twice = generate_test_filesystems();
    twice[1].serial = Some("serial1".to_string());
    assert!(matches!(
        Device::new(&unnamed, &twice, "/".to_string()),
        Err(BackupError::AmbiguousSerial(s)) if s == "serial1"
    ));
}

#[test]
fn backups_new_binds_group() {
    let mut fs = generate_test_filesystems();
    fs.truncate(1);
    let mut devices = generate_test_filesystems();
    devices[1].serial = Some("serial9".to_string());
    devices[2].serial = Some("serial9".to_string());
    let lsblk = Lsblk {
        available_filesystems: fs,
        available_devices: devices,
    };
    let args = dd_backup::backup::BackupArgs { dry: false };
    let mut cfg = group("uuid1");
    cfg.backup_devices = vec![
        BackupDevice { serial: "serial1".to_string(), name: None, copies: None },
        BackupDevice { serial: "missing".to_string(), name: None, copies: None },
    ];
    let config = Config { backups: vec![], mountpath: None };
    let g = dd_backup::backups::Backups::new(&cfg, &lsblk, &args, &config).unwrap().unwrap();
    assert_eq!(g.backup_devices.len(), 1);
    assert_eq!(g.backup_devices[0].destination_path, "/.");
    assert!(!g.skip_mount);

    cfg.backup_devices.push(BackupDevice { serial: "serial9".to_string(), name: None, copies: None });
    assert!(matches!(
        dd_backup::backups::Backups::new(&cfg, &lsblk, &args, &config),
        Err(BackupError::AmbiguousSerial(s)) if s == "serial9"
    ));
    assert!(dd_backup::backups::Backups::new(&group("other"), &lsblk, &args, &config).unwrap().is_none());
}

#[test]
fn sudo_goes_first_when_available() {
    let parts = vec!["mount".to_string(), "/dev/sda1".to_string()];
    assert_eq!(append_sudo_if_available(parts.clone(), true), vec!["sudo", "mount", "/dev/sda1"]);
    assert_eq!(append_sudo_if_available(parts, false), vec!["mount", "/dev/sda1"]);
}

#[test]
fn copy_command_line() {
    assert_eq!(
        dd_backup::command::copy_command("/dev/sda", "/mnt/x.img"),
        vec!["dd", "if=/dev/sda", "of=/mnt/x.img", "status=progress"]
    );
}

#[test]
fn present_number_of_copies_counts_matches() {
    let filesystems = generate_test_filesystems();
    let fs = Filesystem::new(&group("uuid1"), &filesystems, None).unwrap().unwrap();
    let listing = Ok(vec![
        dd_backup::backup::BackupFile { name: "a_m_s.img".to_string(), created: None },
        dd_backup::backup::BackupFile { name: "b_m_s.img".to_string(), created: Some(3) },
        dd_backup::backup::BackupFile { name: "m_s.txt".to_string(), created: None },
    ]);
    assert_eq!(fs.present_number_of_copies("m_s.img", &listing), 2);
    assert_eq!(fs.present_number_of_copies("m_s.img", &Err("gone".to_string())), 0);
}
