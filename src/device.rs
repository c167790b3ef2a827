use vstd::prelude::*;

use crate::block_device::{bytes_of, matching, parse_bytes, resolve, BlockDevice, IdKind};
use crate::config::BackupDevice;
use crate::error::BackupError;
use crate::filesystem::{dev_path, device_path_of};

verus! {

/// A configured device bound to the one enumerated device that carries its
/// serial.
#[derive(Debug)]
pub struct Device {
    /// The enumerated device.
    pub blockdevice: BlockDevice,
    /// `/dev/<name>`.
    pub device_path: String,
    /// The configured name, else the kernel name.
    pub name: String,
    /// How many dated copies to keep.
    pub copies: usize,
    /// The directory under the destination's mount point.
    pub destination_path: String,
}

/// What a device holds when it is built from its enumeration entry and its
/// configuration.
pub open spec fn device_from(d: BlockDevice, cfg: BackupDevice, dest: String, dev: Device) -> bool {
    &&& dev.blockdevice == d
    &&& dev.device_path@ == dev_path(d.name@)
    &&& dev.name@ == match cfg.name {
        Some(n) => n@,
        None => d.name@,
    }
    &&& dev.copies == match cfg.copies {
        Some(c) => c,
        None => 1usize,
    }
    &&& dev.destination_path == dest
}

impl Device {
    /// Binds a configured device: `Ok(None)` when no enumerated device
    /// carries its serial, the device when exactly one does, an ambiguity
    /// error when several do.
    pub fn new(
        backup_device: &BackupDevice,
        available_devices: &[BlockDevice],
        destination_path: String,
    ) -> (r: Result<Option<Device>, BackupError>)
        ensures
            ({
                let m = matching(available_devices@, IdKind::Serial, backup_device.serial@);
                &&& (m.len() == 0 ==> r == Ok::<Option<Device>, BackupError>(None))
                &&& (m.len() == 1 ==> (r matches Ok(Some(dev)) && device_from(
                    m[0],
                    *backup_device,
                    destination_path,
                    dev,
                )))
                &&& (m.len() > 1 ==> (r matches Err(BackupError::AmbiguousSerial(s)) && s@
                    == backup_device.serial@))
            }),
    {
        match resolve(available_devices, IdKind::Serial, backup_device.serial.as_str()) {
            Err(()) => Err(BackupError::AmbiguousSerial(backup_device.serial.clone())),
            Ok(None) => Ok(None),
            Ok(Some(blockdevice)) => {
                let device_path = device_path_of(&blockdevice.name);
                let name = match &backup_device.name {
                    Some(n) => n.clone(),
                    None => blockdevice.name.clone(),
                };
                let copies = match backup_device.copies {
                    Some(c) => c,
                    None => 1,
                };
                Ok(Some(Device { blockdevice, device_path, name, copies, destination_path }))
            },
        }
    }

    /// The size of the device in bytes, where the enumeration gave a
    /// readable one.
    pub fn total_size(&self) -> (r: Option<u64>)
        ensures
            r == bytes_of(self.blockdevice.size@),
    {
        parse_bytes(self.blockdevice.size.as_str())
    }
}

} // verus!
