use vstd::prelude::*;

verus! {

/// Sector size assumed for a device until a geometry query says otherwise.
pub const DEFAULT_BLOCK_SIZE: u32 = 512;

/// A mountpoint of a drive.
#[derive(Clone, Debug, Default)]
pub struct MountPoint {
    pub path: String,
    pub label: Option<String>,
    pub total_bytes: Option<u64>,
    pub available_bytes: Option<u64>,
}

impl MountPoint {
    /// A mountpoint at `path` with nothing else known of it.
    pub fn new(path: &str) -> (r: MountPoint)
        ensures
            r.path@ == path@,
            r.label is None,
            r.total_bytes is None,
            r.available_bytes is None,
    {
        MountPoint {
            path: String::from_str(path),
            label: None,
            total_bytes: None,
            available_bytes: None,
        }
    }
}

/// One physical or logical storage device, as an enumeration reported it.
#[derive(Clone, Debug)]
pub struct DeviceDescriptor {
    pub enumerator: String,
    pub bus_type: Option<String>,
    pub bus_version: Option<String>,
    pub device: String,
    pub device_path: Option<String>,
    pub raw: String,
    pub description: String,
    pub error: Option<String>,
    pub partition_table_type: Option<String>,
    pub size: Option<u64>,
    pub block_size: u32,
    pub logical_block_size: u32,
    pub mountpoints: Vec<MountPoint>,
    pub mountpoint_labels: Vec<String>,
    /// Device is read-only
    pub is_readonly: bool,
    /// Device is a system drive
    pub is_system: bool,
    /// Device is an SD-card
    pub is_card: bool,
    /// Connected via the Small Computer System Interface (SCSI)
    pub is_scsi: bool,
    /// Connected via Universal Serial Bus (USB)
    pub is_usb: bool,
    /// Device is a virtual storage device
    pub is_virtual: bool,
    /// Device is removable from the running system
    pub is_removable: bool,
    /// Connected via the USB Attached SCSI (UAS)
    pub is_uas: Option<bool>,
}

impl DeviceDescriptor {
    /// Whether this device is offered as a target when enumeration filters:
    /// removable and not virtual.
    pub open spec fn spec_is_flashable(&self) -> bool {
        self.is_removable && !self.is_virtual
    }

    /// Whether this device is offered as a target when enumeration filters.
    pub fn is_flashable(&self) -> (r: bool)
        ensures
            r == self.spec_is_flashable(),
    {
        self.is_removable && !self.is_virtual
    }
}

impl Default for DeviceDescriptor {
    fn default() -> (r: DeviceDescriptor)
        ensures
            r.enumerator@.len() == 0,
            r.bus_type is None,
            r.bus_version is None,
            r.device@.len() == 0,
            r.device_path is None,
            r.raw@.len() == 0,
            r.description@.len() == 0,
            r.error is None,
            r.partition_table_type is None,
            r.size is None,
            r.block_size == DEFAULT_BLOCK_SIZE,
            r.logical_block_size == DEFAULT_BLOCK_SIZE,
            r.mountpoints@.len() == 0,
            r.mountpoint_labels@.len() == 0,
            !r.is_readonly,
            !r.is_system,
            !r.is_card,
            !r.is_scsi,
            !r.is_usb,
            !r.is_virtual,
            !r.is_removable,
            r.is_uas is None,
    {
        DeviceDescriptor {
            enumerator: String::new(),
            bus_type: None,
            bus_version: None,
            device: String::new(),
            device_path: None,
            raw: String::new(),
            description: String::new(),
            error: None,
            partition_table_type: None,
            size: None,
            block_size: DEFAULT_BLOCK_SIZE,
            logical_block_size: DEFAULT_BLOCK_SIZE,
            mountpoints: Vec::new(),
            mountpoint_labels: Vec::new(),
            is_readonly: false,
            is_system: false,
            is_card: false,
            is_scsi: false,
            is_usb: false,
            is_virtual: false,
            is_removable: false,
            is_uas: None,
        }
    }
}

} // verus!
