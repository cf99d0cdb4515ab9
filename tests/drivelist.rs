use bb_imager::device::{DeviceDescriptor, MountPoint};
use bb_imager::lsblk::{descriptor_from_lsblk, descriptors_from_lsblk, FsSize, LsblkChild, LsblkDevice};
use bb_imager::pal::{
    attach_volume, classify_windows_device, windows_mount_point, VolumeInfo, disk_of_partition, get_bus_type, is_partition_name, is_usb_drive,
    DiskDescription,
};
use bb_imager::text::parse_u64;

fn record(name: &str, subsystems: &str, tran: Option<&str>, rm: bool, hotplug: bool) -> LsblkDevice {
    LsblkDevice {
        size: Some(1 << 30),
        kname: name.to_string(),
        name: name.to_string(),
        tran: tran.map(|t| t.to_string()),
        subsystems: subsystems.to_string(),
        ro: false,
        phy_sec: 512,
        log_sec: 512,
        rm,
        ptype: Some("gpt".to_string()),
        children: Vec::new(),
        label: None,
        vendor: None,
        model: None,
        hotplug,
    }
}

#[test]
fn loop_dev() {
    let dev = LsblkDevice {
        size: None,
        kname: "/dev/loop23".to_string(),
        name: "/dev/loop23".to_string(),
        tran: None,
        subsystems: "block".to_string(),
        ro: false,
        phy_sec: 512,
        log_sec: 512,
        rm: false,
        ptype: None,
        children: Vec::new(),
        label: None,
        vendor: None,
        model: None,
        hotplug: false,
    };
    let res: Vec<DeviceDescriptor> = descriptors_from_lsblk(&vec![dev]);
    assert_eq!(res.len(), 1);
    assert_eq!(res[0].device, "/dev/loop23");
    assert_eq!(res[0].bus_type.as_deref(), Some("UNKNOWN"));
    assert!(!res[0].is_virtual);
}

#[test]
fn usb_hotplug_is_removable_not_system() {
    let d = descriptor_from_lsblk(&record("/dev/sdb", "block:scsi:usb:pci", Some("usb"), false, true)).unwrap();
    assert!(d.is_removable);
    assert!(!d.is_system);
    assert!(d.is_usb);
    assert!(!d.is_scsi);
    assert_eq!(d.bus_type.as_deref(), Some("USB"));
    assert_eq!(d.enumerator, "lsblk:json");
}

#[test]
fn sata_fixed_disk_is_system() {
    let d = descriptor_from_lsblk(&record("/dev/sda", "block:scsi:pci", Some("sata"), false, false)).unwrap();
    assert!(d.is_system);
    assert!(!d.is_removable);
    assert!(!d.is_virtual);
    assert!(d.is_scsi);
    assert_eq!(d.bus_type.as_deref(), Some("SATA"));
}

#[test]
fn removable_flag_prevents_system() {
    let d = descriptor_from_lsblk(&record("/dev/sdc", "block:scsi:pci", Some("sata"), true, false)).unwrap();
    assert!(d.is_removable);
    assert!(!d.is_system);
}

#[test]
fn no_block_subsystem_is_virtual_and_removable() {
    let d = descriptor_from_lsblk(&record("/dev/zram0", "", None, false, false)).unwrap();
    assert!(d.is_virtual);
    assert!(d.is_removable);
    assert!(!d.is_system);
    assert!(!d.is_scsi);
}

#[test]
fn description_joins_label_vendor_model() {
    let mut r = record("/dev/sdd", "block:usb", Some("usb"), true, true);
    r.label = Some("BOOT".to_string());
    r.vendor = None;
    r.model = Some("Card Reader".to_string());
    assert_eq!(r.description(), "BOOTCard Reader");
    r.label = Some(String::new());
    r.vendor = Some("Generic ".to_string());
    assert_eq!(r.description(), "Generic Card Reader");
}

#[test]
fn children_become_mountpoints() {
    let mut r = record("/dev/sde", "block:usb", Some("usb"), true, true);
    r.children = vec![
        LsblkChild {
            mountpoint: Some("/media/boot".to_string()),
            fssize: Some(FsSize::Text("1024".to_string())),
            fsavail: Some(FsSize::Bytes(512)),
            label: None,
            partlabel: Some("BOOT".to_string()),
        },
        LsblkChild { mountpoint: None, fssize: None, fsavail: None, label: Some("root".to_string()), partlabel: Some("p".to_string()) },
    ];
    let d = descriptor_from_lsblk(&r).unwrap();
    assert_eq!(d.mountpoints.len(), 2);
    assert_eq!(d.mountpoints[0].path, "/media/boot");
    assert_eq!(d.mountpoints[0].label.as_deref(), Some("BOOT"));
    assert_eq!(d.mountpoints[0].total_bytes, Some(1024));
    assert_eq!(d.mountpoints[0].available_bytes, Some(512));
    assert_eq!(d.mountpoints[1].path, "");
    assert_eq!(d.mountpoints[1].label.as_deref(), Some("root"));
}

#[test]
fn malformed_record_is_skipped() {
    let mut bad = record("/dev/sdf", "block", None, false, false);
    bad.children = vec![LsblkChild {
        mountpoint: None,
        fssize: Some(FsSize::Text("12x".to_string())),
        fsavail: None,
        label: None,
        partlabel: None,
    }];
    let good = record("/dev/sdg", "block", None, false, false);
    assert!(descriptor_from_lsblk(&bad).is_none());
    let all = descriptors_from_lsblk(&vec![bad, good]);
    assert_eq!(all.len(), 1);
    assert_eq!(all[0].device, "/dev/sdg");
}

#[test]
fn decimal_parsing() {
    assert_eq!(parse_u64("0"), Some(0));
    assert_eq!(parse_u64("+42"), Some(42));
    assert_eq!(parse_u64("18446744073709551615"), Some(u64::MAX));
    assert_eq!(parse_u64("18446744073709551616"), None);
    assert_eq!(parse_u64(""), None);
    assert_eq!(parse_u64("+"), None);
    assert_eq!(parse_u64("-1"), None);
    assert_eq!(parse_u64("1 2"), None);
}

#[test]
fn default_descriptor_has_512_byte_blocks() {
    let d = DeviceDescriptor::default();
    assert_eq!(d.block_size, 512);
    assert_eq!(d.logical_block_size, 512);
    assert!(d.size.is_none());
    assert!(!d.is_removable);
}

#[test]
fn mount_point_new_sets_path_only() {
    let m = MountPoint::new("/mnt");
    assert_eq!(m.path, "/mnt");
    assert!(m.label.is_none() && m.total_bytes.is_none() && m.available_bytes.is_none());
}

#[test]
fn windows_bus_type_names() {
    assert_eq!(get_bus_type(7), "USB");
    assert_eq!(get_bus_type(11), "SATA");
    assert_eq!(get_bus_type(12), "SDCARD");
    assert_eq!(get_bus_type(9), "iSCSI");
    assert_eq!(get_bus_type(16), "INVALID");
    assert_eq!(get_bus_type(-1), "INVALID");
}

#[test]
fn windows_usb_enumerators() {
    assert!(is_usb_drive("USBSTOR"));
    assert!(is_usb_drive("ASUSSTPT"));
    assert!(!is_usb_drive("SCSI"));
    assert!(!is_usb_drive("usbstor"));
}

#[test]
fn windows_classification() {
    let mut d = DeviceDescriptor::default();
    d.enumerator = "SCSI".to_string();
    d.bus_type = Some("USB".to_string());
    d.mountpoints = vec![MountPoint::new("C:\\")];
    classify_windows_device(&mut d, &vec!["C:\\Windows".to_string(), "C:\\Program Files".to_string()]);
    assert_eq!(d.is_uas, Some(true));
    assert!(!d.is_card);
    assert!(d.is_system);
    let mut fixed = DeviceDescriptor::default();
    fixed.bus_type = Some("NVME".to_string());
    fixed.mountpoints = vec![MountPoint::new("D:\\")];
    classify_windows_device(&mut fixed, &vec!["C:\\Windows".to_string()]);
    assert!(fixed.is_system);
    let mut e = DeviceDescriptor::default();
    e.is_removable = true;
    e.bus_type = Some("SDCARD".to_string());
    e.mountpoints = vec![MountPoint::new("E:\\")];
    classify_windows_device(&mut e, &vec!["C:\\Windows".to_string()]);
    assert!(e.is_card);
    assert!(!e.is_system);
    assert_eq!(e.is_uas, Some(false));
    let mut v = DeviceDescriptor::default();
    v.bus_type = Some("FILEBACKEDVIRTUAL".to_string());
    classify_windows_device(&mut v, &Vec::new());
    assert!(v.is_virtual);
}

#[test]
fn macos_disk_description() {
    let desc = DiskDescription {
        bsd_name: "disk4".to_string(),
        device_protocol: Some("SATA".to_string()),
        block_size: Some(4096),
        is_removable: false,
        is_ejectable: false,
        is_writable: true,
        media_content: Some("GUID_partition_scheme".to_string()),
        bus_path: None,
        media_name: Some("Samsung SSD".to_string()),
        media_size: Some(1000),
        media_icon: None,
    };
    let d = DeviceDescriptor::from_disk_description(&desc);
    assert_eq!(d.device, "/dev/disk4");
    assert_eq!(d.raw, "/dev/rdisk4");
    assert_eq!(d.partition_table_type.as_deref(), Some("gpt"));
    assert_eq!(d.block_size, 4096);
    assert_eq!(d.logical_block_size, 4096);
    assert!(d.is_system && d.is_scsi && !d.is_removable && !d.is_readonly);
    let card = DiskDescription {
        bsd_name: "disk5".to_string(),
        device_protocol: Some("USB".to_string()),
        block_size: None,
        is_removable: true,
        is_ejectable: true,
        is_writable: false,
        media_content: Some("FDisk_partition_scheme".to_string()),
        bus_path: None,
        media_name: None,
        media_size: None,
        media_icon: Some("SD.icns".to_string()),
    };
    let ext = DiskDescription { bsd_name: "disk6".to_string(), device_protocol: Some("sata".to_string()), ..desc.clone() };
    let x = DeviceDescriptor::from_disk_description(&ext);
    assert!(x.is_system && x.is_scsi && !x.is_removable && !x.is_virtual);
    let c = DeviceDescriptor::from_disk_description(&card);
    assert_eq!(c.partition_table_type.as_deref(), Some("mbr"));
    assert_eq!(c.block_size, 512);
    assert!(c.is_card && c.is_removable && !c.is_system && !c.is_scsi && c.is_readonly);
}

#[test]
fn macos_partition_names() {
    assert!(is_partition_name("disk0s1"));
    assert!(is_partition_name("disk12s34"));
    assert!(!is_partition_name("disk0"));
    assert!(!is_partition_name("disks1"));
    assert!(!is_partition_name("disk0s"));
    assert!(!is_partition_name("disk0s1a"));
    assert!(!is_partition_name("rdisk0s1"));
    assert!(!is_partition_name("dis"));
}

#[test]
fn macos_volumes_attach_to_their_disk() {
    assert_eq!(disk_of_partition("disk0s1"), "disk0");
    assert_eq!(disk_of_partition("disk12"), "disk12");
    assert_eq!(disk_of_partition("vol3"), "vol3");
    let mut a = DeviceDescriptor::default();
    a.device = "/dev/disk0".to_string();
    let mut b = DeviceDescriptor::default();
    b.device = "/dev/disk2".to_string();
    let mut list = vec![a, b];
    attach_volume(&mut list, "disk2s1", "/Volumes/BOOT", "BOOT".to_string());
    assert!(list[0].mountpoints.is_empty());
    assert_eq!(list[1].mountpoints.len(), 1);
    assert_eq!(list[1].mountpoints[0].path, "/Volumes/BOOT");
    assert_eq!(list[1].mountpoint_labels, vec!["BOOT".to_string()]);
    attach_volume(&mut list, "disk9s1", "/Volumes/X", "X".to_string());
    assert_eq!(list[0].mountpoints.len() + list[1].mountpoints.len(), 1);
}

#[test]
fn windows_volumes_become_mountpoints() {
    let v = VolumeInfo {
        letter: 'E',
        drive_type: 2,
        device_number: Some(3),
        sectors_per_cluster: 8,
        bytes_per_sector: 512,
        free_clusters: 10,
        total_clusters: 100,
    };
    let m = windows_mount_point(v, 3).unwrap();
    assert_eq!(m.path, "E:\\");
    assert_eq!(m.total_bytes, Some(409600));
    assert_eq!(m.available_bytes, Some(40960));
    assert!(windows_mount_point(v, 4).is_none());
    assert!(windows_mount_point(VolumeInfo { drive_type: 5, ..v }, 3).is_none());
    assert!(windows_mount_point(VolumeInfo { device_number: None, ..v }, 3).is_none());
    let big = VolumeInfo { sectors_per_cluster: u32::MAX, bytes_per_sector: u32::MAX, total_clusters: u32::MAX, ..v };
    assert_eq!(windows_mount_point(big, 3).unwrap().total_bytes, Some(u64::MAX));
}
