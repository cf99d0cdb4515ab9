use bb_imager::customization::{Customization, RaspberryCustomization, RaspberryUser, SysconfCustomization};
use bb_imager::device::DeviceDescriptor;
use bb_imager::error::Error;
use bb_imager::flashing::{first_failure, DownloadFlashingStatus, FlashEvent, FlashOutcome, FlashSession};
use bb_imager::partition::{boot_partition_range, gpt_boot_partition, locate_boot_partition, mbr_boot_entry, ByteRange, GptPartition, GptTable, MbrEntry};
use bb_imager::resolve::{LocalImage, RemoteImage, ResolvePlan};
use bb_imager::cache::{CacheCheck, CacheState};
use bb_imager::sd::{devices, Device, Flasher, FlashingSdLinuxConfig, FormatFlasher, Target};

fn mbr_sector(boot: u8, lba: u32, sectors: u32) -> Vec<u8> {
    let mut s = vec![0u8; 512];
    s[446] = boot;
    s[450] = 0x0c;
    s[454..458].copy_from_slice(&lba.to_le_bytes());
    s[458..462].copy_from_slice(&sectors.to_le_bytes());
    s[510] = 0x55;
    s[511] = 0xaa;
    s
}

fn sd_target(path: &str) -> Target {
    Target { device: Device { name: "card".to_string(), path: path.to_string(), size: 1 << 30 } }
}

fn sysconf(user: Option<(&str, &str)>, wifi: Option<(&str, &str)>) -> SysconfCustomization {
    SysconfCustomization {
        hostname: Some("beagle".to_string()),
        user: user.map(|(a, b)| (a.to_string(), b.to_string())),
        wifi: wifi.map(|(a, b)| (a.to_string(), b.to_string())),
        ..Default::default()
    }
}

#[test]
fn gpt_partition_two_is_the_boot_partition() {
    let gpt = GptTable::Present(Some(GptPartition { first_lba: 2048, last_lba: 4096 }));
    let r = boot_partition_range(gpt, Some(MbrEntry { starting_lba: 1, sectors: 1 }));
    assert_eq!(r, Ok(ByteRange { start: 2048 * 512, end: 4097 * 512 }));
    assert_eq!(locate_boot_partition(gpt, &mbr_sector(0x80, 1, 1)), Ok(ByteRange { start: 2048 * 512, end: 4097 * 512 }));
    let same = boot_partition_range(GptTable::Absent, Some(MbrEntry { starting_lba: 2048, sectors: 2049 }));
    assert_eq!(same, r);
    let edge = GptTable::Present(Some(GptPartition { first_lba: 0, last_lba: u64::MAX / 512 - 1 }));
    assert_eq!(boot_partition_range(edge, None), Ok(ByteRange { start: 0, end: u64::MAX / 512 * 512 }));
    let over = GptTable::Present(Some(GptPartition { first_lba: 0, last_lba: u64::MAX / 512 }));
    assert_eq!(boot_partition_range(over, None), Err(Error::InvalidPartitionTable));
}

#[test]
fn mbr_is_the_fallback() {
    let r = locate_boot_partition(GptTable::Absent, &mbr_sector(0x80, 8192, 1024));
    assert_eq!(r, Ok(ByteRange { start: 8192 * 512, end: 8192 * 512 + 1024 * 512 }));
    let big = boot_partition_range(GptTable::Absent, Some(MbrEntry { starting_lba: u32::MAX, sectors: u32::MAX }));
    assert_eq!(big, Ok(ByteRange { start: u32::MAX as u64 * 512, end: u32::MAX as u64 * 1024 }));
}

#[test]
fn neither_table_is_invalid() {
    let mut no_sig = mbr_sector(0x80, 8192, 1024);
    no_sig[511] = 0;
    assert_eq!(locate_boot_partition(GptTable::Absent, &no_sig), Err(Error::InvalidPartitionTable));
    assert_eq!(locate_boot_partition(GptTable::Absent, &mbr_sector(0x12, 1, 1)), Err(Error::InvalidPartitionTable));
    assert_eq!(locate_boot_partition(GptTable::Absent, &[0u8; 10]), Err(Error::InvalidPartitionTable));
    assert_eq!(boot_partition_range(GptTable::Present(None), None), Err(Error::InvalidPartitionTable));
    let backwards = GptTable::Present(Some(GptPartition { first_lba: 10, last_lba: 5 }));
    assert_eq!(boot_partition_range(backwards, None), Err(Error::InvalidPartitionTable));
    let huge = GptTable::Present(Some(GptPartition { first_lba: 1, last_lba: u64::MAX }));
    assert_eq!(boot_partition_range(huge, None), Err(Error::InvalidPartitionTable));
}

#[test]
fn root_user_rejected_by_both_schemes() {
    let s = Customization::Sysconf(sysconf(Some(("root", "pw")), None));
    assert!(!s.validate());
    let r = Customization::Raspberry(RaspberryCustomization {
        user: Some(RaspberryUser { name: Some("root".to_string()), password: None, password_encrypted: None }),
        ..Default::default()
    });
    assert!(!r.validate());
    assert_eq!(r.clone(), r);
    assert!(Customization::Sysconf(sysconf(Some(("debian", "pw")), None)).validate());
    let flasher = Flasher::<(), ()>::new((), None, sd_target("/dev/sdb"), FlashingSdLinuxConfig { customization: Some(s) });
    assert_eq!(flasher.validate(), Err(Error::InvalidCustomizaton));
    assert_eq!(
        flasher.customization_plan(GptTable::Absent, &mbr_sector(0x80, 1, 1), "").unwrap_err(),
        Error::InvalidCustomizaton
    );
    let rasp = Flasher::<(), ()>::new((), None, sd_target("/dev/sdb"), FlashingSdLinuxConfig::raspberry(match r {
        Customization::Raspberry(x) => x,
        _ => unreachable!(),
    }));
    assert_eq!(rasp.validate(), Err(Error::InvalidCustomizaton));
}

#[test]
fn sysconf_lines_in_order() {
    let c = SysconfCustomization {
        hostname: Some("bb".to_string()),
        timezone: Some("UTC".to_string()),
        keymap: Some("us".to_string()),
        user: Some(("debian".to_string(), "temppwd".to_string())),
        wifi: None,
        ssh: Some("ssh-ed25519 AAAA".to_string()),
        usb_enable_dhcp: Some(true),
    };
    assert_eq!(
        c.sysconf_text(),
        "hostname=bb\ntimezone=UTC\nkeymap=us\nuser_name=debian\nuser_password=temppwd\nuser_authorized_key=ssh-ed25519 AAAA\nusb_enable_dhcp=yes\n"
    );
    let off = SysconfCustomization { usb_enable_dhcp: Some(false), ..Default::default() };
    assert!(!off.has_customization());
    assert!(off.files().is_empty());
}

#[test]
fn wifi_writes_profile_and_reference() {
    let c = sysconf(Some(("debian", "pw")), Some(("HomeNet", "secret123")));
    assert!(c.validate());
    let files = c.files();
    assert_eq!(files.len(), 2);
    assert_eq!(files[0].path, "sysconf.txt");
    assert!(files[0].contents.ends_with("iwd_psk_file=HomeNet.psk\n"));
    assert_eq!(files[1].path, "services/HomeNet.psk");
    assert_eq!(files[1].contents, "[Security]\nPassphrase=secret123\n\n[Settings]\nAutoConnect=true");
}

#[test]
fn customization_plan_after_flashing() {
    let cfg = FlashingSdLinuxConfig { customization: Some(Customization::Sysconf(sysconf(None, None))) };
    let f = Flasher::<(), ()>::new((), None, sd_target("/dev/sdb"), cfg);
    assert_eq!(f.dst, "/dev/sdb");
    assert_eq!(f.validate(), Ok(()));
    let plan = f.customization_plan(GptTable::Absent, &mbr_sector(0x00, 2048, 100), "").unwrap().unwrap();
    assert_eq!(plan.partition, ByteRange { start: 2048 * 512, end: 2148 * 512 });
    assert_eq!(plan.files[0].contents, "hostname=beagle\n");
    assert_eq!(
        f.customization_plan(GptTable::Absent, &[0u8; 512], "").unwrap_err(),
        Error::InvalidPartitionTable
    );
    let none = Flasher::<(), ()>::new((), None, sd_target("/dev/sdb"), FlashingSdLinuxConfig::none());
    assert!(none.customization_plan(GptTable::Absent, &[0u8; 512], "").unwrap().is_none());
    let empty = FlashingSdLinuxConfig::sysconfig(None, None, None, None, None, None, None);
    let e = Flasher::<(), ()>::new((), None, sd_target("/dev/sdb"), empty);
    assert!(e.customization_plan(GptTable::Absent, &[0u8; 512], "").unwrap().is_none());
}

#[test]
fn raspberry_writes_versioned_toml() {
    let c = RaspberryCustomization::default();
    let files = c.files("[system]\nhostname = \"pi\"\n");
    assert_eq!(files.len(), 1);
    assert_eq!(files[0].path, "custom.toml");
    assert_eq!(files[0].contents, "config_version = 1\n\n[system]\nhostname = \"pi\"\n");
}

#[test]
fn cancel_mid_flash_aborts() {
    let mut s = FlashSession::new(1000);
    assert_eq!(s.step(FlashEvent::Written(100)), Some(DownloadFlashingStatus::FlashingProgress { done: 100, total: 1000 }));
    assert_eq!(s.step(FlashEvent::Cancelled), None);
    assert_eq!(s.outcome, Some(FlashOutcome::Aborted));
    assert_eq!(s.step(FlashEvent::Finished), None);
    assert_eq!(s.result(), Some(Err(Error::Aborted)));
}

#[test]
fn failed_write_is_an_error() {
    let mut s = FlashSession::new(10);
    assert_eq!(s.progress(), DownloadFlashingStatus::Preparing);
    s.step(FlashEvent::Failed);
    assert_eq!(s.result(), Some(Err(Error::IoError)));
    let mut t = FlashSession::new(10);
    assert_eq!(t.result(), None);
    t.step(FlashEvent::Written(25));
    assert_eq!(t.progress(), DownloadFlashingStatus::FlashingProgress { done: 10, total: 10 });
    t.step(FlashEvent::Written(u64::MAX));
    assert_eq!(t.written, u64::MAX);
}

#[test]
fn local_image_to_simulated_block_device() {
    const SIZE: usize = 100 * 1024 * 1024;
    let plan = LocalImage { path: "/images/os.img".to_string() }.resolve_plan();
    assert!(matches!(plan, ResolvePlan::Open { ref path, size: None } if path == "/images/os.img"));
    let image = vec![0xa5u8; SIZE];
    let mut target: Vec<u8> = Vec::with_capacity(SIZE);
    let mut session = FlashSession::new(SIZE as u64);
    let mut last = 0.0f64;
    let mut seen = 0;
    for chunk in image.chunks(4 * 1024 * 1024) {
        target.extend_from_slice(chunk);
        match session.step(FlashEvent::Written(chunk.len() as u64)) {
            Some(DownloadFlashingStatus::FlashingProgress { done, total }) => {
                let p = done as f64 / total as f64;
                assert!(p >= last && p > 0.0 && p <= 1.0);
                last = p;
                seen += 1;
            }
            other => panic!("unexpected status {other:?}"),
        }
    }
    session.step(FlashEvent::Finished);
    assert_eq!(seen, 25);
    assert_eq!(last, 1.0);
    assert_eq!(session.result(), Some(Ok(())));
    assert_eq!(target, image);
}

#[test]
fn first_background_failure_wins() {
    let r = vec![Ok(()), Err("bad hash".to_string()), Err("late".to_string())];
    assert_eq!(first_failure(&r), (Err("bad hash".to_string()), 1));
    assert_eq!(first_failure(&vec![Ok(()), Ok(())]), (Ok(()), 2));
    assert_eq!(first_failure(&Vec::new()), (Ok(()), 0));
}

#[test]
fn remote_image_resolution() {
    let img = RemoteImage::new("OS".to_string(), "https://example.com/os/image.img.xz".to_string(), [7; 32], 4096);
    assert_eq!(img.file_name().as_deref(), Some("image.img.xz"));
    let hit = img.resolve_plan(CacheCheck { state: CacheState::Hit, path: "/c/x".to_string() });
    assert!(matches!(hit, ResolvePlan::Open { ref path, size: Some(4096) } if path == "/c/x"));
    let miss = img.resolve_plan(CacheCheck { state: CacheState::Corrupt, path: "/c/x".to_string() });
    assert!(matches!(miss, ResolvePlan::Stream { ref url, sha256, size: 4096 } if url == "https://example.com/os/image.img.xz" && sha256 == [7; 32]));
}

#[test]
fn sd_devices_filtering() {
    let mut usb = DeviceDescriptor::default();
    usb.description = "Card".to_string();
    usb.raw = "/dev/sdb".to_string();
    usb.size = Some(32);
    usb.is_removable = true;
    let mut fixed = DeviceDescriptor::default();
    fixed.raw = "/dev/sda".to_string();
    let mut virt = DeviceDescriptor::default();
    virt.raw = "/dev/loop0".to_string();
    virt.is_removable = true;
    virt.is_virtual = true;
    let all = vec![fixed, usb, virt];
    let kept = devices(&all, true);
    assert_eq!(kept.len(), 1);
    assert_eq!((kept[0].name.as_str(), kept[0].path.as_str(), kept[0].size), ("Card", "/dev/sdb", 32));
    let every = devices(&all, false);
    assert_eq!(every.len(), 3);
    assert_eq!(every[0].size, 0);
    let targets: Vec<Target> = every.into_iter().map(|device| Target { device }).collect();
    let t = Target::find(&targets, "/dev/loop0").unwrap();
    assert_eq!(t.device.name, "");
    assert_eq!(t.size(), 0);
    let u = Target::find(&targets, "/dev/sdb").unwrap();
    assert_eq!((u.device.name.as_str(), u.size()), ("Card", 32));
    assert_eq!(t.identifier(), "/dev/loop0");
    assert_eq!(t.path(), "/dev/loop0");
    assert!(Target::find(&targets, "/dev/sdz").is_none());
    assert_eq!(FormatFlasher::new(t).path, "/dev/loop0");
}

#[test]
fn boot_partition_selection() {
    let p1 = GptPartition { first_lba: 34, last_lba: 2047 };
    let p2 = GptPartition { first_lba: 2048, last_lba: 4095 };
    assert_eq!(gpt_boot_partition(&vec![(1, p1), (2, p2)]), Some(p2));
    assert_eq!(gpt_boot_partition(&vec![(1, p1)]), None);
    assert_eq!(mbr_boot_entry(&mbr_sector(0x80, 63, 100)), Some(MbrEntry { starting_lba: 63, sectors: 100 }));
    assert_eq!(mbr_boot_entry(&[0u8; 512]), None);
}
