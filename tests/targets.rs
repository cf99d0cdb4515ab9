use bb_imager::sd::{Device, Target as SdTarget};
use bb_imager::target::{
    BBFlasherTarget, Cc1352p7Flasher, Cc1352p7Target, Msp430Flasher, Msp430Target, Pb2Mspm0Flasher,
    Pb2Mspm0Target,
};
use bb_imager::config::{Flasher, InitFormat};
use bb_imager::dfu::{self, parse_hex, split_colons, trim, IdentifierError};
use bb_imager::error::Error;
use bb_imager::settings::{
    BcfCustomization, FlashingCustomization, GuiConfiguration, Pb2Mspm0Customization, SdCustomization,
    SdCustomizationUser, SdCustomizationWifi, SdSysconfCustomization,
};
use bb_imager::customization::Customization;

#[test]
fn dfu_identifier_format() {
    let t = dfu::Target { name: "dev".to_string(), bus_num: 1, port_num: 0x1a, vendor_id: 0x1d50, product_id: 0x6089 };
    assert_eq!(t.identifier(), "01:1a:1d50:6089");
    assert_eq!((t.bus_number(), t.port_num(), t.vendor_id(), t.product_id()), (1, 0x1a, 0x1d50, 0x6089));
}

#[test]
fn dfu_identifier_parse() {
    let f = dfu::Flasher::<u8>::from_identifier(vec![("a".to_string(), 1)], " 01 : 1A:1d50:\t+6089 ").ok().unwrap();
    assert_eq!((f.bus_num, f.port_num, f.vendor_id, f.product_id), (1, 0x1a, 0x1d50, 0x6089));
    assert_eq!(f.imgs.len(), 1);
    let e = |s: &str| dfu::Flasher::<u8>::from_identifier(Vec::new(), s).err().unwrap();
    assert_eq!(e("01:02:0003"), IdentifierError::InvalidIdentifier);
    assert_eq!(e("01:02:0003:0004:5"), IdentifierError::InvalidIdentifier);
    assert_eq!(e("100:02:0003:0004"), IdentifierError::InvalidBusNumber);
    assert_eq!(e("01::0003:0004"), IdentifierError::InvalidAddress);
    assert_eq!(e("01:02:10000:0004"), IdentifierError::InvalidVendorId);
    assert_eq!(e("01:02:0003:g"), IdentifierError::InvalidProductId);
}

#[test]
fn text_helpers() {
    assert_eq!(split_colons("a::b"), vec!["a".to_string(), String::new(), "b".to_string()]);
    assert_eq!(split_colons(""), vec![String::new()]);
    assert_eq!(trim("\u{3000} x y \n"), "x y");
    assert_eq!(parse_hex("ff", 255), Some(255));
    assert_eq!(parse_hex("FF", 255), Some(255));
    assert_eq!(parse_hex("100", 255), None);
    assert_eq!(parse_hex("-1", 255), None);
}

#[test]
fn flasher_file_types() {
    assert_eq!(Flasher::SdCard.file_types(), vec!["img", "xz"]);
    assert_eq!(Flasher::BeagleConnectFreedom.file_types(), vec!["bin", "hex", "txt", "xz"]);
    assert_eq!(Flasher::Pb2Mspm0.file_types(), vec!["hex", "txt", "xz"]);
    assert!(!Flasher::Pb2Mspm0.is_destination_selectable());
    assert!(Flasher::SdCard.is_destination_selectable());
    assert_eq!(Flasher::default(), Flasher::SdCard);
    assert_eq!(InitFormat::default(), InitFormat::NoCustomization);
}

#[test]
fn error_messages() {
    assert_eq!(Error::InvalidPartitionTable.message(), "Partition table of image not valid.");
    assert_eq!(Error::Aborted.message(), "Aborted before completing.");
    assert_eq!(
        Error::SysconfWriteFail { field: "hostname".to_string() }.message(),
        "Failed to write hostname to sysconf.txt."
    );
}

#[test]
fn kept_settings_round_trip() {
    let user = SdCustomizationUser::new("root".to_string(), String::new()).update_password("pw".to_string());
    assert!(!user.validate_username());
    let user = user.update_username("debian".to_string());
    assert!(user.validate_username());
    let wifi = SdCustomizationWifi::default().update_ssid("Net".to_string()).update_password("pass".to_string());
    let s = SdSysconfCustomization::default()
        .update_hostname(Some("bb".to_string()))
        .update_timezone(Some("UTC".to_string()))
        .update_keymap(None)
        .update_user(Some(user))
        .update_wifi(Some(wifi))
        .update_ssh(None)
        .update_usb_enable_dhcp(Some(true));
    assert!(s.validate_user());
    let mut sd = SdCustomization::default();
    sd.update_sysconfig(s.clone());
    assert_eq!(sd.sysconf_customization().unwrap().hostname.as_deref(), Some("bb"));
    let mut gui = GuiConfiguration::default();
    gui.update_sd_customization(sd);
    gui.update_bcf_customization(BcfCustomization::default().update_verify(false));
    assert!(gui.sd_customization().is_some());
    assert!(!gui.bcf_customization().unwrap().verify);
    assert!(gui.pb2_mspm0_customization().is_none());
    assert!(Pb2Mspm0Customization::default().persist_eeprom);
    assert!(!Pb2Mspm0Customization::default().update_persist_eeprom(false).persist_eeprom);
    match s.into_config().customization {
        Some(Customization::Sysconf(c)) => {
            assert_eq!(c.user, Some(("debian".to_string(), "pw".to_string())));
            assert_eq!(c.wifi, Some(("Net".to_string(), "pass".to_string())));
            assert_eq!(c.usb_enable_dhcp, Some(true));
        }
        _ => panic!("expected sysconf customization"),
    }
}

#[test]
fn flashing_customization_reset_and_validate() {
    let root = SdSysconfCustomization::default()
        .update_user(Some(SdCustomizationUser::new("root".to_string(), "x".to_string())));
    let mut c = FlashingCustomization::LinuxSdSysconfig(root);
    assert!(!c.validate());
    c.reset();
    assert!(c.validate());
    let mut b = FlashingCustomization::Bcf(BcfCustomization { verify: false });
    b.reset();
    assert!(matches!(b, FlashingCustomization::Bcf(BcfCustomization { verify: true })));
    assert!(FlashingCustomization::Msp430.validate());
}

#[test]
fn destinations_share_one_contract() {
    let sd = SdTarget { device: Device { name: "c".to_string(), path: "/dev/sdb".to_string(), size: 1 } };
    assert_eq!(BBFlasherTarget::identifier(&sd), "/dev/sdb");
    assert_eq!(<SdTarget as BBFlasherTarget>::file_types(), vec!["img", "xz"]);
    let d = dfu::Target { name: "d".to_string(), bus_num: 3, port_num: 4, vendor_id: 5, product_id: 6 };
    assert_eq!(BBFlasherTarget::identifier(&d), "03:04:0005:0006");
    assert!(<dfu::Target as BBFlasherTarget>::file_types().is_empty());
    let bcf = Cc1352p7Target { port: "/dev/ttyACM0".to_string() };
    assert_eq!(bcf.path(), "/dev/ttyACM0");
    assert_eq!(<Cc1352p7Target as BBFlasherTarget>::file_types(), vec!["bin", "hex", "txt", "xz"]);
    let f = Cc1352p7Flasher::new((), bcf, true);
    assert!(f.verify && f.port == "/dev/ttyACM0");
    let msp = Msp430Target { display_path: "/dev/hidraw0".to_string() };
    assert_eq!(BBFlasherTarget::identifier(&msp), "/dev/hidraw0");
    assert_eq!(Msp430Flasher::new((), msp).port, "/dev/hidraw0");
    let pb2 = Pb2Mspm0Target { name: "MSPM0".to_string(), path: "/dev/i2c-2".to_string() };
    assert!(!<Pb2Mspm0Target as BBFlasherTarget>::is_destination_selectable());
    assert!(<Msp430Target as BBFlasherTarget>::is_destination_selectable());
    assert_eq!(BBFlasherTarget::identifier(&pb2), "/dev/i2c-2");
    assert!(!Pb2Mspm0Flasher::new((), false).persist_eeprom);
}
