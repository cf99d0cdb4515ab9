//! Customization choices a front end keeps between sessions, and their
//! conversion into flasher configuration.
use vstd::prelude::*;

use crate::sd::FlashingSdLinuxConfig;
use crate::customization::{Customization, SysconfCustomization};
use crate::text::str_eq;

verus! {

/// A user account to create on the image.
#[derive(Clone, Debug)]
pub struct SdCustomizationUser {
    pub username: String,
    pub password: String,
}

impl SdCustomizationUser {
    pub fn new(username: String, password: String) -> (r: Self)
        ensures
            r.username == username,
            r.password == password,
    {
        SdCustomizationUser { username, password }
    }

    pub fn update_username(self, t: String) -> (r: Self)
        ensures
            r.username == t,
            r.password == self.password,
    {
        SdCustomizationUser { username: t, ..self }
    }

    pub fn update_password(self, t: String) -> (r: Self)
        ensures
            r.username == self.username,
            r.password == t,
    {
        SdCustomizationUser { password: t, ..self }
    }

    /// The user name is not `root`.
    pub fn validate_username(&self) -> (r: bool)
        ensures
            r == (self.username@ != "root"@),
    {
        !str_eq(self.username.as_str(), "root")
    }
}

/// Wi-Fi credentials.
#[derive(Clone, Debug, Default)]
pub struct SdCustomizationWifi {
    pub ssid: String,
    pub password: String,
}

impl SdCustomizationWifi {
    pub fn update_ssid(self, t: String) -> (r: Self)
        ensures
            r.ssid == t,
            r.password == self.password,
    {
        SdCustomizationWifi { ssid: t, ..self }
    }

    pub fn update_password(self, t: String) -> (r: Self)
        ensures
            r.ssid == self.ssid,
            r.password == t,
    {
        SdCustomizationWifi { password: t, ..self }
    }
}

/// Kept choices of the line-oriented SD card customization.
#[derive(Clone, Debug, Default)]
pub struct SdSysconfCustomization {
    pub hostname: Option<String>,
    pub timezone: Option<String>,
    pub keymap: Option<String>,
    pub user: Option<SdCustomizationUser>,
    pub wifi: Option<SdCustomizationWifi>,
    pub ssh: Option<String>,
    pub usb_enable_dhcp: Option<bool>,
}

impl SdSysconfCustomization {
    pub fn update_hostname(self, t: Option<String>) -> (r: Self)
        ensures
            r == (SdSysconfCustomization { hostname: t, ..self }),
    {
        SdSysconfCustomization { hostname: t, ..self }
    }

    pub fn update_timezone(self, t: Option<String>) -> (r: Self)
        ensures
            r == (SdSysconfCustomization { timezone: t, ..self }),
    {
        SdSysconfCustomization { timezone: t, ..self }
    }

    pub fn update_keymap(self, t: Option<String>) -> (r: Self)
        ensures
            r == (SdSysconfCustomization { keymap: t, ..self }),
    {
        SdSysconfCustomization { keymap: t, ..self }
    }

    pub fn update_user(self, t: Option<SdCustomizationUser>) -> (r: Self)
        ensures
            r == (SdSysconfCustomization { user: t, ..self }),
    {
        SdSysconfCustomization { user: t, ..self }
    }

    pub fn update_wifi(self, t: Option<SdCustomizationWifi>) -> (r: Self)
        ensures
            r == (SdSysconfCustomization { wifi: t, ..self }),
    {
        SdSysconfCustomization { wifi: t, ..self }
    }

    pub fn update_ssh(self, t: Option<String>) -> (r: Self)
        ensures
            r == (SdSysconfCustomization { ssh: t, ..self }),
    {
        SdSysconfCustomization { ssh: t, ..self }
    }

    pub fn update_usb_enable_dhcp(self, t: Option<bool>) -> (r: Self)
        ensures
            r == (SdSysconfCustomization { usb_enable_dhcp: t, ..self }),
    {
        SdSysconfCustomization { usb_enable_dhcp: t, ..self }
    }

    /// No user is set, or the one set is not `root`.
    pub fn validate_user(&self) -> (r: bool)
        ensures
            r == (self.user matches Some(u) ==> u.username@ != "root"@),
    {
        match &self.user {
            Some(x) => x.validate_username(),
            None => true,
        }
    }

    /// The flasher configuration these choices make.
    pub fn into_config(self) -> (r: FlashingSdLinuxConfig)
        ensures
            r.customization matches Some(Customization::Sysconf(c)) && c == (SysconfCustomization {
                hostname: self.hostname,
                timezone: self.timezone,
                keymap: self.keymap,
                user: match self.user {
                    Some(u) => Some((u.username, u.password)),
                    None => None,
                },
                wifi: match self.wifi {
                    Some(w) => Some((w.ssid, w.password)),
                    None => None,
                },
                ssh: self.ssh,
                usb_enable_dhcp: self.usb_enable_dhcp,
            }),
    {
        let user = match self.user {
            Some(u) => Some((u.username, u.password)),
            None => None,
        };
        let wifi = match self.wifi {
            Some(w) => Some((w.ssid, w.password)),
            None => None,
        };
        FlashingSdLinuxConfig::sysconfig(
            self.hostname,
            self.timezone,
            self.keymap,
            user,
            wifi,
            self.ssh,
            self.usb_enable_dhcp,
        )
    }
}

/// Kept SD card customization.
#[derive(Clone, Debug, Default)]
pub struct SdCustomization {
    pub sysconf: Option<SdSysconfCustomization>,
}

impl SdCustomization {
    pub fn sysconf_customization(&self) -> (r: Option<&SdSysconfCustomization>)
        ensures
            r matches Some(x) ==> self.sysconf == Some(*x),
            r is None ==> self.sysconf is None,
    {
        self.sysconf.as_ref()
    }

    pub fn update_sysconfig(&mut self, t: SdSysconfCustomization)
        ensures
            final(self).sysconf == Some(t),
    {
        self.sysconf = Some(t);
    }
}

/// Kept BeagleConnect Freedom customization: whether to verify after flashing.
#[derive(Clone, Debug)]
pub struct BcfCustomization {
    pub verify: bool,
}

impl BcfCustomization {
    pub fn update_verify(self, t: bool) -> (r: Self)
        ensures
            r.verify == t,
    {
        BcfCustomization { verify: t }
    }
}

impl Default for BcfCustomization {
    fn default() -> (r: Self)
        ensures
            r.verify,
    {
        BcfCustomization { verify: true }
    }
}

/// Kept PocketBeagle 2 MSPM0 customization: whether to keep the EEPROM.
#[derive(Clone, Debug)]
pub struct Pb2Mspm0Customization {
    pub persist_eeprom: bool,
}

impl Pb2Mspm0Customization {
    pub fn update_persist_eeprom(self, t: bool) -> (r: Self)
        ensures
            r.persist_eeprom == t,
    {
        Pb2Mspm0Customization { persist_eeprom: t }
    }
}

impl Default for Pb2Mspm0Customization {
    fn default() -> (r: Self)
        ensures
            r.persist_eeprom,
    {
        Pb2Mspm0Customization { persist_eeprom: true }
    }
}

/// Everything a front end keeps between sessions.
#[derive(Clone, Debug, Default)]
pub struct GuiConfiguration {
    pub sd_customization: Option<SdCustomization>,
    pub bcf_customization: Option<BcfCustomization>,
    pub pb2_mspm0_customization: Option<Pb2Mspm0Customization>,
}

impl GuiConfiguration {
    pub fn sd_customization(&self) -> (r: Option<&SdCustomization>)
        ensures
            r matches Some(x) ==> self.sd_customization == Some(*x),
            r is None ==> self.sd_customization is None,
    {
        self.sd_customization.as_ref()
    }

    pub fn bcf_customization(&self) -> (r: Option<&BcfCustomization>)
        ensures
            r matches Some(x) ==> self.bcf_customization == Some(*x),
            r is None ==> self.bcf_customization is None,
    {
        self.bcf_customization.as_ref()
    }

    pub fn pb2_mspm0_customization(&self) -> (r: Option<&Pb2Mspm0Customization>)
        ensures
            r matches Some(x) ==> self.pb2_mspm0_customization == Some(*x),
            r is None ==> self.pb2_mspm0_customization is None,
    {
        self.pb2_mspm0_customization.as_ref()
    }

    pub fn update_sd_customization(&mut self, t: SdCustomization)
        ensures
            final(self).sd_customization == Some(t),
            final(self).bcf_customization == old(self).bcf_customization,
            final(self).pb2_mspm0_customization == old(self).pb2_mspm0_customization,
    {
        self.sd_customization = Some(t);
    }

    pub fn update_bcf_customization(&mut self, t: BcfCustomization)
        ensures
            final(self).bcf_customization == Some(t),
            final(self).sd_customization == old(self).sd_customization,
            final(self).pb2_mspm0_customization == old(self).pb2_mspm0_customization,
    {
        self.bcf_customization = Some(t);
    }
}

/// The customization chosen for one flashing run.
#[derive(Clone, Debug)]
pub enum FlashingCustomization {
    NoneSd,
    LinuxSdSysconfig(SdSysconfCustomization),
    Bcf(BcfCustomization),
    Msp430,
    Pb2Mspm0(Pb2Mspm0Customization),
}

impl FlashingCustomization {
    /// Back to the defaults of the same kind.
    pub fn reset(&mut self)
        ensures
            match *old(self) {
                FlashingCustomization::LinuxSdSysconfig(_) => *final(self) matches FlashingCustomization::LinuxSdSysconfig(c)
                    && c.hostname is None && c.timezone is None && c.keymap is None && c.user is None
                    && c.wifi is None && c.ssh is None && c.usb_enable_dhcp is None,
                FlashingCustomization::Bcf(_) => *final(self) matches FlashingCustomization::Bcf(c) && c.verify,
                FlashingCustomization::Pb2Mspm0(_) => *final(self) matches FlashingCustomization::Pb2Mspm0(c)
                    && c.persist_eeprom,
                _ => *final(self) == *old(self),
            },
    {
        match self {
            FlashingCustomization::LinuxSdSysconfig(_) => {
                *self = FlashingCustomization::LinuxSdSysconfig(
                    SdSysconfCustomization {
                        hostname: None,
                        timezone: None,
                        keymap: None,
                        user: None,
                        wifi: None,
                        ssh: None,
                        usb_enable_dhcp: None,
                    },
                );
            },
            FlashingCustomization::Bcf(_) => {
                *self = FlashingCustomization::Bcf(BcfCustomization { verify: true });
            },
            FlashingCustomization::Pb2Mspm0(_) => {
                *self = FlashingCustomization::Pb2Mspm0(Pb2Mspm0Customization { persist_eeprom: true });
            },
            _ => {},
        }
    }

    /// Whether the chosen customization may be applied.
    pub fn validate(&self) -> (r: bool)
        ensures
            r == (self matches FlashingCustomization::LinuxSdSysconfig(c) ==> (c.user matches Some(
                u,
            ) ==> u.username@ != "root"@)),
    {
        match self {
            FlashingCustomization::LinuxSdSysconfig(c) => c.validate_user(),
            _ => true,
        }
    }
}

} // verus!
