//! Post-install customization of an SD card image: validation, and the files
//! that each of the two customization schemes writes to the boot partition.
use vstd::prelude::*;

use crate::text::{clone_opt, str_eq};

verus! {

/// Post-install customization options, in one of two schemes.
#[derive(Clone, Debug, PartialEq, Eq, Hash)]
pub enum Customization {
    Sysconf(SysconfCustomization),
    Raspberry(RaspberryCustomization),
}

/// Options of the structured scheme, written to `custom.toml`.
#[derive(Clone, Debug, Default, PartialEq, Eq, Hash)]
pub struct RaspberryCustomization {
    pub system: Option<RaspberrySystem>,
    pub user: Option<RaspberryUser>,
    pub ssh: Option<RaspberrySsh>,
    pub wlan: Option<RaspberryWlan>,
    pub locale: Option<RaspberryLocale>,
}

#[derive(Clone, Debug, Default, PartialEq, Eq, Hash)]
pub struct RaspberrySystem {
    pub hostname: Option<String>,
}

#[derive(Clone, Debug, Default, PartialEq, Eq, Hash)]
pub struct RaspberryUser {
    pub name: Option<String>,
    pub password: Option<String>,
    pub password_encrypted: Option<bool>,
}

#[derive(Clone, Debug, Default, PartialEq, Eq, Hash)]
pub struct RaspberrySsh {
    pub enabled: Option<bool>,
    pub password_authentication: Option<bool>,
    pub authorized_keys: Option<Vec<String>>,
    pub ssh_import_id: Option<String>,
}

#[derive(Clone, Debug, Default, PartialEq, Eq, Hash)]
pub struct RaspberryWlan {
    pub ssid: Option<String>,
    pub password: Option<String>,
    pub password_encrypted: Option<bool>,
    pub hidden: Option<bool>,
    pub country: Option<String>,
}

#[derive(Clone, Debug, Default, PartialEq, Eq, Hash)]
pub struct RaspberryLocale {
    pub keymap: Option<String>,
    pub timezone: Option<String>,
}

/// Options of the line-oriented scheme, written to `sysconf.txt`.
#[derive(Clone, Debug, Default, PartialEq, Eq, Hash)]
pub struct SysconfCustomization {
    pub hostname: Option<String>,
    pub timezone: Option<String>,
    pub keymap: Option<String>,
    /// User name and password.
    pub user: Option<(String, String)>,
    /// Wi-Fi SSID and passphrase.
    pub wifi: Option<(String, String)>,
    /// An SSH authorized key.
    pub ssh: Option<String>,
    pub usb_enable_dhcp: Option<bool>,
}

/// A file to write to the boot partition. The file is created where missing
/// and never truncated: `contents` goes after what it already holds.
#[derive(Clone, Debug)]
pub struct FileWrite {
    pub path: String,
    pub contents: String,
}

/// The user name that no customization may set.
pub open spec fn is_root(name: Seq<char>) -> bool {
    name == "root"@
}

/// `key=value` and a line feed.
pub open spec fn spec_line(key: Seq<char>, value: Seq<char>) -> Seq<char> {
    key + "="@ + value + "\n"@
}

/// The line for an optional value; nothing where it is absent.
pub open spec fn spec_opt_line(key: Seq<char>, value: Option<String>) -> Seq<char> {
    match value {
        Some(v) => spec_line(key, v@),
        None => Seq::empty(),
    }
}

/// The name of the network profile written for an SSID.
pub open spec fn spec_psk_name(ssid: Seq<char>) -> Seq<char> {
    ssid + ".psk"@
}

/// The contents of the network profile for a passphrase.
pub open spec fn spec_psk_contents(psk: Seq<char>) -> Seq<char> {
    "[Security]\nPassphrase="@ + psk + "\n\n[Settings]\nAutoConnect=true"@
}

/// The first line of `custom.toml`, and the blank line after it.
pub open spec fn toml_header() -> Seq<char> {
    "config_version = 1\n\n"@
}

/// `files` is the single `custom.toml`: the version header, then `serialized`.
pub open spec fn spec_toml_files(serialized: Seq<char>, files: Seq<FileWrite>) -> bool {
    &&& files.len() == 1
    &&& files[0].path@ == "custom.toml"@
    &&& files[0].contents@ == toml_header() + serialized
}

impl SysconfCustomization {
    pub open spec fn spec_valid(&self) -> bool {
        match self.user {
            Some(u) => !is_root(u.0@),
            None => true,
        }
    }

    pub open spec fn spec_has_customization(&self) -> bool {
        self.hostname is Some || self.timezone is Some || self.keymap is Some || self.user is Some
            || self.wifi is Some || self.ssh is Some || self.usb_enable_dhcp == Some(true)
    }

    pub open spec fn spec_user_lines(&self) -> Seq<char> {
        match self.user {
            Some(u) => spec_line("user_name"@, u.0@) + spec_line("user_password"@, u.1@),
            None => Seq::empty(),
        }
    }

    pub open spec fn spec_dhcp_line(&self) -> Seq<char> {
        if self.usb_enable_dhcp == Some(true) {
            spec_line("usb_enable_dhcp"@, "yes"@)
        } else {
            Seq::empty()
        }
    }

    pub open spec fn spec_wifi_line(&self) -> Seq<char> {
        match self.wifi {
            Some(w) => spec_line("iwd_psk_file"@, spec_psk_name(w.0@)),
            None => Seq::empty(),
        }
    }

    /// The lines appended to `sysconf.txt`, in order.
    pub open spec fn spec_sysconf_text(&self) -> Seq<char> {
        spec_opt_line("hostname"@, self.hostname) + spec_opt_line("timezone"@, self.timezone)
            + spec_opt_line("keymap"@, self.keymap) + self.spec_user_lines() + spec_opt_line(
            "user_authorized_key"@,
            self.ssh,
        ) + self.spec_dhcp_line() + self.spec_wifi_line()
    }

    /// `files` are what this customization writes when some option is set:
    /// `sysconf.txt`, then the network profile where Wi-Fi credentials are given.
    pub open spec fn spec_files(&self, files: Seq<FileWrite>) -> bool {
        &&& files.len() == if self.wifi is Some {
            2int
        } else {
            1int
        }
        &&& files[0].path@ == "sysconf.txt"@
        &&& files[0].contents@ == self.spec_sysconf_text()
        &&& self.wifi matches Some(w) ==> files[1].path@ == "services/"@ + spec_psk_name(w.0@)
            && files[1].contents@ == spec_psk_contents(w.1@)
    }

    /// The user name is not `root`.
    pub fn validate(&self) -> (r: bool)
        ensures
            r == self.spec_valid(),
    {
        match &self.user {
            Some(u) => !str_eq(u.0.as_str(), "root"),
            None => true,
        }
    }

    /// Whether any option is set that writes something.
    pub fn has_customization(&self) -> (r: bool)
        ensures
            r == self.spec_has_customization(),
    {
        self.hostname.is_some() || self.timezone.is_some() || self.keymap.is_some()
            || self.user.is_some() || self.wifi.is_some() || self.ssh.is_some()
            || self.usb_enable_dhcp == Some(true)
    }

    /// The lines this customization appends to `sysconf.txt`.
    pub fn sysconf_text(&self) -> (r: String)
        ensures
            r@ == self.spec_sysconf_text(),
    {
        let mut r = String::new();
        let ghost t = Seq::<char>::empty();
        if let Some(h) = &self.hostname {
            sysconf_w(&mut r, "hostname", h.as_str());
        }
        proof {
            t = t + spec_opt_line("hostname"@, self.hostname);
        }
        assert(r@ =~= t);
        if let Some(tz) = &self.timezone {
            sysconf_w(&mut r, "timezone", tz.as_str());
        }
        proof {
            t = t + spec_opt_line("timezone"@, self.timezone);
        }
        assert(r@ =~= t);
        if let Some(k) = &self.keymap {
            sysconf_w(&mut r, "keymap", k.as_str());
        }
        proof {
            t = t + spec_opt_line("keymap"@, self.keymap);
        }
        assert(r@ =~= t);
        if let Some(u) = &self.user {
            sysconf_w(&mut r, "user_name", u.0.as_str());
            sysconf_w(&mut r, "user_password", u.1.as_str());
        }
        proof {
            t = t + self.spec_user_lines();
        }
        assert(r@ =~= t);
        if let Some(x) = &self.ssh {
            sysconf_w(&mut r, "user_authorized_key", x.as_str());
        }
        proof {
            t = t + spec_opt_line("user_authorized_key"@, self.ssh);
        }
        assert(r@ =~= t);
        if self.usb_enable_dhcp == Some(true) {
            sysconf_w(&mut r, "usb_enable_dhcp", "yes");
        }
        proof {
            t = t + self.spec_dhcp_line();
        }
        assert(r@ =~= t);
        if let Some(w) = &self.wifi {
            let name = psk_file_name(w.0.as_str());
            sysconf_w(&mut r, "iwd_psk_file", name.as_str());
        }
        proof {
            t = t + self.spec_wifi_line();
        }
        assert(r@ =~= t);
        r
    }

    /// The files this customization writes: nothing where no option is set;
    /// else `sysconf.txt`, then the network profile under `services/` where
    /// Wi-Fi credentials are given.
    pub fn files(&self) -> (r: Vec<FileWrite>)
        ensures
            !self.spec_has_customization() ==> r@.len() == 0,
            self.spec_has_customization() ==> self.spec_files(r@),
    {
        let mut r: Vec<FileWrite> = Vec::new();
        if !self.has_customization() {
            return r;
        }
        r.push(FileWrite { path: String::from_str("sysconf.txt"), contents: self.sysconf_text() });
        if let Some(w) = &self.wifi {
            let mut path = String::from_str("services/");
            let name = psk_file_name(w.0.as_str());
            path.append(name.as_str());
            let mut contents = String::from_str("[Security]\nPassphrase=");
            contents.append(w.1.as_str());
            contents.append("\n\n[Settings]\nAutoConnect=true");
            r.push(FileWrite { path, contents });
        }
        r
    }
}

/// Appends `key=value` and a line feed to `out`.
pub fn sysconf_w(out: &mut String, key: &str, value: &str)
    ensures
        final(out)@ == old(out)@ + spec_line(key@, value@),
{
    out.append(key);
    out.append("=");
    out.append(value);
    out.append("\n");
    assert(final(out)@ =~= old(out)@ + spec_line(key@, value@));
}

/// `<ssid>.psk`.
fn psk_file_name(ssid: &str) -> (r: String)
    ensures
        r@ == spec_psk_name(ssid@),
{
    let mut r = String::from_str(ssid);
    r.append(".psk");
    r
}

impl RaspberryCustomization {
    pub open spec fn spec_valid(&self) -> bool {
        !(self.user matches Some(u) && u.name matches Some(n) && is_root(n@))
    }

    /// The user name, where one is set, is not `root`.
    pub fn validate(&self) -> (r: bool)
        ensures
            r == self.spec_valid(),
    {
        match &self.user {
            Some(u) => match &u.name {
                Some(n) => !str_eq(n.as_str(), "root"),
                None => true,
            },
            None => true,
        }
    }

    /// The file this customization writes: `custom.toml`, with the version
    /// header followed by `serialized`, the TOML serialization of `self`.
    pub fn files(&self, serialized: &str) -> (r: Vec<FileWrite>)
        ensures
            spec_toml_files(serialized@, r@),
    {
        let mut contents = String::from_str("config_version = 1\n\n");
        contents.append(serialized);
        let mut r: Vec<FileWrite> = Vec::new();
        r.push(FileWrite { path: String::from_str("custom.toml"), contents });
        r
    }
}

impl Customization {
    pub open spec fn spec_valid(&self) -> bool {
        match self {
            Customization::Sysconf(x) => x.spec_valid(),
            Customization::Raspberry(x) => x.spec_valid(),
        }
    }

    /// Whether the options may be applied: no scheme accepts the user `root`.
    pub fn validate(&self) -> (r: bool)
        ensures
            r == self.spec_valid(),
    {
        match self {
            Customization::Sysconf(x) => x.validate(),
            Customization::Raspberry(x) => x.validate(),
        }
    }
}

/// For both schemes, a user named `root` fails validation.
pub proof fn lemma_root_user_rejected(c: Customization)
    requires
        match c {
            Customization::Sysconf(x) => x.user matches Some(u) && is_root(u.0@),
            Customization::Raspberry(x) => x.user matches Some(u) && u.name matches Some(n)
                && is_root(n@),
        },
    ensures
        !c.spec_valid(),
{
}

/// With Wi-Fi credentials, a customization writes `sysconf.txt` ending in the
/// line that names the network profile `<ssid>.psk`, and writes that profile
/// under `services/` with the passphrase.
pub proof fn lemma_wifi_profile_referenced(c: SysconfCustomization, files: Seq<FileWrite>)
    requires
        c.wifi is Some,
        c.spec_has_customization() ==> c.spec_files(files),
    ensures
        c.spec_has_customization(),
        files.len() == 2,
        files[0].path@ == "sysconf.txt"@,
        files[0].contents@.len() >= spec_line("iwd_psk_file"@, spec_psk_name(c.wifi.unwrap().0@)).len(),
        files[0].contents@.subrange(
            files[0].contents@.len() - spec_line(
                "iwd_psk_file"@,
                spec_psk_name(c.wifi.unwrap().0@),
            ).len(),
            files[0].contents@.len() as int,
        ) == spec_line("iwd_psk_file"@, spec_psk_name(c.wifi.unwrap().0@)),
        files[1].path@ == "services/"@ + spec_psk_name(c.wifi.unwrap().0@),
        files[1].contents@ == spec_psk_contents(c.wifi.unwrap().1@),
{
    let l = spec_line("iwd_psk_file"@, spec_psk_name(c.wifi.unwrap().0@));
    let t = c.spec_sysconf_text();
    assert(t.subrange(t.len() - l.len(), t.len() as int) =~= l);
}

} // verus!
