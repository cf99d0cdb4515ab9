//! The capabilities every kind of flashing destination shares, and the
//! destinations of the microcontroller flashers.
use vstd::prelude::*;

use crate::config::{spec_file_types, Flasher};

verus! {

/// A kind of flashing destination.
pub trait BBFlasherTarget: Sized {
    /// The image file extensions this destination accepts.
    spec fn spec_file_types() -> Seq<Seq<char>>;

    /// Whether the user picks the destination.
    spec fn spec_selectable() -> bool;

    /// The stable identifier that names this destination in scripts.
    spec fn spec_identifier(&self) -> Seq<char>;

    /// The image file extensions this destination accepts.
    fn file_types() -> (r: Vec<&'static str>)
        ensures
            r@.len() == Self::spec_file_types().len(),
            forall|i: int| 0 <= i < r@.len() ==> (#[trigger] r@[i])@ == Self::spec_file_types()[i],
    ;

    /// Whether the user picks the destination.
    fn is_destination_selectable() -> (r: bool)
        ensures
            r == Self::spec_selectable(),
    ;

    /// The stable identifier that names this destination in scripts.
    fn identifier(&self) -> (r: String)
        ensures
            r@ == self.spec_identifier(),
    ;
}

impl BBFlasherTarget for crate::sd::Target {
    open spec fn spec_file_types() -> Seq<Seq<char>> {
        spec_file_types(Flasher::SdCard)
    }

    open spec fn spec_selectable() -> bool {
        true
    }

    open spec fn spec_identifier(&self) -> Seq<char> {
        self.device.path@
    }

    fn file_types() -> (r: Vec<&'static str>) {
        Flasher::SdCard.file_types()
    }

    fn is_destination_selectable() -> (r: bool) {
        Flasher::SdCard.is_destination_selectable()
    }

    fn identifier(&self) -> (r: String) {
        self.device.path.clone()
    }
}

impl BBFlasherTarget for crate::dfu::Target {
    open spec fn spec_file_types() -> Seq<Seq<char>> {
        Seq::empty()
    }

    open spec fn spec_selectable() -> bool {
        true
    }

    open spec fn spec_identifier(&self) -> Seq<char> {
        crate::dfu::spec_format_identifier(self.bus_num, self.port_num, self.vendor_id, self.product_id)
    }

    fn file_types() -> (r: Vec<&'static str>) {
        Vec::new()
    }

    fn is_destination_selectable() -> (r: bool) {
        true
    }

    fn identifier(&self) -> (r: String) {
        crate::dfu::Target::identifier(self)
    }
}

/// A BeagleConnect Freedom CC1352P7 serial port.
#[derive(Clone, Debug)]
pub struct Cc1352p7Target {
    pub port: String,
}

impl Cc1352p7Target {
    pub fn path(&self) -> (r: &str)
        ensures
            r@ == self.port@,
    {
        self.port.as_str()
    }
}

impl BBFlasherTarget for Cc1352p7Target {
    open spec fn spec_file_types() -> Seq<Seq<char>> {
        spec_file_types(Flasher::BeagleConnectFreedom)
    }

    open spec fn spec_selectable() -> bool {
        true
    }

    open spec fn spec_identifier(&self) -> Seq<char> {
        self.port@
    }

    fn file_types() -> (r: Vec<&'static str>) {
        Flasher::BeagleConnectFreedom.file_types()
    }

    fn is_destination_selectable() -> (r: bool) {
        Flasher::BeagleConnectFreedom.is_destination_selectable()
    }

    fn identifier(&self) -> (r: String) {
        self.port.clone()
    }
}

/// Flasher of BeagleConnect Freedom CC1352P7 firmware (TI-TXT or iHex,
/// optionally xz-compressed), with optional verification after writing.
pub struct Cc1352p7Flasher<I> {
    pub img: I,
    pub port: String,
    pub verify: bool,
}

impl<I> Cc1352p7Flasher<I> {
    pub fn new(img: I, port: Cc1352p7Target, verify: bool) -> (r: Self)
        ensures
            r.img == img,
            r.port == port.port,
            r.verify == verify,
    {
        Cc1352p7Flasher { img, port: port.port, verify }
    }
}

/// A BeagleConnect Freedom MSP430 USB device.
#[derive(Clone, Debug)]
pub struct Msp430Target {
    pub display_path: String,
}

impl Msp430Target {
    pub fn path(&self) -> (r: &str)
        ensures
            r@ == self.display_path@,
    {
        self.display_path.as_str()
    }
}

impl BBFlasherTarget for Msp430Target {
    open spec fn spec_file_types() -> Seq<Seq<char>> {
        spec_file_types(Flasher::Msp430Usb)
    }

    open spec fn spec_selectable() -> bool {
        true
    }

    open spec fn spec_identifier(&self) -> Seq<char> {
        self.display_path@
    }

    fn file_types() -> (r: Vec<&'static str>) {
        Flasher::Msp430Usb.file_types()
    }

    fn is_destination_selectable() -> (r: bool) {
        true
    }

    fn identifier(&self) -> (r: String) {
        self.display_path.clone()
    }
}

/// Flasher of BeagleConnect Freedom MSP430 firmware.
pub struct Msp430Flasher<I> {
    pub img: I,
    pub port: String,
}

impl<I> Msp430Flasher<I> {
    pub fn new(img: I, port: Msp430Target) -> (r: Self)
        ensures
            r.img == img,
            r.port == port.display_path,
    {
        Msp430Flasher { img, port: port.display_path }
    }
}

/// The MSPM0 of a PocketBeagle 2: the single, fixed destination of its kind.
#[derive(Clone, Debug)]
pub struct Pb2Mspm0Target {
    pub name: String,
    pub path: String,
}

impl BBFlasherTarget for Pb2Mspm0Target {
    open spec fn spec_file_types() -> Seq<Seq<char>> {
        spec_file_types(Flasher::Pb2Mspm0)
    }

    open spec fn spec_selectable() -> bool {
        false
    }

    open spec fn spec_identifier(&self) -> Seq<char> {
        self.path@
    }

    fn file_types() -> (r: Vec<&'static str>) {
        Flasher::Pb2Mspm0.file_types()
    }

    fn is_destination_selectable() -> (r: bool) {
        Flasher::Pb2Mspm0.is_destination_selectable()
    }

    fn identifier(&self) -> (r: String) {
        self.path.clone()
    }
}

/// Flasher of PocketBeagle 2 MSPM0 firmware, optionally keeping its EEPROM.
pub struct Pb2Mspm0Flasher<I> {
    pub img: I,
    pub persist_eeprom: bool,
}

impl<I> Pb2Mspm0Flasher<I> {
    pub fn new(img: I, persist_eeprom: bool) -> (r: Self)
        ensures
            r.img == img,
            r.persist_eeprom == persist_eeprom,
    {
        Pb2Mspm0Flasher { img, persist_eeprom }
    }
}

} // verus!
