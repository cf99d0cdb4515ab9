//! The kinds of flashers, and what each one accepts.
use vstd::prelude::*;

verus! {

/// Customization initialization formats of an OS image.
#[derive(Clone, Copy, Debug, PartialEq, Eq, Structural, Default)]
pub enum InitFormat {
    /// No customization
    #[default]
    NoCustomization,
    /// Sysconfig based customization
    Sysconf,
    /// Armbian based customization
    Armbian,
}

/// The kinds of flashers an OS image can need.
#[derive(Clone, Copy, Debug, PartialEq, Eq, Structural, Hash, Default)]
pub enum Flasher {
    /// Image needs to be written to an SD card
    #[default]
    SdCard,
    /// BeagleConnect Freedom CC1352P7 firmware
    BeagleConnectFreedom,
    /// BeagleConnect Freedom MSP430 firmware
    Msp430Usb,
    /// PocketBeagle 2 MSPM0 firmware
    Pb2Mspm0,
}

/// The image file extensions a kind of flasher accepts.
pub open spec fn spec_file_types(f: Flasher) -> Seq<Seq<char>> {
    match f {
        Flasher::SdCard => seq!["img"@, "xz"@],
        Flasher::BeagleConnectFreedom => seq!["bin"@, "hex"@, "txt"@, "xz"@],
        Flasher::Msp430Usb => seq!["hex"@, "txt"@, "xz"@],
        Flasher::Pb2Mspm0 => seq!["hex"@, "txt"@, "xz"@],
    }
}

impl Flasher {
    /// The image file extensions this kind of flasher accepts, for filtering
    /// local files.
    pub fn file_types(&self) -> (r: Vec<&'static str>)
        ensures
            r@.len() == spec_file_types(*self).len(),
            forall|i: int| 0 <= i < r@.len() ==> (#[trigger] r@[i])@ == spec_file_types(*self)[i],
    {
        let r = match self {
            Flasher::SdCard => vec!["img", "xz"],
            Flasher::BeagleConnectFreedom => vec!["bin", "hex", "txt", "xz"],
            Flasher::Msp430Usb => vec!["hex", "txt", "xz"],
            Flasher::Pb2Mspm0 => vec!["hex", "txt", "xz"],
        };
        assert(r@.len() == spec_file_types(*self).len());
        r
    }

    /// Whether the user picks a destination; an on-board peripheral has just one.
    pub fn is_destination_selectable(&self) -> (r: bool)
        ensures
            r == !(*self == Flasher::Pb2Mspm0),
    {
        !matches!(self, Flasher::Pb2Mspm0)
    }
}

} // verus!
