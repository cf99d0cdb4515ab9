use vstd::prelude::*;

verus! {

/// Errors of SD card flashing and customization.
#[derive(Clone, Debug, PartialEq, Eq)]
pub enum Error {
    /// Provided customization options are not valid for the current image.
    InvalidCustomizaton,
    /// The partition table of the image is not valid.
    InvalidPartitionTable,
    /// Only FAT boot partitions are supported.
    InvalidBootPartition,
    /// Failed to create sysconf.txt.
    SysconfCreateFail,
    /// Failed to write a field to sysconf.txt.
    SysconfWriteFail { field: String },
    /// Failed to set up Wi-Fi.
    WifiSetupFail,
    /// Failed to create custom.toml.
    RaspberryCreateFail,
    /// Failed to write custom.toml.
    RaspberryWriteFail,
    /// Unknown error during I/O.
    IoError,
    /// Aborted before completing.
    Aborted,
    /// Failed to format the SD card.
    FailedToFormat,
    /// Failed to open the SD card.
    FailedToOpenDestination,
    /// Invalid block map for the image.
    InvalidBmap,
    /// The writer has been closed.
    WriterClosed,
}

/// The message shown for each error.
pub open spec fn spec_message(e: Error) -> Seq<char> {
    match e {
        Error::InvalidCustomizaton => "Invalid customization options."@,
        Error::InvalidPartitionTable => "Partition table of image not valid."@,
        Error::InvalidBootPartition => "Only FAT BOOT partitions are supported."@,
        Error::SysconfCreateFail => "Failed to create sysconf.txt"@,
        Error::SysconfWriteFail { field } => "Failed to write "@ + field@ + " to sysconf.txt."@,
        Error::WifiSetupFail => "Failed to setup WiFi."@,
        Error::RaspberryCreateFail => "Failed to create custom.toml"@,
        Error::RaspberryWriteFail => "Failed to write custom.toml"@,
        Error::IoError => "Unknown Error during IO. Please check logs for more information."@,
        Error::Aborted => "Aborted before completing."@,
        Error::FailedToFormat => "Failed to format SD Card."@,
        Error::FailedToOpenDestination => "Failed to open SD Card."@,
        Error::InvalidBmap => "Invalid bmap for the image."@,
        Error::WriterClosed => "Writer thread has been closed."@,
    }
}

impl Error {
    /// A message describing the error, for a front end to show.
    pub fn message(&self) -> (r: String)
        ensures
            r@ == spec_message(*self),
    {
        match self {
            Error::InvalidCustomizaton => String::from_str("Invalid customization options."),
            Error::InvalidPartitionTable => String::from_str("Partition table of image not valid."),
            Error::InvalidBootPartition => String::from_str("Only FAT BOOT partitions are supported."),
            Error::SysconfCreateFail => String::from_str("Failed to create sysconf.txt"),
            Error::SysconfWriteFail { field } => {
                let mut m = String::from_str("Failed to write ");
                m.append(field.as_str());
                m.append(" to sysconf.txt.");
                m
            },
            Error::WifiSetupFail => String::from_str("Failed to setup WiFi."),
            Error::RaspberryCreateFail => String::from_str("Failed to create custom.toml"),
            Error::RaspberryWriteFail => String::from_str("Failed to write custom.toml"),
            Error::IoError => String::from_str("Unknown Error during IO. Please check logs for more information."),
            Error::Aborted => String::from_str("Aborted before completing."),
            Error::FailedToFormat => String::from_str("Failed to format SD Card."),
            Error::FailedToOpenDestination => String::from_str("Failed to open SD Card."),
            Error::InvalidBmap => String::from_str("Invalid bmap for the image."),
            Error::WriterClosed => String::from_str("Writer thread has been closed."),
        }
    }
}

} // verus!
