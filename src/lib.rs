//! Core of an image-flashing engine: device classification, the download cache's
//! naming and integrity rules, partition selection and post-install customization
//! of SD card images, and the progress and cancellation model of a flashing run.

pub mod device;
pub mod text;
pub mod lsblk;
pub mod cache;
pub mod error;
pub mod partition;
pub mod customization;
pub mod flashing;
pub mod sd;
pub mod config;
pub mod dfu;
pub mod pal;
pub mod resolve;
pub mod settings;
pub mod progress;
pub mod target;
