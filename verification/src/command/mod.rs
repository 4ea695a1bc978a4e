//! Commands of the BlueNRG-MS controller.

pub mod hal;
