//! Vendor-specific HCI commands of the BlueNRG-MS controller: parameter
//! validation, the serialized parameter blocks, and the low-level
//! configuration data builders.

pub mod command;
