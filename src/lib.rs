//! Inspection of linked i.MX RT boot images: an index over the ELF tables,
//! load-address translation, boot metadata decoding, and a layout checker.

pub mod error;
pub mod elf;
pub mod address;
pub mod boot;
pub mod layout;
pub mod overrides;
