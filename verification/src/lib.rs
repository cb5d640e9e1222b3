//! Persistent boot-intent state for a dual-boot machine.
//!
//! The library models the two `key=value` persistence formats the tool relies
//! on (a plain properties file with backslash escaping, and the bootloader's
//! fixed-size environment block), the closed option catalogs (operating
//! system, display), the mapping from catalog values to host-specific opaque
//! strings, and the state machine that applies a requested script of changes.
//! Everything here is pure computation over in-memory values; reading and
//! writing the underlying files is left to the surrounding binary.

pub mod args;
pub mod calibration;
pub mod configs;
pub mod dialog;
pub mod errors;
pub mod file_content_as_hash_map;
pub mod grub_cfg;
pub mod grubenv;
pub mod host_os;
pub mod options_types;
pub mod properties;
pub mod script;
pub mod state;
pub mod string_map;
pub mod text;
pub mod windows_version;
