//! Installer and process bridge for a bundled `adb` (Android Debug Bridge)
//! distribution.
//!
//! The crate owns the logic of the two components: deciding where the
//! platform-tools live and whether they are installed, planning the one-time
//! extraction of the bundled archive, turning the outcome of an `adb` child
//! process into a result or an error, and parsing the tabular output of
//! `adb devices` into device records. All filesystem and process I/O is left
//! to the caller, which feeds plain values (paths, existence flags, captured
//! output) into the functions here.

pub mod bridge;
pub mod devices;
pub mod installer;
pub mod paths;
pub mod text;
