//! Resolution of the platform-tools installation layout: where the tools
//! live under the per-user application-data directory, what the `adb`
//! executable is called on each operating system, and which bundled archive
//! serves each operating system.
//!
//! Paths are plain strings joined with `/`; the caller converts them to its
//! native path type. The resolved executable path is a pure function of the
//! operating system and the installation root, as the toolset invariant
//! demands.

use vstd::prelude::*;

verus! {

/// The operating systems the installer supports. An unsupported system is a
/// configuration error at build time: no value of this type exists for it.
#[derive(Clone, Copy, Debug, PartialEq, Eq, Structural)]
pub enum HostOs {
    Windows,
    Macos,
    Linux,
}

/// `dir` and `name` joined with a single `/`.
pub open spec fn joined(dir: Seq<char>, name: Seq<char>) -> Seq<char> {
    dir + "/"@ + name
}

/// The file name of the `adb` executable: `adb.exe` on Windows, `adb`
/// elsewhere.
pub open spec fn adb_executable_name(os: HostOs) -> Seq<char> {
    match os {
        HostOs::Windows => "adb.exe"@,
        HostOs::Macos => "adb"@,
        HostOs::Linux => "adb"@,
    }
}

/// The file name of the `fastboot` executable.
pub open spec fn fastboot_executable_name(os: HostOs) -> Seq<char> {
    match os {
        HostOs::Windows => "fastboot.exe"@,
        HostOs::Macos => "fastboot"@,
        HostOs::Linux => "fastboot"@,
    }
}

/// The installation root: the `platform-tools` directory under the
/// application-data root.
pub open spec fn spec_install_root(app_data_root: Seq<char>) -> Seq<char> {
    joined(app_data_root, "platform-tools"@)
}

/// The resolved `adb` path: the executable directly under the installation
/// root. Deterministic in the operating system and the root.
pub open spec fn spec_adb_path(root: Seq<char>, os: HostOs) -> Seq<char> {
    joined(root, adb_executable_name(os))
}

/// The alternative `adb` location: under a nested `platform-tools/`
/// directory, as archives with a top-level directory lay it out.
pub open spec fn spec_nested_adb_path(root: Seq<char>, os: HostOs) -> Seq<char> {
    joined(joined(root, "platform-tools"@), adb_executable_name(os))
}

/// The name of the bundled platform-tools archive for `os`.
pub open spec fn spec_archive_name(os: HostOs) -> Seq<char> {
    match os {
        HostOs::Windows => "platform-tools-latest-windows.zip"@,
        HostOs::Macos => "platform-tools-latest-darwin.zip"@,
        HostOs::Linux => "platform-tools-latest-linux.zip"@,
    }
}

/// Joins a directory and a file name with a `/`.
pub fn join_path(dir: &str, name: &str) -> (r: String)
    ensures
        r@ == joined(dir@, name@),
{
    let mut s = dir.to_owned();
    s.append("/");
    s.append(name);
    s
}

/// The file name of the `adb` executable on `os`.
pub fn adb_file_name(os: HostOs) -> (r: String)
    ensures
        r@ == adb_executable_name(os),
{
    match os {
        HostOs::Windows => String::from_str("adb.exe"),
        HostOs::Macos => String::from_str("adb"),
        HostOs::Linux => String::from_str("adb"),
    }
}

/// The file name of the `fastboot` executable on `os`.
pub fn fastboot_file_name(os: HostOs) -> (r: String)
    ensures
        r@ == fastboot_executable_name(os),
{
    match os {
        HostOs::Windows => String::from_str("fastboot.exe"),
        HostOs::Macos => String::from_str("fastboot"),
        HostOs::Linux => String::from_str("fastboot"),
    }
}

/// The installation root under the application-data root.
pub fn installation_root(app_data_root: &str) -> (r: String)
    ensures
        r@ == spec_install_root(app_data_root@),
{
    join_path(app_data_root, "platform-tools")
}

/// Resolves the path of the `adb` executable under `root`. Pure: no
/// filesystem access; the same root and operating system always resolve to
/// the same path.
pub fn resolve_adb_path(root: &str, os: HostOs) -> (r: String)
    ensures
        r@ == spec_adb_path(root@, os),
{
    let name = adb_file_name(os);
    join_path(root, name.as_str())
}

/// The alternative `adb` location under a nested `platform-tools/`
/// directory.
pub fn nested_adb_path(root: &str, os: HostOs) -> (r: String)
    ensures
        r@ == spec_nested_adb_path(root@, os),
{
    let nested = join_path(root, "platform-tools");
    let name = adb_file_name(os);
    join_path(nested.as_str(), name.as_str())
}

/// The name of the bundled archive for `os`.
pub fn archive_name(os: HostOs) -> (r: String)
    ensures
        r@ == spec_archive_name(os),
{
    match os {
        HostOs::Windows => String::from_str("platform-tools-latest-windows.zip"),
        HostOs::Macos => String::from_str("platform-tools-latest-darwin.zip"),
        HostOs::Linux => String::from_str("platform-tools-latest-linux.zip"),
    }
}

} // verus!
