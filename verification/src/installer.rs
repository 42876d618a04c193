//! Planning the one-time installation of the bundled platform-tools.
//!
//! The caller performs the filesystem work and feeds its observations in: it
//! checks the two candidate `adb` locations, hands the two existence flags to
//! [`install_plan`], and either keeps the returned toolset (already
//! installed) or carries out the returned extraction plan — open the named
//! bundled archive, extract it into the destination directory, and on POSIX
//! mark each listed executable readable and executable by all and writable by
//! its owner, skipping the candidates that do not exist.

use vstd::prelude::*;
use crate::paths::{
    HostOs, joined, fastboot_executable_name, spec_install_root, spec_adb_path,
    spec_nested_adb_path, spec_archive_name, installation_root, resolve_adb_path,
    nested_adb_path, archive_name, join_path, fastboot_file_name,
};

verus! {

/// Why an installation failed. Every failure carries the human-readable text
/// that is surfaced verbatim to the caller.
#[derive(Clone, Debug)]
pub enum InstallError {
    /// The bundled archive was not found at its expected resource path.
    ResourceNotFound(String),
    /// The bundled archive could not be read or was corrupt.
    ArchiveRead(String),
    /// A directory or file under the installation root could not be written.
    FilesystemWrite(String),
}

impl InstallError {
    /// The text the failure carries.
    pub open spec fn spec_message(&self) -> Seq<char> {
        match self {
            InstallError::ResourceNotFound(s) => s@,
            InstallError::ArchiveRead(s) => s@,
            InstallError::FilesystemWrite(s) => s@,
        }
    }

    /// The text the failure carries, surfaced verbatim.
    pub fn message(&self) -> (r: String)
        ensures
            r@ == self.spec_message(),
    {
        match self {
            InstallError::ResourceNotFound(s) => s.clone(),
            InstallError::ArchiveRead(s) => s.clone(),
            InstallError::FilesystemWrite(s) => s.clone(),
        }
    }
}

/// An installed platform-tools toolset: its root directory and the resolved
/// `adb` executable path, which is a pure function of the root and the
/// operating system.
#[derive(Clone, Debug)]
pub struct InstalledToolset {
    pub root: String,
    pub os: HostOs,
    pub adb_path: String,
}

/// The mathematical content of an [`InstalledToolset`].
pub struct ToolsetModel {
    pub root: Seq<char>,
    pub os: HostOs,
    pub adb_path: Seq<char>,
}

impl View for InstalledToolset {
    type V = ToolsetModel;

    open spec fn view(&self) -> ToolsetModel {
        ToolsetModel { root: self.root@, os: self.os, adb_path: self.adb_path@ }
    }
}

impl InstalledToolset {
    /// The toolset invariant: the executable path is the one resolved from
    /// the root and the operating system.
    pub open spec fn wf(&self) -> bool {
        self.adb_path@ == spec_adb_path(self.root@, self.os)
    }
}

/// The work a first-time installation has to do.
pub struct ExtractionPlan {
    /// The bundled archive to open, named for the operating system.
    pub archive_name: String,
    /// The directory to extract every archive entry into: the parent of the
    /// installation root, so that an archive with a top-level
    /// `platform-tools/` folder lands the tools flat under the root.
    pub destination: String,
    /// The candidate executables to mark executable on POSIX, in order;
    /// candidates that do not exist are skipped, not errors.
    pub fixups: Vec<String>,
}

/// The mathematical content of an [`ExtractionPlan`].
pub struct PlanModel {
    pub archive_name: Seq<char>,
    pub destination: Seq<char>,
    pub fixups: Seq<Seq<char>>,
}

impl View for ExtractionPlan {
    type V = PlanModel;

    open spec fn view(&self) -> PlanModel {
        PlanModel {
            archive_name: self.archive_name@,
            destination: self.destination@,
            fixups: self.fixups@.map_values(|s: String| s@),
        }
    }
}

/// What ensure-installed does next: nothing, or one extraction.
pub enum InstallStep {
    AlreadyInstalled(InstalledToolset),
    NeedsExtraction(ExtractionPlan),
}

/// The mathematical content of an [`InstallStep`].
pub enum InstallStepModel {
    AlreadyInstalled(ToolsetModel),
    NeedsExtraction(PlanModel),
}

impl View for InstallStep {
    type V = InstallStepModel;

    open spec fn view(&self) -> InstallStepModel {
        match self {
            InstallStep::AlreadyInstalled(t) => InstallStepModel::AlreadyInstalled(t@),
            InstallStep::NeedsExtraction(p) => InstallStepModel::NeedsExtraction(p@),
        }
    }
}

/// The toolset an installation under `app_data_root` yields on `os`.
pub open spec fn spec_toolset(app_data_root: Seq<char>, os: HostOs) -> ToolsetModel {
    ToolsetModel {
        root: spec_install_root(app_data_root),
        os: os,
        adb_path: spec_adb_path(spec_install_root(app_data_root), os),
    }
}

/// The executables to mark executable after extraction: `adb` and
/// `fastboot`, each at the nested and at the flat layout.
pub open spec fn spec_fixups(root: Seq<char>, os: HostOs) -> Seq<Seq<char>> {
    seq![
        spec_nested_adb_path(root, os),
        spec_adb_path(root, os),
        joined(joined(root, "platform-tools"@), fastboot_executable_name(os)),
        joined(root, fastboot_executable_name(os)),
    ]
}

/// What ensure-installed does, given whether `adb` already exists at the
/// flat or at the nested layout: with either present it is a no-op that
/// returns the resolved toolset; with neither it plans one extraction.
pub open spec fn spec_install_plan(
    app_data_root: Seq<char>,
    os: HostOs,
    adb_at_root: bool,
    adb_at_nested: bool,
) -> InstallStepModel {
    if adb_at_root || adb_at_nested {
        InstallStepModel::AlreadyInstalled(spec_toolset(app_data_root, os))
    } else {
        InstallStepModel::NeedsExtraction(
            PlanModel {
                archive_name: spec_archive_name(os),
                destination: app_data_root,
                fixups: spec_fixups(spec_install_root(app_data_root), os),
            },
        )
    }
}

/// The two candidate `adb` locations under the installation root, flat
/// first: the archive format varies by origin, so the executable may sit
/// directly under the root or under a nested `platform-tools/` directory.
pub fn adb_candidates(root: &str, os: HostOs) -> (r: (String, String))
    ensures
        r.0@ == spec_adb_path(root@, os),
        r.1@ == spec_nested_adb_path(root@, os),
{
    (resolve_adb_path(root, os), nested_adb_path(root, os))
}

/// The toolset that a completed installation under `app_data_root` resolves
/// to. Pure: both calls of ensure-installed return exactly this value.
pub fn installed_toolset(app_data_root: &str, os: HostOs) -> (t: InstalledToolset)
    ensures
        t@ == spec_toolset(app_data_root@, os),
        t.wf(),
{
    let root = installation_root(app_data_root);
    let adb_path = resolve_adb_path(root.as_str(), os);
    InstalledToolset { root, os, adb_path }
}

/// Decides the next step of ensure-installed, as [`spec_install_plan`]
/// describes. The caller reports whether `adb` exists at the flat and at the
/// nested layout under the installation root.
pub fn install_plan(app_data_root: &str, os: HostOs, adb_at_root: bool, adb_at_nested: bool) -> (r:
    InstallStep)
    ensures
        r@ == spec_install_plan(app_data_root@, os, adb_at_root, adb_at_nested),
        (adb_at_root || adb_at_nested) <==> r is AlreadyInstalled,
        r matches InstallStep::AlreadyInstalled(t) ==> t.wf(),
{
    if adb_at_root || adb_at_nested {
        InstallStep::AlreadyInstalled(installed_toolset(app_data_root, os))
    } else {
        let root = installation_root(app_data_root);
        let mut fixups: Vec<String> = Vec::new();
        let fastboot = fastboot_file_name(os);
        fixups.push(nested_adb_path(root.as_str(), os));
        fixups.push(resolve_adb_path(root.as_str(), os));
        let nested_dir = join_path(root.as_str(), "platform-tools");
        fixups.push(join_path(nested_dir.as_str(), fastboot.as_str()));
        fixups.push(join_path(root.as_str(), fastboot.as_str()));
        let plan = ExtractionPlan {
            archive_name: archive_name(os),
            destination: app_data_root.to_owned(),
            fixups,
        };
        proof {
            assert(plan@.fixups =~= spec_fixups(spec_install_root(app_data_root@), os));
        }
        InstallStep::NeedsExtraction(plan)
    }
}

/// Law: ensure-installed is idempotent. After one successful installation
/// the `adb` executable exists at one of the two candidate layouts, so a
/// repeated call plans no second extraction, and the toolset it returns is
/// the same one every successful call returns — the plan does not depend on
/// which candidate layout was observed.
pub proof fn lemma_install_idempotent(
    app_data_root: Seq<char>,
    os: HostOs,
    adb_at_root: bool,
    adb_at_nested: bool,
)
    requires
        adb_at_root || adb_at_nested,
    ensures
        spec_install_plan(app_data_root, os, adb_at_root, adb_at_nested)
            == InstallStepModel::AlreadyInstalled(spec_toolset(app_data_root, os)),
        forall|r2: bool, n2: bool|
            (r2 || n2) ==> spec_install_plan(app_data_root, os, r2, n2) == spec_install_plan(
                app_data_root,
                os,
                adb_at_root,
                adb_at_nested,
            ),
{
}

} // verus!
