//! Install status and the steps of an uninstall, decided from what is on
//! disk.

use crate::detector::has_entry;
use crate::detector::is_game_exe_name;
use crate::detector::is_game_executable;
use crate::detector::GameDir;
use crate::detector::GameVersion;
use crate::text::eq_ignore_ascii_case;
use crate::text::eq_ignoring_case;
use crate::text::to_chars;
use vstd::prelude::*;
use vstd::string::StringExecFns;

verus! {

#[derive(Debug, Clone, Copy, PartialEq, Eq, Structural)]
pub enum InstallStatus {
    Installed,
    NotInstalled,
    NeedsUpdate,
    Unknown,
}

impl InstallStatus {
    /// The name shown for the status.
    pub open spec fn label(self) -> Seq<char> {
        match self {
            InstallStatus::Installed => "✅ 已安装"@,
            InstallStatus::NotInstalled => "❌ 未安装"@,
            InstallStatus::NeedsUpdate => "🔄 需要更新"@,
            InstallStatus::Unknown => "❓ 未知"@,
        }
    }

    pub fn display_name(&self) -> (name: &'static str)
        ensures
            name@ == self.label(),
    {
        match self {
            InstallStatus::Installed => "✅ 已安装",
            InstallStatus::NotInstalled => "❌ 未安装",
            InstallStatus::NeedsUpdate => "🔄 需要更新",
            InstallStatus::Unknown => "❓ 未知",
        }
    }
}

/// What was found of an installation.
#[derive(Debug, Clone, Copy, PartialEq, Eq, Structural)]
pub struct InstallProbe {
    /// The Steam release's plugin directory was found.
    pub plugins_dir: bool,
    /// The backup of the replaced plugin library exists in the data directory.
    pub backup: bool,
    /// The data directory exists.
    pub data_dir: bool,
    /// The executable's `.local` directory exists.
    pub local_dir: bool,
    /// The `.local` directory holds the player library.
    pub local_unity_player: bool,
    /// The `.local` directory holds the helper library.
    pub local_apphelp: bool,
    /// The configuration file exists.
    pub config_file: bool,
}

/// A place in or below the game directory.
#[derive(Debug, Clone, Copy, PartialEq, Eq, Structural)]
pub enum Place {
    /// The plugin library of the Steam release.
    PluginDll,
    /// The backup of the plugin library.
    BackupDll,
    DataDir,
    /// The executable's `.local` directory.
    LocalDir,
    ConfigFile,
}

#[derive(Debug, Clone, Copy, PartialEq, Eq, Structural)]
pub enum FileOp {
    Copy { from: Place, to: Place },
    RemoveFile(Place),
    RemoveDir(Place),
}

/// One step of a plan; a step that is not required may fail without ending
/// the plan.
#[derive(Debug, Clone, Copy, PartialEq, Eq, Structural)]
pub struct FileStep {
    pub op: FileOp,
    pub required: bool,
}

#[derive(Debug, Clone, Copy, PartialEq, Eq, Structural)]
pub enum InstallError {
    UnknownVersion,
    PluginsDirNotFound,
    BackupNotFound,
    ExecutableNotFound,
}

impl InstallError {
    /// The message shown for the error.
    pub open spec fn text(self) -> Seq<char> {
        match self {
            InstallError::UnknownVersion => "未知的游戏版本"@,
            InstallError::PluginsDirNotFound => "找不到 Plugins/x86_64 目录"@,
            InstallError::BackupNotFound => "找不到备份文件，无法恢复"@,
            InstallError::ExecutableNotFound => "找不到游戏可执行文件"@,
        }
    }

    pub fn message(&self) -> (text: &'static str)
        ensures
            text@ == self.text(),
    {
        match self {
            InstallError::UnknownVersion => "未知的游戏版本",
            InstallError::PluginsDirNotFound => "找不到 Plugins/x86_64 目录",
            InstallError::BackupNotFound => "找不到备份文件，无法恢复",
            InstallError::ExecutableNotFound => "找不到游戏可执行文件",
        }
    }
}

/// The directory has an executable of the game.
pub open spec fn has_game_exe(entries: Seq<String>) -> bool {
    exists|i: int| 0 <= i < entries.len() && is_game_executable((#[trigger] entries[i])@)
}

/// `name` is the executable's file name: the first known name that the
/// directory holds, else the first entry that looks like the executable.
pub open spec fn names_game_exe(entries: Seq<String>, name: Seq<char>) -> bool {
    if has_entry(entries, "umamusume.exe"@) {
        name == "umamusume.exe"@
    } else if has_entry(entries, "UmamusumePrettyDerby_Jpn.exe"@) {
        name == "UmamusumePrettyDerby_Jpn.exe"@
    } else if has_entry(entries, "UmamusumePrettyDerby.exe"@) {
        name == "UmamusumePrettyDerby.exe"@
    } else {
        exists|i: int|
            0 <= i < entries.len() && is_game_executable((#[trigger] entries[i])@) && name
                == entries[i]@ && forall|k: int|
                0 <= k < i ==> !is_game_executable((#[trigger] entries[k])@)
    }
}

/// The directory has one of the known executables.
pub open spec fn has_known_exe(entries: Seq<String>) -> bool {
    has_entry(entries, "umamusume.exe"@) || has_entry(entries, "UmamusumePrettyDerby_Jpn.exe"@)
        || has_entry(entries, "UmamusumePrettyDerby.exe"@)
}

fn holds(entries: &Vec<String>, name: &str) -> (found: bool)
    ensures
        found == has_entry(entries@, name@),
{
    let wanted = to_chars(name);
    let mut i: usize = 0;
    while i < entries.len()
        invariant
            i <= entries@.len(),
            wanted@ == name@,
            forall|k: int| 0 <= k < i ==> !eq_ignoring_case((#[trigger] entries@[k])@, name@),
        decreases entries@.len() - i,
    {
        let entry = to_chars(entries[i].as_str());
        if eq_ignore_ascii_case(entry.as_slice(), wanted.as_slice()) {
            return true;
        }
        i = i + 1;
    }
    false
}

/// Finds the file name of the game's executable.
pub fn find_game_exe(dir: &GameDir) -> (exe: Option<String>)
    ensures
        match exe {
            Some(name) => names_game_exe(dir.entries@, name@),
            None => !has_known_exe(dir.entries@) && !has_game_exe(dir.entries@),
        },
{
    if holds(&dir.entries, "umamusume.exe") {
        return Some(String::from_str("umamusume.exe"));
    }
    if holds(&dir.entries, "UmamusumePrettyDerby_Jpn.exe") {
        return Some(String::from_str("UmamusumePrettyDerby_Jpn.exe"));
    }
    if holds(&dir.entries, "UmamusumePrettyDerby.exe") {
        return Some(String::from_str("UmamusumePrettyDerby.exe"));
    }
    let mut i: usize = 0;
    while i < dir.entries.len()
        invariant
            i <= dir.entries@.len(),
            !has_known_exe(dir.entries@),
            forall|k: int| 0 <= k < i ==> !is_game_executable((#[trigger] dir.entries@[k])@),
        decreases dir.entries@.len() - i,
    {
        if is_game_exe_name(dir.entries[i].as_str()) {
            assert(is_game_executable(dir.entries@[i as int]@));
            return Some(dir.entries[i].clone());
        }
        i = i + 1;
    }
    None
}

/// The status that the probe shows for a game of `version` whose executable
/// is known or not.
pub open spec fn status_of(executable: bool, version: GameVersion, probe: InstallProbe) -> InstallStatus {
    if !executable {
        InstallStatus::Unknown
    } else if version == GameVersion::Steam {
        if probe.backup {
            InstallStatus::Installed
        } else {
            InstallStatus::NotInstalled
        }
    } else if probe.local_dir && probe.local_unity_player && probe.local_apphelp {
        InstallStatus::Installed
    } else {
        InstallStatus::NotInstalled
    }
}

/// Tells whether the tool is installed in the game directory.
pub fn check_install_status(game_dir: &GameDir, version: GameVersion, probe: &InstallProbe) -> (status:
    InstallStatus)
    ensures
        status == status_of(
            has_known_exe(game_dir.entries@) || has_game_exe(game_dir.entries@),
            version,
            *probe,
        ),
{
    if find_game_exe(game_dir).is_none() {
        return InstallStatus::Unknown;
    }
    match version {
        GameVersion::Steam => if probe.backup {
            InstallStatus::Installed
        } else {
            InstallStatus::NotInstalled
        },
        _ => if probe.local_dir && probe.local_unity_player && probe.local_apphelp {
            InstallStatus::Installed
        } else {
            InstallStatus::NotInstalled
        },
    }
}

/// A step that must succeed.
pub open spec fn required(op: FileOp) -> FileStep {
    FileStep { op, required: true }
}

/// A step whose failure is passed over.
pub open spec fn optional(op: FileOp) -> FileStep {
    FileStep { op, required: false }
}

/// The steps present when `present` holds.
pub open spec fn when(present: bool, step: FileStep) -> Seq<FileStep> {
    if present {
        seq![step]
    } else {
        Seq::empty()
    }
}

/// The steps that undo an installation, or why there are none.
pub open spec fn uninstall_plan(executable: bool, version: GameVersion, probe: InstallProbe) -> Result<
    Seq<FileStep>,
    InstallError,
> {
    match version {
        GameVersion::Unknown => Err(InstallError::UnknownVersion),
        GameVersion::Steam => if !probe.plugins_dir {
            Err(InstallError::PluginsDirNotFound)
        } else if !probe.backup {
            Err(InstallError::BackupNotFound)
        } else {
            Ok(
                seq![
                    required(FileOp::Copy { from: Place::BackupDll, to: Place::PluginDll }),
                    required(FileOp::RemoveFile(Place::BackupDll)),
                ] + when(probe.data_dir, optional(FileOp::RemoveDir(Place::DataDir))),
            )
        },
        GameVersion::DMM => if !executable {
            Err(InstallError::ExecutableNotFound)
        } else {
            Ok(
                when(probe.local_dir, required(FileOp::RemoveDir(Place::LocalDir))) + when(
                    probe.data_dir,
                    optional(FileOp::RemoveDir(Place::DataDir)),
                ) + when(probe.config_file, optional(FileOp::RemoveFile(Place::ConfigFile))),
            )
        },
    }
}

/// What an uninstall produced, with the steps taken by their view.
pub open spec fn plan_view(res: Result<Vec<FileStep>, InstallError>) -> Result<
    Seq<FileStep>,
    InstallError,
> {
    match res {
        Ok(steps) => Ok(steps@),
        Err(e) => Err(e),
    }
}

/// Plans the removal of the tool from the game directory.
pub fn uninstall_dll(game_dir: &GameDir, version: GameVersion, probe: &InstallProbe) -> (res: Result<
    Vec<FileStep>,
    InstallError,
>)
    ensures
        plan_view(res) == uninstall_plan(
            has_known_exe(game_dir.entries@) || has_game_exe(game_dir.entries@),
            version,
            *probe,
        ),
{
    let mut steps: Vec<FileStep> = Vec::new();
    match version {
        GameVersion::Unknown => Err(InstallError::UnknownVersion),
        GameVersion::Steam => {
            if !probe.plugins_dir {
                return Err(InstallError::PluginsDirNotFound);
            }
            if !probe.backup {
                return Err(InstallError::BackupNotFound);
            }
            steps.push(
                FileStep {
                    op: FileOp::Copy { from: Place::BackupDll, to: Place::PluginDll },
                    required: true,
                },
            );
            steps.push(FileStep { op: FileOp::RemoveFile(Place::BackupDll), required: true });
            if probe.data_dir {
                steps.push(FileStep { op: FileOp::RemoveDir(Place::DataDir), required: false });
            }
            assert(steps@ =~= uninstall_plan(
                has_known_exe(game_dir.entries@) || has_game_exe(game_dir.entries@),
                version,
                *probe,
            )->Ok_0);
            Ok(steps)
        },
        GameVersion::DMM => {
            if find_game_exe(game_dir).is_none() {
                return Err(InstallError::ExecutableNotFound);
            }
            if probe.local_dir {
                steps.push(FileStep { op: FileOp::RemoveDir(Place::LocalDir), required: true });
            }
            if probe.data_dir {
                steps.push(FileStep { op: FileOp::RemoveDir(Place::DataDir), required: false });
            }
            if probe.config_file {
                steps.push(FileStep { op: FileOp::RemoveFile(Place::ConfigFile), required: false });
            }
            assert(steps@ =~= uninstall_plan(
                has_known_exe(game_dir.entries@) || has_game_exe(game_dir.entries@),
                version,
                *probe,
            )->Ok_0);
            Ok(steps)
        },
    }
}

} // verus!
