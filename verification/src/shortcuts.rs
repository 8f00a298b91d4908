//! The system-integration steps of an install: shortcut files, the uninstall
//! entry, and the autostart entry.
//!
//! None of these functions touches the machine.  Each computes, and pins
//! down in its contract, exactly what the caller is to write: the PowerShell
//! script that creates a shortcut, and the registry keys and values of the
//! uninstall and autostart entries.  All three steps are best-effort: the
//! install sequence goes on whatever the caller reports back.

use vstd::prelude::*;
use crate::paths::{joined, app_exe_name, join_path, desktop_dir_path, data_dir_path};

verus! {

/// The start-menu folder of the application, below the user's roaming data
/// directory.
pub open spec fn start_menu_subdir() -> Seq<char> {
    "Microsoft\\Windows\\Start Menu\\Programs\\LoArchive"@
}

/// The file name of a shortcut to the application.
pub open spec fn shortcut_file_name() -> Seq<char> {
    "LoArchive.lnk"@
}

/// The PowerShell script that writes a shortcut at `shortcut`, pointing at
/// `target`, started in `workdir`.
pub open spec fn shortcut_script(shortcut: Seq<char>, target: Seq<char>, workdir: Seq<char>) -> Seq<char> {
    "$WshShell = New-Object -comObject WScript.Shell; $Shortcut = $WshShell.CreateShortcut('"@
        + shortcut
        + "'); $Shortcut.TargetPath = '"@
        + target
        + "'; $Shortcut.WorkingDirectory = '"@
        + workdir
        + "'; $Shortcut.Save()"@
}

/// What creating one shortcut asks the caller to do: create a directory
/// first, when the shortcut lives in a folder of its own, then run the
/// script.  `base_dir` records which user directory the plan was built on.
pub struct ShortcutPlan {
    pub base_dir: String,
    pub dir_to_create: Option<String>,
    pub shortcut_path: String,
    pub script: String,
}

/// Whether `p` is exactly the plan for a shortcut to the install at
/// `install_path`, on the desktop (`desktop` true) or in the start menu,
/// built on the user directory `base`.
pub open spec fn shortcut_plan_wf(p: ShortcutPlan, base: Seq<char>, install_path: Seq<char>, desktop: bool) -> bool {
    let dir = if desktop {
        base
    } else {
        joined(base, start_menu_subdir())
    };
    &&& p.base_dir@ == base
    &&& (if desktop {
        p.dir_to_create is None
    } else {
        p.dir_to_create matches Some(d) && d@ == dir
    })
    &&& p.shortcut_path@ == joined(dir, shortcut_file_name())
    &&& p.script@ == shortcut_script(
        joined(dir, shortcut_file_name()),
        joined(install_path, app_exe_name()),
        install_path,
    )
}

/// Builds the plan for one shortcut on the given user directory: desktop
/// shortcuts go straight into it, start-menu shortcuts into an application
/// folder below it that must be created first.
pub fn shortcut_plan(base: &str, install_path: &str, desktop: bool) -> (p: ShortcutPlan)
    ensures
        shortcut_plan_wf(p, base@, install_path@, desktop),
{
    let dir: String = if desktop {
        base.to_owned()
    } else {
        join_path(base, "Microsoft\\Windows\\Start Menu\\Programs\\LoArchive")
    };
    let dir_to_create: Option<String> = if desktop {
        None
    } else {
        Some(dir.clone())
    };
    let shortcut_path = join_path(dir.as_str(), "LoArchive.lnk");
    let target = join_path(install_path, "LoArchive.exe");

    let mut script: String =
        "$WshShell = New-Object -comObject WScript.Shell; $Shortcut = $WshShell.CreateShortcut('".to_owned();
    script.append(shortcut_path.as_str());
    script.append("'); $Shortcut.TargetPath = '");
    script.append(target.as_str());
    script.append("'; $Shortcut.WorkingDirectory = '");
    script.append(install_path);
    script.append("'; $Shortcut.Save()");

    ShortcutPlan { base_dir: base.to_owned(), dir_to_create, shortcut_path, script }
}

/// Builds the plan for a shortcut to the install at `install_path`: on the
/// desktop when `desktop` is set, in the start menu otherwise.  Returns an
/// error exactly when the environment offers no directory to put it in.
pub fn create_shortcut(install_path: &str, desktop: bool) -> (r: Result<ShortcutPlan, String>)
    ensures
        r matches Ok(p) ==> shortcut_plan_wf(p, p.base_dir@, install_path@, desktop),
        r matches Err(e) ==> e@ == (if desktop {
            "无法获取桌面目录"@
        } else {
            "无法获取应用数据目录"@
        }),
{
    if desktop {
        match desktop_dir_path() {
            Some(base) => Ok(shortcut_plan(base.as_str(), install_path, true)),
            None => Err("无法获取桌面目录".to_owned()),
        }
    } else {
        match data_dir_path() {
            Some(base) => Ok(shortcut_plan(base.as_str(), install_path, false)),
            None => Err("无法获取应用数据目录".to_owned()),
        }
    }
}

/// One named value of a registry entry.
pub struct RegistryValue {
    pub name: String,
    pub data: String,
}

/// What registering the uninstall entry asks the caller to write: the values
/// under one key of the current user's registry hive.
pub struct RegistryPlan {
    pub key_path: String,
    pub values: Vec<RegistryValue>,
}

/// The uninstall entry's key below the current user's hive.
pub open spec fn uninstall_key_path() -> Seq<char> {
    "Software\\Microsoft\\Windows\\CurrentVersion\\Uninstall\\LoArchive"@
}

/// Builds the uninstall entry for the install at `install_path`: the
/// application's display data, its icon and location, and the uninstaller
/// to run, each pinned to its value.
pub fn register_uninstall(install_path: &str) -> (p: RegistryPlan)
    ensures
        p.key_path@ == uninstall_key_path(),
        p.values@.len() == 6,
        p.values@[0].name@ == "DisplayName"@ && p.values@[0].data@ == "LoArchive"@,
        p.values@[1].name@ == "DisplayVersion"@ && p.values@[1].data@ == "1.0.0"@,
        p.values@[2].name@ == "Publisher"@ && p.values@[2].data@ == "Yar1991-Translation"@,
        p.values@[3].name@ == "DisplayIcon"@ && p.values@[3].data@ == joined(install_path@, app_exe_name()),
        p.values@[4].name@ == "UninstallString"@ && p.values@[4].data@ == joined(install_path@, "uninstall.exe"@),
        p.values@[5].name@ == "InstallLocation"@ && p.values@[5].data@ == install_path@,
{
    let mut values: Vec<RegistryValue> = Vec::new();
    values.push(RegistryValue { name: "DisplayName".to_owned(), data: "LoArchive".to_owned() });
    values.push(RegistryValue { name: "DisplayVersion".to_owned(), data: "1.0.0".to_owned() });
    values.push(RegistryValue {
        name: "Publisher".to_owned(),
        data: "Yar1991-Translation".to_owned(),
    });
    values.push(RegistryValue {
        name: "DisplayIcon".to_owned(),
        data: join_path(install_path, "LoArchive.exe"),
    });
    values.push(RegistryValue {
        name: "UninstallString".to_owned(),
        data: join_path(install_path, "uninstall.exe"),
    });
    values.push(RegistryValue {
        name: "InstallLocation".to_owned(),
        data: install_path.to_owned(),
    });
    RegistryPlan {
        key_path: "Software\\Microsoft\\Windows\\CurrentVersion\\Uninstall\\LoArchive".to_owned(),
        values,
    }
}

/// The registry key whose values start programs with the user's session.
pub open spec fn run_key_path() -> Seq<char> {
    "Software\\Microsoft\\Windows\\CurrentVersion\\Run"@
}

/// The autostart entry's value name.
pub open spec fn autostart_value_name() -> Seq<char> {
    "LoArchive"@
}

/// What to do with the autostart value: write it with the given data, or
/// delete it.
pub enum RegistryAction {
    SetValue { data: String },
    DeleteValue,
}

/// What toggling autostart asks the caller to do under the run key.
pub struct AutoStartPlan {
    pub key_path: String,
    pub value_name: String,
    pub action: RegistryAction,
}

/// Builds the autostart change for the install at `install_path`: enabling
/// writes the installed executable's path under the run key, disabling
/// deletes the entry.
pub fn set_auto_start(install_path: &str, enable: bool) -> (p: AutoStartPlan)
    ensures
        p.key_path@ == run_key_path(),
        p.value_name@ == autostart_value_name(),
        enable ==> (p.action matches RegistryAction::SetValue { data } && data@ == joined(
            install_path@,
            app_exe_name(),
        )),
        !enable ==> p.action is DeleteValue,
{
    let action: RegistryAction = if enable {
        RegistryAction::SetValue { data: join_path(install_path, "LoArchive.exe") }
    } else {
        RegistryAction::DeleteValue
    };
    AutoStartPlan {
        key_path: "Software\\Microsoft\\Windows\\CurrentVersion\\Run".to_owned(),
        value_name: "LoArchive".to_owned(),
        action,
    }
}

} // verus!
