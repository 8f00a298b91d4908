use loarchive::paths::{
    backend_candidates, get_available_space, get_default_install_path, join_path,
    launch_app_path, resolve_backend_path,
};
use loarchive::shortcuts::{
    register_uninstall, set_auto_start, shortcut_plan, RegistryAction,
};

#[test]
fn join_builds_the_expected_path() {
    assert_eq!(join_path("/tmp/LoArchive", "a/b.txt"), "/tmp/LoArchive/a/b.txt");
    assert_eq!(join_path("", "x"), "/x");
}

#[test]
fn default_install_path_ends_with_the_app_directory() {
    // the base directory depends on the environment; the shape does not
    match get_default_install_path() {
        Ok(p) => assert!(p.ends_with("/LoArchive")),
        Err(e) => assert_eq!(e, "无法获取本地应用数据目录"),
    }
}

#[test]
fn available_space_is_the_placeholder() {
    assert_eq!(get_available_space(String::from("/anywhere")), Ok(String::from("充足")));
}

#[test]
fn launch_path_points_at_the_installed_executable() {
    assert_eq!(launch_app_path("/tmp/LoArchive"), "/tmp/LoArchive/LoArchive.exe");
}

#[test]
fn candidates_are_probed_in_a_fixed_order() {
    let c = backend_candidates("/opt/app/bin", "/work");
    assert_eq!(
        c,
        vec![
            String::from("/opt/app/bin/backend"),
            String::from("/opt/app/bin/../backend"),
            String::from("/opt/app/bin/../../backend"),
            String::from("/opt/app/bin/../../../backend"),
            String::from("/work/backend"),
        ]
    );
}

#[test]
fn three_candidates_missing_the_third_existing_is_chosen() {
    let present = vec![false, false, true, false, false];
    assert_eq!(resolve_backend_path(&present), 2);
}

#[test]
fn first_existing_candidate_wins() {
    assert_eq!(resolve_backend_path(&vec![true, true, false]), 0);
    assert_eq!(resolve_backend_path(&vec![false, true, true]), 1);
}

#[test]
fn no_candidate_existing_falls_back_to_the_first() {
    assert_eq!(resolve_backend_path(&vec![false, false, false]), 0);
}

#[test]
fn desktop_shortcut_plan_writes_into_the_desktop_directory() {
    let p = shortcut_plan("/home/u/Desktop", "/tmp/LoArchive", true);
    assert_eq!(p.base_dir, "/home/u/Desktop");
    assert_eq!(p.dir_to_create, None);
    assert_eq!(p.shortcut_path, "/home/u/Desktop/LoArchive.lnk");
    assert_eq!(
        p.script,
        "$WshShell = New-Object -comObject WScript.Shell; \
         $Shortcut = $WshShell.CreateShortcut('/home/u/Desktop/LoArchive.lnk'); \
         $Shortcut.TargetPath = '/tmp/LoArchive/LoArchive.exe'; \
         $Shortcut.WorkingDirectory = '/tmp/LoArchive'; \
         $Shortcut.Save()"
    );
}

#[test]
fn start_menu_shortcut_plan_creates_its_folder_first() {
    let p = shortcut_plan("/home/u/.data", "/tmp/LoArchive", false);
    let folder = "/home/u/.data/Microsoft\\Windows\\Start Menu\\Programs\\LoArchive";
    assert_eq!(p.dir_to_create.as_deref(), Some(folder));
    assert_eq!(p.shortcut_path, format!("{}/LoArchive.lnk", folder));
}

#[test]
fn create_shortcut_builds_on_the_environment_or_says_why_not() {
    match loarchive::shortcuts::create_shortcut("/tmp/LoArchive", true) {
        Ok(p) => {
            assert_eq!(p.dir_to_create, None);
            assert_eq!(p.shortcut_path, format!("{}/LoArchive.lnk", p.base_dir));
        }
        Err(e) => assert_eq!(e, "无法获取桌面目录"),
    }
    match loarchive::shortcuts::create_shortcut("/tmp/LoArchive", false) {
        Ok(p) => {
            let folder =
                format!("{}/Microsoft\\Windows\\Start Menu\\Programs\\LoArchive", p.base_dir);
            assert_eq!(p.dir_to_create.as_deref(), Some(folder.as_str()));
            assert_eq!(p.shortcut_path, format!("{}/LoArchive.lnk", folder));
        }
        Err(e) => assert_eq!(e, "无法获取应用数据目录"),
    }
}

#[test]
fn uninstall_entry_lists_the_six_values() {
    let p = register_uninstall("/tmp/LoArchive");
    assert_eq!(
        p.key_path,
        "Software\\Microsoft\\Windows\\CurrentVersion\\Uninstall\\LoArchive"
    );
    let pairs: Vec<(&str, &str)> = p
        .values
        .iter()
        .map(|v| (v.name.as_str(), v.data.as_str()))
        .collect();
    assert_eq!(
        pairs,
        vec![
            ("DisplayName", "LoArchive"),
            ("DisplayVersion", "1.0.0"),
            ("Publisher", "Yar1991-Translation"),
            ("DisplayIcon", "/tmp/LoArchive/LoArchive.exe"),
            ("UninstallString", "/tmp/LoArchive/uninstall.exe"),
            ("InstallLocation", "/tmp/LoArchive"),
        ]
    );
}

#[test]
fn enabling_autostart_writes_the_executable_path() {
    let p = set_auto_start("/tmp/LoArchive", true);
    assert_eq!(p.key_path, "Software\\Microsoft\\Windows\\CurrentVersion\\Run");
    assert_eq!(p.value_name, "LoArchive");
    match p.action {
        RegistryAction::SetValue { data } => assert_eq!(data, "/tmp/LoArchive/LoArchive.exe"),
        RegistryAction::DeleteValue => panic!("enable must write, not delete"),
    }
}

#[test]
fn disabling_autostart_deletes_the_entry() {
    let p = set_auto_start("/tmp/LoArchive", false);
    assert!(matches!(p.action, RegistryAction::DeleteValue));
}
