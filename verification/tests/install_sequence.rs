use loarchive::install::{
    copy_payload, copy_step_outcome, InstallAction, InstallMachine, InstallPhase, PayloadFile,
    StepOutcome,
};
use loarchive::options::InstallOptions;

fn options(desktop: bool, start_menu: bool, auto_start: bool) -> InstallOptions {
    InstallOptions {
        install_path: String::from("/tmp/LoArchive"),
        create_desktop_shortcut: desktop,
        create_start_menu_shortcut: start_menu,
        auto_start,
    }
}

/// Drives a machine to the end, reporting success for every action, and
/// returns the actions it requested.
fn drive_all_success(m: &mut InstallMachine) -> Vec<InstallAction> {
    let mut actions = Vec::new();
    while let Some(a) = m.pending_action() {
        actions.push(a);
        m.step(StepOutcome::Success);
    }
    actions
}

#[test]
fn full_install_reaches_one_hundred() {
    let mut m = InstallMachine::start(&options(true, true, true));
    let actions = drive_all_success(&mut m);
    assert_eq!(m.phase, InstallPhase::Done);
    assert!(m.failure.is_none());
    let last = m.events.last().unwrap();
    assert_eq!(last.progress, 100);
    assert_eq!(last.status, "安装完成");
    assert_eq!(last.log, "✓ LoArchive 安装成功！");
    assert_eq!(
        actions,
        vec![
            InstallAction::CreateDir,
            InstallAction::CopyPayload,
            InstallAction::CreateShortcut { desktop: true },
            InstallAction::CreateShortcut { desktop: false },
            InstallAction::RegisterUninstall,
            InstallAction::ConfigureAutoStart,
        ]
    );
    let percentages: Vec<u32> = m.events.iter().map(|e| e.progress).collect();
    assert_eq!(percentages, vec![5, 10, 15, 50, 60, 70, 75, 80, 85, 90, 95, 100]);
}

#[test]
fn fatal_directory_failure_stops_the_sequence() {
    let mut m = InstallMachine::start(&options(true, true, true));
    assert_eq!(m.pending_action(), Some(InstallAction::CreateDir));
    m.step(StepOutcome::Failure(String::from("permission denied")));
    assert_eq!(m.phase, InstallPhase::Failed);
    assert_eq!(m.pending_action(), None);
    assert_eq!(
        m.failure.as_deref(),
        Some("创建目录失败: permission denied")
    );
    // only the opening event went out; nothing claims partial success
    assert_eq!(m.events.len(), 1);
    assert_eq!(m.events[0].progress, 5);
}

#[test]
fn fatal_copy_failure_stops_the_sequence() {
    let mut m = InstallMachine::start(&options(false, false, false));
    m.step(StepOutcome::Success);
    assert_eq!(m.pending_action(), Some(InstallAction::CopyPayload));
    m.step(StepOutcome::Failure(String::from("disk full")));
    assert_eq!(m.phase, InstallPhase::Failed);
    assert_eq!(m.failure.as_deref(), Some("复制文件失败: disk full"));
}

#[test]
fn best_effort_failures_do_not_stop_the_sequence() {
    let mut m = InstallMachine::start(&options(true, true, true));
    m.step(StepOutcome::Success);
    m.step(StepOutcome::Success);
    // every remaining step fails, yet the install completes
    while m.pending_action().is_some() {
        m.step(StepOutcome::Failure(String::from("ignored")));
    }
    assert_eq!(m.phase, InstallPhase::Done);
    assert!(m.failure.is_none());
    assert_eq!(m.events.last().unwrap().progress, 100);
}

#[test]
fn no_shortcut_flags_no_shortcut_actions() {
    let mut m = InstallMachine::start(&options(false, false, false));
    let actions = drive_all_success(&mut m);
    assert_eq!(m.phase, InstallPhase::Done);
    assert_eq!(m.events.last().unwrap().progress, 100);
    assert!(actions
        .iter()
        .all(|a| !matches!(a, InstallAction::CreateShortcut { .. })));
    assert_eq!(
        actions,
        vec![
            InstallAction::CreateDir,
            InstallAction::CopyPayload,
            InstallAction::RegisterUninstall,
        ]
    );
}

#[test]
fn start_menu_only_branch() {
    let mut m = InstallMachine::start(&options(false, true, false));
    let actions = drive_all_success(&mut m);
    assert_eq!(m.phase, InstallPhase::Done);
    assert_eq!(
        actions,
        vec![
            InstallAction::CreateDir,
            InstallAction::CopyPayload,
            InstallAction::CreateShortcut { desktop: false },
            InstallAction::RegisterUninstall,
        ]
    );
    let percentages: Vec<u32> = m.events.iter().map(|e| e.progress).collect();
    assert_eq!(percentages, vec![5, 10, 15, 50, 75, 80, 85, 90, 100]);
}

#[test]
fn payload_copy_keeps_tree_and_bytes() {
    let files = vec![
        PayloadFile { rel_path: String::from("a/b.txt"), contents: b"alpha".to_vec() },
        PayloadFile { rel_path: String::from("c.txt"), contents: b"gamma\x00\xff".to_vec() },
    ];
    let installed = copy_payload(&files, "/tmp/LoArchive");
    assert_eq!(installed.len(), 2);
    assert_eq!(installed[0].path, "/tmp/LoArchive/a/b.txt");
    assert_eq!(installed[0].contents, b"alpha".to_vec());
    assert_eq!(installed[1].path, "/tmp/LoArchive/c.txt");
    assert_eq!(installed[1].contents, b"gamma\x00\xff".to_vec());
}

#[test]
fn payload_copy_of_nothing_installs_nothing() {
    let files: Vec<PayloadFile> = Vec::new();
    let installed = copy_payload(&files, "/tmp/LoArchive");
    assert!(installed.is_empty());
}

#[test]
fn missing_payload_is_not_an_error() {
    let r = copy_step_outcome(false, StepOutcome::Failure(String::from("ignored")));
    assert!(matches!(r, StepOutcome::Success));
    let r = copy_step_outcome(true, StepOutcome::Success);
    assert!(matches!(r, StepOutcome::Success));
    match copy_step_outcome(true, StepOutcome::Failure(String::from("disk full"))) {
        StepOutcome::Failure(m) => assert_eq!(m, "disk full"),
        StepOutcome::Success => panic!("a present payload keeps the copy's own failure"),
    }
}
