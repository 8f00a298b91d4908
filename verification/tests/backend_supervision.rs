use loarchive::backend::{
    handle_backend_event, next_interpreter, should_stop_backend, sidecar_name, stop_backend,
    AppEvent, BackendEvent, BackendHandle, BackendSlot,
};

#[test]
fn slot_holds_at_most_one_handle() {
    let mut slot = BackendSlot::empty();
    assert!(slot.handle.is_none());
    slot.store(BackendHandle { id: 11 });
    assert_eq!(slot.handle, Some(BackendHandle { id: 11 }));
    // a second start before a stop replaces the handle; the slot still holds one
    slot.store(BackendHandle { id: 12 });
    assert_eq!(slot.handle, Some(BackendHandle { id: 12 }));
}

#[test]
fn stopping_twice_is_safe() {
    let mut slot = BackendSlot::empty();
    slot.store(BackendHandle { id: 41 });
    let first = stop_backend(&mut slot);
    assert_eq!(first.to_kill, Some(BackendHandle { id: 41 }));
    let second = stop_backend(&mut slot);
    assert_eq!(second.to_kill, None);
    assert!(slot.handle.is_none());
    // the name sweep is asked for both times, as a safety net
    assert_eq!(first.sweep_name, "loarchive-backend-x86_64-pc-windows-msvc.exe");
    assert_eq!(second.sweep_name, "loarchive-backend-x86_64-pc-windows-msvc.exe");
}

#[test]
fn stop_without_start_kills_nothing() {
    let mut slot = BackendSlot::empty();
    let plan = stop_backend(&mut slot);
    assert_eq!(plan.to_kill, None);
}

#[test]
fn which_events_stop_the_backend() {
    assert!(should_stop_backend(&AppEvent::WindowCloseRequested { label: String::from("main") }));
    assert!(should_stop_backend(&AppEvent::WindowDestroyed { label: String::from("main") }));
    assert!(should_stop_backend(&AppEvent::RunExit));
    assert!(!should_stop_backend(&AppEvent::WindowCloseRequested {
        label: String::from("settings")
    }));
    assert!(!should_stop_backend(&AppEvent::WindowDestroyed { label: String::from("about") }));
    assert!(!should_stop_backend(&AppEvent::Other));
}

#[test]
fn output_events_become_prefixed_log_lines() {
    let out = handle_backend_event(&BackendEvent::Stdout(b"listening on 8080".to_vec()));
    assert_eq!(out.line.as_deref(), Some("[Backend] listening on 8080"));
    assert!(!out.to_stderr);
    assert!(!out.stop_reading);

    let err = handle_backend_event(&BackendEvent::Stderr(b"oops".to_vec()));
    assert_eq!(err.line.as_deref(), Some("[Backend Error] oops"));
    assert!(err.to_stderr);
    assert!(!err.stop_reading);

    let term = handle_backend_event(&BackendEvent::Terminated);
    assert_eq!(term.line.as_deref(), Some("[Backend] process terminated"));
    assert!(term.stop_reading);

    let other = handle_backend_event(&BackendEvent::Other);
    assert!(other.line.is_none());
    assert!(!other.stop_reading);
}

#[test]
fn sidecar_and_interpreter_names() {
    assert_eq!(sidecar_name(), "loarchive-backend");
    assert_eq!(next_interpreter(0).as_deref(), Some("python"));
    assert_eq!(next_interpreter(1).as_deref(), Some("python3"));
    assert_eq!(next_interpreter(2), None);
    assert_eq!(next_interpreter(9), None);
}
