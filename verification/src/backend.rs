//! Supervision of the one backend child process: the slot that holds its
//! handle, the decision of when to stop it, and the treatment of the output
//! it produces.
//!
//! The slot is the only shared mutable state of the launcher.  Spawning and
//! killing are performed by the caller; this module accounts for the handle
//! and guarantees that termination is asked for exactly once per stored
//! handle, and that asking again is a harmless no-op.

use vstd::prelude::*;
use crate::paths::joined;

verus! {

/// An opaque reference to a spawned backend process, identified to this
/// library by a plain number (for instance the operating system's process
/// id).  The caller keeps whatever richer handle its process API gave it.
#[derive(Clone, Copy, PartialEq, Eq, Structural, Debug)]
pub struct BackendHandle {
    pub id: u64,
}

/// The slot that owns the handle of the running backend, if any.  It holds
/// no handle or one, never more.
pub struct BackendSlot {
    pub handle: Option<BackendHandle>,
}

/// What taking the slot's content leaves behind and hands out.
pub open spec fn spec_take(s: BackendSlot) -> (BackendSlot, Option<BackendHandle>) {
    (BackendSlot { handle: None }, s.handle)
}

impl BackendSlot {
    /// How many handles the slot holds.
    pub open spec fn occupancy(self) -> nat {
        match self.handle {
            None => 0,
            Some(_) => 1,
        }
    }

    /// A slot holding no handle.
    pub fn empty() -> (r: BackendSlot)
        ensures
            r.handle is None,
    {
        BackendSlot { handle: None }
    }

    /// Stores the handle of a freshly spawned backend.  The previous content,
    /// if any, is simply replaced: a start before a stop loses the prior
    /// handle, which the unconditional name sweep of [`stop_backend`] exists
    /// to catch.
    pub fn store(&mut self, h: BackendHandle)
        ensures
            final(self).handle == Some(h),
    {
        self.handle = Some(h);
    }

    /// Removes and returns the stored handle; the slot is empty afterwards,
    /// so a second take observes nothing and changes nothing.
    pub fn take(&mut self) -> (r: Option<BackendHandle>)
        ensures
            *final(self) == spec_take(*old(self)).0,
            r == spec_take(*old(self)).1,
    {
        let r = self.handle;
        self.handle = None;
        r
    }
}

/// The backend handle slot never holds more than one handle: its occupancy
/// is zero or one in every state.
pub proof fn lemma_slot_at_most_one(s: BackendSlot)
    ensures
        s.occupancy() <= 1,
{
}

/// Taking from the slot twice is safe: whatever the starting state, the
/// second take finds the slot empty, hands out nothing, and leaves the slot
/// as it was.
pub proof fn lemma_take_idempotent(s: BackendSlot)
    ensures
        spec_take(spec_take(s).0).1 is None,
        spec_take(spec_take(s).0).0 == spec_take(s).0,
{
}

/// The process name the forceful fallback kill matches on.
pub open spec fn fallback_kill_name() -> Seq<char> {
    "loarchive-backend-x86_64-pc-windows-msvc.exe"@
}

/// What a stop request asks the caller to do: kill the stored handle, if one
/// was stored, and in any case sweep for stray processes under the backend's
/// executable name.
pub struct StopPlan {
    pub to_kill: Option<BackendHandle>,
    pub sweep_name: String,
}

/// Empties the slot and says what to terminate.  `to_kill` is exactly the
/// handle that was stored, so a second call in a row asks for no kill; the
/// name sweep is requested unconditionally, as a safety net for a process
/// whose handle was lost.
pub fn stop_backend(slot: &mut BackendSlot) -> (p: StopPlan)
    ensures
        *final(slot) == spec_take(*old(slot)).0,
        p.to_kill == spec_take(*old(slot)).1,
        p.sweep_name@ == fallback_kill_name(),
{
    let to_kill = slot.take();
    StopPlan { to_kill, sweep_name: "loarchive-backend-x86_64-pc-windows-msvc.exe".to_owned() }
}

/// The process-creation flag that suppresses a visible console window on
/// the windowed platform; passed with every helper command the application
/// runs there.
pub const CREATE_NO_WINDOW: u32 = 0x08000000;

/// The label of the application window whose closing stops the backend.
pub open spec fn main_window_label() -> Seq<char> {
    "main"@
}

/// A lifecycle notification delivered to the launcher.
pub enum AppEvent {
    WindowCloseRequested { label: String },
    WindowDestroyed { label: String },
    RunExit,
    Other,
}

/// Whether an event must stop the backend: the application's exit, or the
/// closing or destruction of the main window.
pub open spec fn spec_should_stop(e: AppEvent) -> bool {
    match e {
        AppEvent::WindowCloseRequested { label } => label@ == main_window_label(),
        AppEvent::WindowDestroyed { label } => label@ == main_window_label(),
        AppEvent::RunExit => true,
        AppEvent::Other => false,
    }
}

/// Decides whether `e` stops the backend.
pub fn should_stop_backend(e: &AppEvent) -> (r: bool)
    ensures
        r == spec_should_stop(*e),
{
    match e {
        AppEvent::WindowCloseRequested { label } => {
            let main_label: String = "main".to_owned();
            *label == main_label
        },
        AppEvent::WindowDestroyed { label } => {
            let main_label: String = "main".to_owned();
            *label == main_label
        },
        AppEvent::RunExit => true,
        AppEvent::Other => false,
    }
}

/// The name of the bundled backend sidecar executable.
pub fn sidecar_name() -> (r: String)
    ensures
        r@ == "loarchive-backend"@,
{
    "loarchive-backend".to_owned()
}

/// The interpreter to try for the script-based backend after `failures`
/// earlier attempts were not launchable: the primary name first, one
/// fallback name after it, and nothing once both have failed.
pub fn next_interpreter(failures: usize) -> (r: Option<String>)
    ensures
        failures == 0 ==> (r matches Some(s) && s@ == "python"@),
        failures == 1 ==> (r matches Some(s) && s@ == "python3"@),
        failures >= 2 ==> r is None,
{
    if failures == 0 {
        Some("python".to_owned())
    } else if failures == 1 {
        Some("python3".to_owned())
    } else {
        None
    }
}

/// The text `String::from_utf8_lossy` decodes from the given bytes.
pub uninterp spec fn utf8_lossy(bytes: Seq<u8>) -> Seq<char>;

/// Relies on `String::from_utf8_lossy`: the decoded text is a function of
/// the bytes alone, and no bytes decode to no text.
#[verifier::external_body]
fn decode_output(bytes: &Vec<u8>) -> (r: String)
    ensures
        r@ == utf8_lossy(bytes@),
        bytes@.len() == 0 ==> r@.len() == 0,
{
    String::from_utf8_lossy(bytes).to_string()
}

/// One event read from the backend's output stream.
pub enum BackendEvent {
    Stdout(Vec<u8>),
    Stderr(Vec<u8>),
    Terminated,
    Other,
}

/// What the launcher does with one output event: the line to log, on which
/// of its own streams, and whether to stop reading.
pub struct EventReaction {
    pub line: Option<String>,
    pub to_stderr: bool,
    pub stop_reading: bool,
}

/// The log line for a chunk of backend standard output.
pub open spec fn stdout_line(bytes: Seq<u8>) -> Seq<char> {
    "[Backend] "@ + utf8_lossy(bytes)
}

/// The log line for a chunk of backend standard error.
pub open spec fn stderr_line(bytes: Seq<u8>) -> Seq<char> {
    "[Backend Error] "@ + utf8_lossy(bytes)
}

/// The log line recorded when the backend terminates on its own.
pub open spec fn terminated_line() -> Seq<char> {
    "[Backend] process terminated"@
}

/// Turns one output event into the launcher's reaction: output and error
/// chunks become prefixed log lines on the matching stream, termination is
/// logged and ends the reading loop, and anything else is ignored.
pub fn handle_backend_event(e: &BackendEvent) -> (r: EventReaction)
    ensures
        match *e {
            BackendEvent::Stdout(bytes) => r.line matches Some(l) && l@ == stdout_line(bytes@)
                && !r.to_stderr && !r.stop_reading,
            BackendEvent::Stderr(bytes) => r.line matches Some(l) && l@ == stderr_line(bytes@)
                && r.to_stderr && !r.stop_reading,
            BackendEvent::Terminated => r.line matches Some(l) && l@ == terminated_line()
                && !r.to_stderr && r.stop_reading,
            BackendEvent::Other => r.line is None && !r.stop_reading,
        },
{
    match e {
        BackendEvent::Stdout(bytes) => {
            let mut line: String = "[Backend] ".to_owned();
            let text = decode_output(bytes);
            line.append(text.as_str());
            EventReaction { line: Some(line), to_stderr: false, stop_reading: false }
        },
        BackendEvent::Stderr(bytes) => {
            let mut line: String = "[Backend Error] ".to_owned();
            let text = decode_output(bytes);
            line.append(text.as_str());
            EventReaction { line: Some(line), to_stderr: true, stop_reading: false }
        },
        BackendEvent::Terminated => {
            EventReaction {
                line: Some("[Backend] process terminated".to_owned()),
                to_stderr: false,
                stop_reading: true,
            }
        },
        BackendEvent::Other => {
            EventReaction { line: None, to_stderr: false, stop_reading: false }
        },
    }
}

/// The script file the interpreter is handed, under the resolved candidate
/// directory.
pub fn backend_script_path(dir: &str) -> (r: String)
    ensures
        r@ == joined(dir@, "main.py"@),
{
    crate::paths::join_path(dir, "main.py")
}

} // verus!
