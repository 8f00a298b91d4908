//! The records exchanged with the user interface: the choices made before an
//! install starts, and the progress snapshots emitted while it runs.

use vstd::prelude::*;

verus! {

/// The user's choices for one install: where to put the application, which
/// shortcuts to create, and whether it should start with the session.
pub struct InstallOptions {
    pub install_path: String,
    pub create_desktop_shortcut: bool,
    pub create_start_menu_shortcut: bool,
    pub auto_start: bool,
}

/// One progress snapshot: how far the install has come, a short status label,
/// and a more detailed log line.
#[derive(Clone)]
pub struct InstallProgress {
    pub progress: u32,
    pub status: String,
    pub log: String,
}

/// The mathematical content of an [`InstallProgress`] value.
#[verifier::ext_equal]
pub ghost struct ProgressModel {
    pub progress: int,
    pub status: Seq<char>,
    pub log: Seq<char>,
}

impl View for InstallProgress {
    type V = ProgressModel;

    open spec fn view(&self) -> ProgressModel {
        ProgressModel { progress: self.progress as int, status: self.status@, log: self.log@ }
    }
}

/// The models of a sequence of emitted progress events.
pub open spec fn event_models(events: Seq<InstallProgress>) -> Seq<ProgressModel> {
    events.map_values(|e: InstallProgress| e@)
}

/// Appending one event appends its model.
pub proof fn lemma_event_models_push(events: Seq<InstallProgress>, e: InstallProgress)
    ensures
        event_models(events.push(e)) == event_models(events).push(e@),
{
    assert(event_models(events.push(e)) =~= event_models(events).push(e@));
}

} // verus!
