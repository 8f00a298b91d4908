//! The install sequence: create the directory, copy the payload, then the
//! best-effort integration steps, each announced to the user interface by
//! progress events.
//!
//! The sequence is a small state machine.  The caller performs one requested
//! action at a time (a directory creation, a file copy, a shortcut, a
//! registry write) and reports back whether it worked; the machine decides
//! what that means: the first two steps are fatal on error and abort the
//! sequence with a message, the later ones are best-effort and the sequence
//! goes on whatever happened.  Every install therefore either reaches the
//! final event at one hundred percent or stops at the first fatal step with
//! an error — a fact proved below.

use vstd::prelude::*;
use crate::options::{InstallOptions, InstallProgress, ProgressModel, event_models, lemma_event_models_push};
use crate::paths::joined;
use vstd::slice::slice_to_vec;

verus! {

/// Where the install sequence stands: which step's outcome it awaits, or how
/// it ended.
#[derive(Clone, Copy, PartialEq, Eq, Structural, Debug)]
pub enum InstallPhase {
    AwaitDir,
    AwaitCopy,
    AwaitDesktopShortcut,
    AwaitStartMenuShortcut,
    AwaitRegister,
    AwaitAutoStart,
    Done,
    Failed,
}

/// The action the machine asks the caller to perform next.
#[derive(Clone, Copy, PartialEq, Eq, Structural, Debug)]
pub enum InstallAction {
    CreateDir,
    CopyPayload,
    CreateShortcut { desktop: bool },
    RegisterUninstall,
    ConfigureAutoStart,
}

/// The caller's report on one performed action.
pub enum StepOutcome {
    Success,
    Failure(String),
}

/// The mathematical content of a [`StepOutcome`].
#[verifier::ext_equal]
pub ghost struct OutcomeModel {
    pub ok: bool,
    pub detail: Seq<char>,
}

impl View for StepOutcome {
    type V = OutcomeModel;

    open spec fn view(&self) -> OutcomeModel {
        match *self {
            StepOutcome::Success => OutcomeModel { ok: true, detail: Seq::empty() },
            StepOutcome::Failure(d) => OutcomeModel { ok: false, detail: d@ },
        }
    }
}

/// The progress event with the given percentage, status label and log line.
pub open spec fn progress_at(p: int, status: Seq<char>, log: Seq<char>) -> ProgressModel {
    ProgressModel { progress: p, status, log }
}

/// The opening event of the directory-creation step.
pub open spec fn e_dir_start() -> ProgressModel {
    progress_at(5, "创建安装目录..."@, "正在创建安装目录..."@)
}

/// The closing event of the directory-creation step.
pub open spec fn e_dir_done() -> ProgressModel {
    progress_at(10, "创建安装目录..."@, "✓ 安装目录已创建"@)
}

/// The opening event of the payload-copy step.
pub open spec fn e_copy_start() -> ProgressModel {
    progress_at(15, "解压程序文件..."@, "正在解压程序文件..."@)
}

/// The closing event of the payload-copy step.
pub open spec fn e_copy_done() -> ProgressModel {
    progress_at(50, "解压程序文件..."@, "✓ 程序文件已解压"@)
}

/// The opening event of the desktop-shortcut step.
pub open spec fn e_desktop_start() -> ProgressModel {
    progress_at(60, "创建桌面快捷方式..."@, "正在创建桌面快捷方式..."@)
}

/// The closing event of the desktop-shortcut step.
pub open spec fn e_desktop_done() -> ProgressModel {
    progress_at(70, "创建桌面快捷方式..."@, "✓ 桌面快捷方式已创建"@)
}

/// The opening event of the start-menu-shortcut step.
pub open spec fn e_menu_start() -> ProgressModel {
    progress_at(75, "创建开始菜单快捷方式..."@, "正在创建开始菜单快捷方式..."@)
}

/// The closing event of the start-menu-shortcut step.
pub open spec fn e_menu_done() -> ProgressModel {
    progress_at(80, "创建开始菜单快捷方式..."@, "✓ 开始菜单快捷方式已创建"@)
}

/// The opening event of the registration step.
pub open spec fn e_register_start() -> ProgressModel {
    progress_at(85, "注册应用程序..."@, "正在注册应用程序..."@)
}

/// The closing event of the registration step.
pub open spec fn e_register_done() -> ProgressModel {
    progress_at(90, "注册应用程序..."@, "✓ 应用程序已注册"@)
}

/// The opening event of the autostart step.
pub open spec fn e_autostart_start() -> ProgressModel {
    progress_at(95, "配置自动启动..."@, "正在配置自动启动..."@)
}

/// The final event: the install is complete at one hundred percent.
pub open spec fn e_complete() -> ProgressModel {
    progress_at(100, "安装完成"@, "✓ LoArchive 安装成功！"@)
}

/// The error reported when the install directory cannot be created.
pub open spec fn dir_fail_msg(detail: Seq<char>) -> Seq<char> {
    "创建目录失败: "@ + detail
}

/// The error reported when the payload cannot be copied.
pub open spec fn copy_fail_msg(detail: Seq<char>) -> Seq<char> {
    "复制文件失败: "@ + detail
}

/// The mathematical content of an [`InstallMachine`].
#[verifier::ext_equal]
pub ghost struct MachineModel {
    pub desktop: bool,
    pub start_menu: bool,
    pub auto_start: bool,
    pub phase: InstallPhase,
    pub events: Seq<ProgressModel>,
    pub failure: Option<Seq<char>>,
}

/// Whether the machine still awaits an outcome.
pub open spec fn is_await(p: InstallPhase) -> bool {
    match p {
        InstallPhase::Done => false,
        InstallPhase::Failed => false,
        _ => true,
    }
}

/// The action requested in a phase, none once the sequence ended.
pub open spec fn spec_action(p: InstallPhase) -> Option<InstallAction> {
    match p {
        InstallPhase::AwaitDir => Some(InstallAction::CreateDir),
        InstallPhase::AwaitCopy => Some(InstallAction::CopyPayload),
        InstallPhase::AwaitDesktopShortcut => Some(InstallAction::CreateShortcut { desktop: true }),
        InstallPhase::AwaitStartMenuShortcut => Some(
            InstallAction::CreateShortcut { desktop: false },
        ),
        InstallPhase::AwaitRegister => Some(InstallAction::RegisterUninstall),
        InstallPhase::AwaitAutoStart => Some(InstallAction::ConfigureAutoStart),
        InstallPhase::Done => None,
        InstallPhase::Failed => None,
    }
}

/// The machine as it stands when an install of the given choices begins.
pub open spec fn spec_start(desktop: bool, start_menu: bool, auto_start: bool) -> MachineModel {
    MachineModel {
        desktop,
        start_menu,
        auto_start,
        phase: InstallPhase::AwaitDir,
        events: seq![e_dir_start()],
        failure: None,
    }
}

/// `m` moved on to `phase` after emitting `added`.
pub open spec fn advanced(m: MachineModel, phase: InstallPhase, added: Seq<ProgressModel>) -> MachineModel {
    MachineModel {
        desktop: m.desktop,
        start_menu: m.start_menu,
        auto_start: m.auto_start,
        phase,
        events: m.events + added,
        failure: m.failure,
    }
}

/// `m` stopped by a fatal error with message `msg`.
pub open spec fn stopped(m: MachineModel, msg: Seq<char>) -> MachineModel {
    MachineModel {
        desktop: m.desktop,
        start_menu: m.start_menu,
        auto_start: m.auto_start,
        phase: InstallPhase::Failed,
        events: m.events,
        failure: Some(msg),
    }
}

/// Where the sequence goes once the payload is in place: to whichever
/// shortcut was asked for, else straight to registration.
pub open spec fn after_copy(m: MachineModel) -> MachineModel {
    if m.desktop {
        advanced(m, InstallPhase::AwaitDesktopShortcut, seq![e_copy_done(), e_desktop_start()])
    } else if m.start_menu {
        advanced(m, InstallPhase::AwaitStartMenuShortcut, seq![e_copy_done(), e_menu_start()])
    } else {
        advanced(m, InstallPhase::AwaitRegister, seq![e_copy_done(), e_register_start()])
    }
}

/// Where the sequence goes once the desktop shortcut step finished: to the
/// start-menu shortcut when asked for, else to registration.
pub open spec fn after_desktop(m: MachineModel) -> MachineModel {
    if m.start_menu {
        advanced(m, InstallPhase::AwaitStartMenuShortcut, seq![e_desktop_done(), e_menu_start()])
    } else {
        advanced(m, InstallPhase::AwaitRegister, seq![e_desktop_done(), e_register_start()])
    }
}

/// Where the sequence goes once registration finished: to autostart when
/// asked for, else to completion.
pub open spec fn after_register(m: MachineModel) -> MachineModel {
    if m.auto_start {
        advanced(m, InstallPhase::AwaitAutoStart, seq![e_register_done(), e_autostart_start()])
    } else {
        advanced(m, InstallPhase::Done, seq![e_register_done(), e_complete()])
    }
}

/// One transition of the install sequence: how the machine moves when the
/// caller reports the pending action's outcome.  Directory creation and
/// payload copy are fatal on failure; every later step's outcome is
/// discarded.  Ended machines do not move.
pub open spec fn spec_step(m: MachineModel, o: OutcomeModel) -> MachineModel {
    match m.phase {
        InstallPhase::AwaitDir => if o.ok {
            advanced(m, InstallPhase::AwaitCopy, seq![e_dir_done(), e_copy_start()])
        } else {
            stopped(m, dir_fail_msg(o.detail))
        },
        InstallPhase::AwaitCopy => if o.ok {
            after_copy(m)
        } else {
            stopped(m, copy_fail_msg(o.detail))
        },
        InstallPhase::AwaitDesktopShortcut => after_desktop(m),
        InstallPhase::AwaitStartMenuShortcut => advanced(
            m,
            InstallPhase::AwaitRegister,
            seq![e_menu_done(), e_register_start()],
        ),
        InstallPhase::AwaitRegister => after_register(m),
        InstallPhase::AwaitAutoStart => advanced(m, InstallPhase::Done, seq![e_complete()]),
        InstallPhase::Done => m,
        InstallPhase::Failed => m,
    }
}

/// The machine after the whole sequence of reported outcomes, stopping early
/// once it no longer awaits one.
pub open spec fn spec_run(m: MachineModel, outcomes: Seq<OutcomeModel>) -> MachineModel
    decreases outcomes.len(),
{
    if outcomes.len() == 0 || !is_await(m.phase) {
        m
    } else {
        spec_run(spec_step(m, outcomes[0]), outcomes.drop_first())
    }
}

/// The install sequence, driven by the caller: it announces each step with
/// progress events, asks for one action at a time, and accounts for the
/// reported outcomes.
pub struct InstallMachine {
    pub desktop: bool,
    pub start_menu: bool,
    pub auto_start: bool,
    pub phase: InstallPhase,
    pub events: Vec<InstallProgress>,
    pub failure: Option<String>,
}

impl View for InstallMachine {
    type V = MachineModel;

    open spec fn view(&self) -> MachineModel {
        MachineModel {
            desktop: self.desktop,
            start_menu: self.start_menu,
            auto_start: self.auto_start,
            phase: self.phase,
            events: event_models(self.events@),
            failure: match self.failure {
                None => None,
                Some(msg) => Some(msg@),
            },
        }
    }
}

/// A progress event as handed to the user interface.
fn progress(p: u32, status: &str, log: &str) -> (r: InstallProgress)
    ensures
        r@ == progress_at(p as int, status@, log@),
{
    InstallProgress { progress: p, status: status.to_owned(), log: log.to_owned() }
}

impl InstallMachine {
    /// Begins the sequence for the given choices; the first event is out and
    /// the directory creation is pending.
    pub fn start(opts: &InstallOptions) -> (m: InstallMachine)
        ensures
            m@ == spec_start(
                opts.create_desktop_shortcut,
                opts.create_start_menu_shortcut,
                opts.auto_start,
            ),
    {
        let mut events: Vec<InstallProgress> = Vec::new();
        events.push(progress(5, "创建安装目录...", "正在创建安装目录..."));
        let m = InstallMachine {
            desktop: opts.create_desktop_shortcut,
            start_menu: opts.create_start_menu_shortcut,
            auto_start: opts.auto_start,
            phase: InstallPhase::AwaitDir,
            events,
            failure: None,
        };
        proof {
            assert(m@.events =~= seq![e_dir_start()]);
            assert(m@ =~= spec_start(
                opts.create_desktop_shortcut,
                opts.create_start_menu_shortcut,
                opts.auto_start,
            ));
        }
        m
    }

    /// The action the caller is to perform next, none once the sequence
    /// ended.
    pub fn pending_action(&self) -> (a: Option<InstallAction>)
        ensures
            a == spec_action(self.phase),
    {
        match self.phase {
            InstallPhase::AwaitDir => Some(InstallAction::CreateDir),
            InstallPhase::AwaitCopy => Some(InstallAction::CopyPayload),
            InstallPhase::AwaitDesktopShortcut => Some(
                InstallAction::CreateShortcut { desktop: true },
            ),
            InstallPhase::AwaitStartMenuShortcut => Some(
                InstallAction::CreateShortcut { desktop: false },
            ),
            InstallPhase::AwaitRegister => Some(InstallAction::RegisterUninstall),
            InstallPhase::AwaitAutoStart => Some(InstallAction::ConfigureAutoStart),
            InstallPhase::Done => None,
            InstallPhase::Failed => None,
        }
    }

    /// Moves the machine by one reported outcome, exactly as [`spec_step`]
    /// says.
    pub fn step(&mut self, outcome: StepOutcome)
        requires
            is_await(old(self).phase),
        ensures
            final(self)@ == spec_step(old(self)@, outcome@),
    {
        let ghost o = outcome@;
        match self.phase {
            InstallPhase::AwaitDir => {
                match outcome {
                    StepOutcome::Success => {
                        self.push_two(
                            progress(10, "创建安装目录...", "✓ 安装目录已创建"),
                            progress(15, "解压程序文件...", "正在解压程序文件..."),
                            InstallPhase::AwaitCopy,
                        );
                    },
                    StepOutcome::Failure(detail) => {
                        let mut msg: String = "创建目录失败: ".to_owned();
                        msg.append(detail.as_str());
                        self.failure = Some(msg);
                        self.phase = InstallPhase::Failed;
                    },
                }
            },
            InstallPhase::AwaitCopy => {
                match outcome {
                    StepOutcome::Success => {
                        if self.desktop {
                            self.push_two(
                                progress(50, "解压程序文件...", "✓ 程序文件已解压"),
                                progress(60, "创建桌面快捷方式...", "正在创建桌面快捷方式..."),
                                InstallPhase::AwaitDesktopShortcut,
                            );
                        } else if self.start_menu {
                            self.push_two(
                                progress(50, "解压程序文件...", "✓ 程序文件已解压"),
                                progress(75, "创建开始菜单快捷方式...", "正在创建开始菜单快捷方式..."),
                                InstallPhase::AwaitStartMenuShortcut,
                            );
                        } else {
                            self.push_two(
                                progress(50, "解压程序文件...", "✓ 程序文件已解压"),
                                progress(85, "注册应用程序...", "正在注册应用程序..."),
                                InstallPhase::AwaitRegister,
                            );
                        }
                    },
                    StepOutcome::Failure(detail) => {
                        let mut msg: String = "复制文件失败: ".to_owned();
                        msg.append(detail.as_str());
                        self.failure = Some(msg);
                        self.phase = InstallPhase::Failed;
                    },
                }
            },
            InstallPhase::AwaitDesktopShortcut => {
                if self.start_menu {
                    self.push_two(
                        progress(70, "创建桌面快捷方式...", "✓ 桌面快捷方式已创建"),
                        progress(75, "创建开始菜单快捷方式...", "正在创建开始菜单快捷方式..."),
                        InstallPhase::AwaitStartMenuShortcut,
                    );
                } else {
                    self.push_two(
                        progress(70, "创建桌面快捷方式...", "✓ 桌面快捷方式已创建"),
                        progress(85, "注册应用程序...", "正在注册应用程序..."),
                        InstallPhase::AwaitRegister,
                    );
                }
            },
            InstallPhase::AwaitStartMenuShortcut => {
                self.push_two(
                    progress(80, "创建开始菜单快捷方式...", "✓ 开始菜单快捷方式已创建"),
                    progress(85, "注册应用程序...", "正在注册应用程序..."),
                    InstallPhase::AwaitRegister,
                );
            },
            InstallPhase::AwaitRegister => {
                if self.auto_start {
                    self.push_two(
                        progress(90, "注册应用程序...", "✓ 应用程序已注册"),
                        progress(95, "配置自动启动...", "正在配置自动启动..."),
                        InstallPhase::AwaitAutoStart,
                    );
                } else {
                    self.push_two(
                        progress(90, "注册应用程序...", "✓ 应用程序已注册"),
                        progress(100, "安装完成", "✓ LoArchive 安装成功！"),
                        InstallPhase::Done,
                    );
                }
            },
            InstallPhase::AwaitAutoStart => {
                let ghost evs0 = self.events@;
                let e = progress(100, "安装完成", "✓ LoArchive 安装成功！");
                self.events.push(e);
                self.phase = InstallPhase::Done;
                proof {
                    lemma_event_models_push(evs0, e);
                    assert(self@.events =~= event_models(evs0) + seq![e_complete()]);
                }
            },
            InstallPhase::Done => {
            },
            InstallPhase::Failed => {
            },
        }
        proof {
            assert(self@ =~= spec_step(old(self)@, o));
        }
    }

    /// Emits the closing event of one step and the opening event of the
    /// next, and moves to `phase`.
    fn push_two(&mut self, first: InstallProgress, second: InstallProgress, phase: InstallPhase)
        ensures
            final(self)@ == advanced(old(self)@, phase, seq![first@, second@]),
    {
        let ghost evs0 = self.events@;
        self.events.push(first);
        let ghost evs1 = self.events@;
        self.events.push(second);
        self.phase = phase;
        proof {
            lemma_event_models_push(evs0, first);
            lemma_event_models_push(evs1, second);
            assert(self@.events =~= event_models(evs0) + seq![first@, second@]);
            assert(self@ =~= advanced(old(self)@, phase, seq![first@, second@]));
        }
    }
}

/// How many outcomes the machine can still consume before it must end: an
/// upper bound that every transition strictly decreases.
pub open spec fn steps_left(p: InstallPhase) -> nat {
    match p {
        InstallPhase::AwaitDir => 6,
        InstallPhase::AwaitCopy => 5,
        InstallPhase::AwaitDesktopShortcut => 4,
        InstallPhase::AwaitStartMenuShortcut => 3,
        InstallPhase::AwaitRegister => 2,
        InstallPhase::AwaitAutoStart => 1,
        InstallPhase::Done => 0,
        InstallPhase::Failed => 0,
    }
}

/// What holds of the machine in every reachable state: it records a failure
/// message exactly when it failed, and when it is done its last event is the
/// completion event at one hundred percent.
pub open spec fn machine_inv(m: MachineModel) -> bool {
    &&& (m.phase is Failed <==> m.failure is Some)
    &&& (m.phase is Done ==> m.events.len() > 0 && m.events.last() == e_complete()
        && m.failure is None)
}

/// One transition keeps the invariant, keeps the install choices, comes
/// strictly closer to the end, and fails only on a reported failure of one
/// of the two fatal steps.
pub proof fn lemma_step_preserves(m: MachineModel, o: OutcomeModel)
    requires
        machine_inv(m),
        is_await(m.phase),
    ensures
        machine_inv(spec_step(m, o)),
        steps_left(spec_step(m, o).phase) < steps_left(m.phase),
        spec_step(m, o).desktop == m.desktop,
        spec_step(m, o).start_menu == m.start_menu,
        spec_step(m, o).auto_start == m.auto_start,
        spec_step(m, o).phase is Failed ==> (m.phase is AwaitDir || m.phase is AwaitCopy) && !o.ok,
{
}

/// A machine that no longer awaits an outcome is not moved by any further
/// ones.
pub proof fn lemma_run_stays(m: MachineModel, outcomes: Seq<OutcomeModel>)
    requires
        !is_await(m.phase),
    ensures
        spec_run(m, outcomes) == m,
{
}

/// Given at least as many outcomes as the machine has steps left, the run
/// ends: the machine is done or failed, with the invariant still holding.
pub proof fn lemma_run_terminal(m: MachineModel, outcomes: Seq<OutcomeModel>)
    requires
        machine_inv(m),
        steps_left(m.phase) <= outcomes.len(),
    ensures
        machine_inv(spec_run(m, outcomes)),
        !is_await(spec_run(m, outcomes).phase),
    decreases outcomes.len(),
{
    if is_await(m.phase) {
        lemma_step_preserves(m, outcomes[0]);
        lemma_run_terminal(spec_step(m, outcomes[0]), outcomes.drop_first());
    }
}

/// Once the two fatal steps are behind it, the machine can no longer fail.
pub proof fn lemma_run_no_fail(m: MachineModel, outcomes: Seq<OutcomeModel>)
    requires
        machine_inv(m),
        !(m.phase is AwaitDir),
        !(m.phase is AwaitCopy),
        !(m.phase is Failed),
    ensures
        !(spec_run(m, outcomes).phase is Failed),
    decreases outcomes.len(),
{
    if outcomes.len() > 0 && is_await(m.phase) {
        lemma_step_preserves(m, outcomes[0]);
        lemma_run_no_fail(spec_step(m, outcomes[0]), outcomes.drop_first());
    }
}

/// For every install choice and every sequence of reported outcomes, the
/// install sequence either completes — its last event is the completion
/// event at one hundred percent, with no failure recorded — or stops at the
/// first fatal step, the directory creation or the payload copy, with an
/// error message recorded; there is no third way, and no silent partial
/// success.
pub proof fn lemma_install_completes_or_fails(
    desktop: bool,
    start_menu: bool,
    auto_start: bool,
    outcomes: Seq<OutcomeModel>,
)
    requires
        outcomes.len() >= 6,
    ensures
        ({
            let end = spec_run(spec_start(desktop, start_menu, auto_start), outcomes);
            &&& end.phase is Done || end.phase is Failed
            &&& (end.phase is Done ==> end.events.len() > 0 && end.events.last() == e_complete()
                && end.failure is None)
            &&& (end.phase is Failed ==> if !outcomes[0].ok {
                end.failure == Some(dir_fail_msg(outcomes[0].detail))
            } else {
                !outcomes[1].ok && end.failure == Some(copy_fail_msg(outcomes[1].detail))
            })
        }),
{
    let m0 = spec_start(desktop, start_menu, auto_start);
    lemma_run_terminal(m0, outcomes);
    let end = spec_run(m0, outcomes);
    let m1 = spec_step(m0, outcomes[0]);
    assert(spec_run(m0, outcomes) == spec_run(m1, outcomes.drop_first()));
    if !outcomes[0].ok {
        lemma_run_stays(m1, outcomes.drop_first());
    } else if end.phase is Failed {
        let m2 = spec_step(m1, outcomes.drop_first()[0]);
        assert(spec_run(m1, outcomes.drop_first()) == spec_run(
            m2,
            outcomes.drop_first().drop_first(),
        ));
        assert(outcomes.drop_first()[0] == outcomes[1]);
        if !outcomes[1].ok {
            lemma_run_stays(m2, outcomes.drop_first().drop_first());
        } else {
            lemma_step_preserves(m0, outcomes[0]);
            lemma_step_preserves(m1, outcomes[1]);
            lemma_run_no_fail(m2, outcomes.drop_first().drop_first());
        }
    }
}

/// Whether a machine that was never asked for shortcuts can be about to
/// create one: with both shortcut flags clear, the two shortcut phases are
/// unreachable.
pub open spec fn shortcut_free(m: MachineModel) -> bool {
    &&& !m.desktop
    &&& !m.start_menu
    &&& !(m.phase is AwaitDesktopShortcut)
    &&& !(m.phase is AwaitStartMenuShortcut)
}

/// One transition keeps a machine without shortcut flags away from the
/// shortcut phases.
pub proof fn lemma_step_shortcut_free(m: MachineModel, o: OutcomeModel)
    requires
        shortcut_free(m),
    ensures
        shortcut_free(spec_step(m, o)),
{
}

/// Along any prefix of a run, a machine without shortcut flags never stands
/// in a shortcut phase.
pub proof fn lemma_run_prefix_shortcut_free(
    m: MachineModel,
    outcomes: Seq<OutcomeModel>,
    i: int,
)
    requires
        shortcut_free(m),
        0 <= i <= outcomes.len(),
    ensures
        shortcut_free(spec_run(m, outcomes.take(i))),
    decreases i,
{
    if i == 0 {
        assert(outcomes.take(0) =~= Seq::<OutcomeModel>::empty());
    } else if !is_await(m.phase) {
        lemma_run_stays(m, outcomes.take(i));
    } else {
        let m1 = spec_step(m, outcomes[0]);
        lemma_step_shortcut_free(m, outcomes[0]);
        assert(outcomes.take(i)[0] == outcomes[0]);
        assert(outcomes.take(i).drop_first() =~= outcomes.drop_first().take(i - 1));
        lemma_run_prefix_shortcut_free(m1, outcomes.drop_first(), i - 1);
        assert(spec_run(m, outcomes.take(i)) == spec_run(m1, outcomes.take(i).drop_first()));
    }
}

/// An install asked for no shortcuts still completes — provided its two
/// fatal steps succeed — and at no point along the way does the machine
/// request a shortcut action, so no shortcut file is ever asked for.
pub proof fn lemma_install_without_shortcuts(auto_start: bool, outcomes: Seq<OutcomeModel>)
    requires
        outcomes.len() >= 6,
        outcomes[0].ok,
        outcomes[1].ok,
    ensures
        ({
            let m0 = spec_start(false, false, auto_start);
            &&& spec_run(m0, outcomes).phase is Done
            &&& forall|i: int|
                0 <= i <= outcomes.len() ==> !(spec_action(
                    spec_run(m0, #[trigger] outcomes.take(i)).phase,
                ) matches Some(InstallAction::CreateShortcut { .. }))
        }),
{
    let m0 = spec_start(false, false, auto_start);
    let o0 = outcomes[0];
    let o1 = outcomes.drop_first()[0];
    let o2 = outcomes.drop_first().drop_first()[0];
    let o3 = outcomes.drop_first().drop_first().drop_first()[0];
    let m1 = spec_step(m0, o0);
    let m2 = spec_step(m1, o1);
    let m3 = spec_step(m2, o2);
    assert(o1 == outcomes[1]);
    assert(m1.phase is AwaitCopy);
    assert(m2.phase is AwaitRegister);
    let rest2 = outcomes.drop_first().drop_first();
    assert(spec_run(m0, outcomes) == spec_run(m1, outcomes.drop_first()));
    assert(spec_run(m1, outcomes.drop_first()) == spec_run(m2, rest2));
    if auto_start {
        let m4 = spec_step(m3, o3);
        assert(m3.phase is AwaitAutoStart);
        assert(m4.phase is Done);
        assert(spec_run(m2, rest2) == spec_run(m3, rest2.drop_first()));
        assert(spec_run(m3, rest2.drop_first()) == spec_run(m4, rest2.drop_first().drop_first()));
        lemma_run_stays(m4, rest2.drop_first().drop_first());
    } else {
        assert(m3.phase is Done);
        assert(spec_run(m2, rest2) == spec_run(m3, rest2.drop_first()));
        lemma_run_stays(m3, rest2.drop_first());
    }
    assert forall|i: int| 0 <= i <= outcomes.len() implies !(spec_action(
        spec_run(m0, #[trigger] outcomes.take(i)).phase,
    ) matches Some(InstallAction::CreateShortcut { .. })) by {
        lemma_run_prefix_shortcut_free(m0, outcomes, i);
    }
}

/// The copy step's outcome when the payload directory may be absent: with
/// nothing packaged there is nothing to copy, and that is success, not an
/// error; otherwise the copy's own result stands.
pub fn copy_step_outcome(payload_present: bool, copy_result: StepOutcome) -> (r: StepOutcome)
    ensures
        !payload_present ==> r is Success,
        payload_present ==> r == copy_result,
{
    if payload_present {
        copy_result
    } else {
        StepOutcome::Success
    }
}

/// One file of the packaged payload, named by its path relative to the
/// payload's root.
pub struct PayloadFile {
    pub rel_path: String,
    pub contents: Vec<u8>,
}

/// One file as the install writes it, at its final path.
pub struct InstalledFile {
    pub path: String,
    pub contents: Vec<u8>,
}

/// Lays the payload out under `dst_root`: every file keeps its place in the
/// tree — its final path is its relative path under the install root — and
/// its contents, byte for byte.
pub fn copy_payload(files: &Vec<PayloadFile>, dst_root: &str) -> (r: Vec<InstalledFile>)
    ensures
        r@.len() == files@.len(),
        forall|i: int|
            0 <= i < files@.len() ==> r@[i].path@ == joined(dst_root@, files@[i].rel_path@),
        forall|i: int| 0 <= i < files@.len() ==> r@[i].contents@ == files@[i].contents@,
{
    let n = files.len();
    let mut r: Vec<InstalledFile> = Vec::new();
    let mut i: usize = 0;
    while i < n
        invariant
            n == files@.len(),
            0 <= i <= n,
            r@.len() == i,
            forall|j: int| 0 <= j < i ==> r@[j].path@ == joined(dst_root@, files@[j].rel_path@),
            forall|j: int| 0 <= j < i ==> r@[j].contents@ == files@[j].contents@,
        decreases n - i,
    {
        let f = &files[i];
        let path = crate::paths::join_path(dst_root, f.rel_path.as_str());
        let contents = slice_to_vec(f.contents.as_slice());
        r.push(InstalledFile { path, contents });
        i += 1;
    }
    r
}

} // verus!
