use vstd::prelude::*;
use crate::command::{Command, command_of, parse_command};
use crate::patch::{patched, trapped_at, patch_word, is_trap_hit};

verus! {

/// What the debugger knows of its session.
pub struct DbgInfo {
    /// Process id of the traced child; 0 while none exists.
    pub pid: i32,
    /// The single breakpoint, once one has been asked for.
    pub brk_addr: Option<u64>,
    /// The original word at `brk_addr`, meaningful while `armed`.
    pub brk_val: u64,
    /// Whether the trap is currently written into the child's memory.
    pub armed: bool,
    /// The executable to launch.
    pub filename: String,
}

impl DbgInfo {
    /// A trap can only be in memory at a recorded address.
    pub open spec fn wf(&self) -> bool {
        self.armed ==> self.brk_addr.is_some()
    }
}

/// Marker: a traced child exists.
pub struct Running;

/// Marker: no child exists.
pub struct NotRunning;

/// A debugging session in the phase named by `T`.
pub struct ZDbg<T> {
    pub info: DbgInfo,
    pub _state: T,
}

/// The session between two commands, tagged by its phase. `Exit` ends the
/// command loop.
pub enum State {
    Running(ZDbg<Running>),
    NotRunning(ZDbg<NotRunning>),
    Exit,
}

/// How a wait for the child ended.
#[derive(PartialEq, Eq, Structural, Clone, Copy, Debug)]
pub enum WaitOutcome {
    /// The child exited normally.
    Exited,
    /// The child was killed by a signal.
    Signaled,
    /// The child stopped and is waiting for its tracer.
    Stopped,
    /// Any other status.
    Other,
}

/// An operation on the traced child that the caller performs for the session.
#[derive(PartialEq, Eq, Structural, Clone, Copy, Debug)]
pub enum Action {
    /// Start the target under trace with the command's words as its
    /// arguments and wait for its first stop; answered by `Event::Launched`.
    Launch,
    /// Read the word at an address; answered by `Event::WordRead`.
    ReadWord(u64),
    /// Write a word at an address; answered by `Event::WordWritten`.
    WriteWord(u64, u64),
    /// Read the program counter; answered by `Event::Pc`.
    ReadPc,
    /// Set the program counter; answered by `Event::PcWritten`.
    WritePc(u64),
    /// Execute one instruction and wait; answered by `Event::Waited`.
    Step,
    /// Resume freely and wait; answered by `Event::Waited`.
    Cont,
    /// Kill the child and wait; answered by `Event::Waited`.
    Kill,
}

/// What the caller observed while performing an `Action`.
#[derive(PartialEq, Eq, Structural, Clone, Copy, Debug)]
pub enum Event {
    /// The launched child's process id and how the first wait ended.
    Launched(i32, WaitOutcome),
    /// How a wait ended after a step, a continue or a kill.
    Waited(WaitOutcome),
    /// The word read, or `None` when the read failed.
    WordRead(Option<u64>),
    /// Whether a word write succeeded.
    WordWritten(bool),
    /// The program counter, or `None` when the registers could not be read.
    Pc(Option<u64>),
    /// Whether setting the program counter succeeded.
    PcWritten(bool),
    /// A step, continue, kill or wait request itself failed.
    ControlFailed,
}

/// A message for the user.
#[derive(PartialEq, Eq, Structural, Clone, Copy, Debug)]
pub enum Report {
    Silent,
    Help,
    NotRunning,
    AlreadyRunning,
    BreakAlreadySet(u64),
    BadAddress,
    Launched(i32),
    /// The word at an address is about to change from `before` to `after`.
    Patching(u64, u64, u64),
    /// Reading or writing the breakpoint word failed; the breakpoint is unset.
    PatchFailed(u64),
    /// The child stopped at this program counter.
    Stopped(u64),
    ChildExited,
}

/// Why a command could not be completed.
#[derive(PartialEq, Eq, Structural, Clone, Copy, Debug)]
pub enum Failure {
    /// The child exited or was killed before its first stop.
    LaunchFailed,
    /// A wait returned a status the session does not recognise, or an event
    /// answered a different operation.
    Unexpected,
    /// A register or memory access needed to finish a stop failed, or a
    /// process-control request failed.
    ProcessControl,
}

/// What follows once the breakpoint has been written (or failed to be).
#[derive(PartialEq, Eq, Structural, Clone, Copy, Debug)]
pub enum After {
    /// The command is over.
    Finish,
    /// Resume: check the program counter, then continue.
    Resume,
    /// Continue freely.
    Cont,
}

/// Which answer a command in progress is waiting for.
#[derive(PartialEq, Eq, Structural, Clone, Copy, Debug)]
pub enum Stage {
    Launching,
    InstallRead(After),
    /// The original word read, and what follows.
    InstallWrite(u64, After),
    ResumePc,
    Stepping,
    Continuing,
    StopPc,
    /// Restoring the original word; the rewound program counter.
    Restoring(u64),
    /// Setting the rewound program counter.
    Rewinding(u64),
    Killing,
}

/// A command in progress.
pub struct Machine {
    pub info: DbgInfo,
    pub stage: Stage,
}

/// The result of one decision: an operation to perform next, or the end of
/// the command.
pub enum Step {
    Pending(Machine, Action, Report),
    Done(State, Report),
    Failed(State, Failure),
}

pub open spec fn running(info: DbgInfo) -> State {
    State::Running(ZDbg { info, _state: Running })
}

pub open spec fn not_running(info: DbgInfo) -> State {
    State::NotRunning(ZDbg { info, _state: NotRunning })
}

pub open spec fn pending(info: DbgInfo, stage: Stage, action: Action, report: Report) -> Step {
    Step::Pending(Machine { info, stage }, action, report)
}

/// Dead: the wait saw the child exit or die of a signal.
pub open spec fn is_dead(o: WaitOutcome) -> bool {
    o == WaitOutcome::Exited || o == WaitOutcome::Signaled
}

/// `info` with the breakpoint forgotten.
pub open spec fn unset(info: DbgInfo) -> DbgInfo {
    DbgInfo { brk_addr: None, armed: false, ..info }
}

/// `info` once the child is gone: no trap is in any memory.
pub open spec fn gone(info: DbgInfo) -> DbgInfo {
    DbgInfo { armed: false, ..info }
}

/// What follows the breakpoint's installation (or its failure).
pub open spec fn proceed(info: DbgInfo, after: After, report: Report) -> Step {
    match after {
        After::Finish => Step::Done(running(info), report),
        After::Resume => pending(info, Stage::ResumePc, Action::ReadPc, report),
        After::Cont => pending(info, Stage::Continuing, Action::Cont, report),
    }
}

/// Start installing the recorded breakpoint, if there is one.
pub open spec fn install(info: DbgInfo, after: After, report: Report) -> Step {
    match info.brk_addr {
        Some(a) => pending(info, Stage::InstallRead(after), Action::ReadWord(a), report),
        None => proceed(info, after, report),
    }
}

impl Machine {
    /// The session invariant; while launching no child exists, so no trap is
    /// in memory.
    pub open spec fn wf(&self) -> bool {
        &&& self.info.wf()
        &&& self.stage == Stage::Launching ==> !self.info.armed
    }

    /// The decision taken on `ev` in this machine's stage.
    pub open spec fn next(self, ev: Event) -> Step {
        let info = self.info;
        match (self.stage, ev) {
            (Stage::Launching, Event::Launched(pid, o)) => {
                if o == WaitOutcome::Stopped {
                    install(DbgInfo { pid, armed: false, ..info }, After::Resume, Report::Launched(pid))
                } else if is_dead(o) {
                    Step::Failed(not_running(info), Failure::LaunchFailed)
                } else {
                    Step::Failed(not_running(info), Failure::Unexpected)
                }
            },
            (Stage::Launching, _) => Step::Failed(not_running(info), Failure::Unexpected),
            (Stage::InstallRead(after), Event::WordRead(r)) => match (info.brk_addr, r) {
                (Some(a), Some(v)) => pending(
                    info,
                    Stage::InstallWrite(v, after),
                    Action::WriteWord(a, patched(v)),
                    Report::Patching(a, v, patched(v)),
                ),
                (Some(a), None) => proceed(unset(info), after, Report::PatchFailed(a)),
                (None, _) => proceed(info, after, Report::Silent),
            },
            (Stage::InstallWrite(v, after), Event::WordWritten(ok)) => match info.brk_addr {
                Some(a) => if ok {
                    proceed(DbgInfo { brk_val: v, armed: true, ..info }, after, Report::Silent)
                } else {
                    proceed(unset(info), after, Report::PatchFailed(a))
                },
                None => proceed(info, after, Report::Silent),
            },
            (Stage::ResumePc, Event::Pc(Some(pc))) => if info.brk_addr == Some(pc) {
                pending(info, Stage::Stepping, Action::Step, Report::Silent)
            } else {
                pending(info, Stage::Continuing, Action::Cont, Report::Silent)
            },
            (Stage::Stepping, Event::Waited(o)) => if is_dead(o) {
                Step::Done(not_running(gone(info)), Report::ChildExited)
            } else if o == WaitOutcome::Stopped {
                if info.armed {
                    pending(info, Stage::Continuing, Action::Cont, Report::Silent)
                } else {
                    install(info, After::Cont, Report::Silent)
                }
            } else {
                Step::Failed(running(info), Failure::Unexpected)
            },
            (Stage::Continuing, Event::Waited(o)) => if is_dead(o) {
                Step::Done(not_running(gone(info)), Report::ChildExited)
            } else if o == WaitOutcome::Stopped {
                pending(info, Stage::StopPc, Action::ReadPc, Report::Silent)
            } else {
                Step::Failed(running(info), Failure::Unexpected)
            },
            (Stage::StopPc, Event::Pc(Some(pc))) => match info.brk_addr {
                Some(a) => if info.armed && trapped_at(pc, a) {
                    pending(info, Stage::Restoring(a), Action::WriteWord(a, info.brk_val), Report::Silent)
                } else {
                    Step::Done(running(info), Report::Stopped(pc))
                },
                None => Step::Done(running(info), Report::Stopped(pc)),
            },
            (Stage::Restoring(pc), Event::WordWritten(ok)) => if ok {
                pending(DbgInfo { armed: false, ..info }, Stage::Rewinding(pc), Action::WritePc(pc), Report::Silent)
            } else {
                Step::Failed(running(info), Failure::ProcessControl)
            },
            (Stage::Rewinding(pc), Event::PcWritten(ok)) => if ok {
                Step::Done(running(info), Report::Stopped(pc))
            } else {
                Step::Failed(running(info), Failure::ProcessControl)
            },
            (Stage::Killing, Event::Waited(o)) => if is_dead(o) {
                Step::Done(State::Exit, Report::Silent)
            } else {
                pending(info, Stage::Killing, Action::Kill, Report::Silent)
            },
            (_, Event::ControlFailed) => Step::Failed(running(info), Failure::ProcessControl),
            (_, Event::Pc(None)) => Step::Failed(running(info), Failure::ProcessControl),
            _ => Step::Failed(running(info), Failure::Unexpected),
        }
    }
}

impl ZDbg<NotRunning> {
    /// The decision taken on command `c` while no child exists.
    pub open spec fn idle_step(self, c: Command) -> Step {
        let info = self.info;
        match c {
            Command::Run => pending(info, Stage::Launching, Action::Launch, Report::Silent),
            Command::Break(a) => match (info.brk_addr, a) {
                (Some(b), _) => Step::Done(State::NotRunning(self), Report::BreakAlreadySet(b)),
                (None, None) => Step::Done(State::NotRunning(self), Report::BadAddress),
                (None, Some(a)) => Step::Done(not_running(DbgInfo { brk_addr: Some(a), ..info }), Report::Silent),
            },
            Command::Exit => Step::Done(State::Exit, Report::Silent),
            Command::Continue | Command::StepI | Command::Registers => Step::Done(
                State::NotRunning(self),
                Report::NotRunning,
            ),
            Command::Help => Step::Done(State::NotRunning(self), Report::Help),
            Command::Empty | Command::Unknown => Step::Done(State::NotRunning(self), Report::Silent),
        }
    }

    /// A session for `filename` with no child and no breakpoint.
    pub fn new(filename: String) -> (r: Self)
        ensures
            r.info == (DbgInfo { pid: 0, brk_addr: None, brk_val: 0, armed: false, filename }),
    {
        ZDbg {
            info: DbgInfo { pid: 0, brk_addr: None, brk_val: 0, armed: false, filename },
            _state: NotRunning,
        }
    }

    /// Handles one command while no child exists.
    pub fn do_cmd(self, cmd: &[&str]) -> (r: Step)
        ensures
            r == self.idle_step(command_of(cmd@)),
    {
        let c = parse_command(cmd);
        match c {
            Command::Run => Step::Pending(
                Machine { info: self.info, stage: Stage::Launching },
                Action::Launch,
                Report::Silent,
            ),
            Command::Break(a) => {
                match self.info.brk_addr {
                    Some(b) => Step::Done(State::NotRunning(self), Report::BreakAlreadySet(b)),
                    None => match a {
                        None => Step::Done(State::NotRunning(self), Report::BadAddress),
                        Some(a) => {
                            let mut s = self;
                            s.info.brk_addr = Some(a);
                            Step::Done(State::NotRunning(s), Report::Silent)
                        },
                    },
                }
            },
            Command::Exit => Step::Done(State::Exit, Report::Silent),
            Command::Continue | Command::StepI | Command::Registers => Step::Done(
                State::NotRunning(self),
                Report::NotRunning,
            ),
            Command::Help => Step::Done(State::NotRunning(self), Report::Help),
            Command::Empty | Command::Unknown => Step::Done(State::NotRunning(self), Report::Silent),
        }
    }
}

impl ZDbg<Running> {
    /// The decision taken on command `c` while a child exists.
    pub open spec fn running_step(self, c: Command) -> Step {
        let info = self.info;
        match c {
            Command::Break(a) => match (info.brk_addr, a) {
                (Some(b), _) => Step::Done(State::Running(self), Report::BreakAlreadySet(b)),
                (None, None) => Step::Done(State::Running(self), Report::BadAddress),
                (None, Some(a)) => install(
                    DbgInfo { brk_addr: Some(a), armed: false, ..info },
                    After::Finish,
                    Report::Silent,
                ),
            },
            Command::Continue => pending(info, Stage::ResumePc, Action::ReadPc, Report::Silent),
            Command::Run => Step::Done(State::Running(self), Report::AlreadyRunning),
            Command::Exit => pending(info, Stage::Killing, Action::Kill, Report::Silent),
            Command::Help => Step::Done(State::Running(self), Report::Help),
            Command::Empty | Command::Unknown | Command::StepI | Command::Registers => Step::Done(
                State::Running(self),
                Report::Silent,
            ),
        }
    }

    /// Handles one command while a child exists.
    pub fn do_cmd(self, cmd: &[&str]) -> (r: Step)
        ensures
            r == self.running_step(command_of(cmd@)),
    {
        let c = parse_command(cmd);
        match c {
            Command::Break(a) => {
                match self.info.brk_addr {
                    Some(b) => Step::Done(State::Running(self), Report::BreakAlreadySet(b)),
                    None => match a {
                        None => Step::Done(State::Running(self), Report::BadAddress),
                        Some(a) => {
                            let mut info = self.info;
                            info.brk_addr = Some(a);
                            info.armed = false;
                            Step::Pending(
                                Machine { info, stage: Stage::InstallRead(After::Finish) },
                                Action::ReadWord(a),
                                Report::Silent,
                            )
                        },
                    },
                }
            },
            Command::Continue => Step::Pending(
                Machine { info: self.info, stage: Stage::ResumePc },
                Action::ReadPc,
                Report::Silent,
            ),
            Command::Run => Step::Done(State::Running(self), Report::AlreadyRunning),
            Command::Exit => Step::Pending(
                Machine { info: self.info, stage: Stage::Killing },
                Action::Kill,
                Report::Silent,
            ),
            Command::Help => Step::Done(State::Running(self), Report::Help),
            Command::Empty | Command::Unknown | Command::StepI | Command::Registers => Step::Done(
                State::Running(self),
                Report::Silent,
            ),
        }
    }
}

/// Executes `install`.
fn start_install(info: DbgInfo, after: After, report: Report) -> (r: Step)
    ensures
        r == install(info, after, report),
{
    match info.brk_addr {
        Some(a) => Step::Pending(
            Machine { info, stage: Stage::InstallRead(after) },
            Action::ReadWord(a),
            report,
        ),
        None => go_on(info, after, report),
    }
}

/// Executes `proceed`.
fn go_on(info: DbgInfo, after: After, report: Report) -> (r: Step)
    ensures
        r == proceed(info, after, report),
{
    match after {
        After::Finish => Step::Done(State::Running(ZDbg { info, _state: Running }), report),
        After::Resume => Step::Pending(Machine { info, stage: Stage::ResumePc }, Action::ReadPc, report),
        After::Cont => Step::Pending(Machine { info, stage: Stage::Continuing }, Action::Cont, report),
    }
}

fn forget_breakpoint(info: DbgInfo) -> (r: DbgInfo)
    ensures
        r == unset(info),
{
    let mut info = info;
    info.brk_addr = None;
    info.armed = false;
    info
}

impl Machine {
    /// Takes the decision on `ev`: the next operation, or the end of the command.
    pub fn resume(self, ev: Event) -> (r: Step)
        ensures
            r == self.next(ev),
    {
        let mut info = self.info;
        match (self.stage, ev) {
            (Stage::Launching, Event::Launched(pid, o)) => {
                match o {
                    WaitOutcome::Stopped => {
                        info.pid = pid;
                        info.armed = false;
                        start_install(info, After::Resume, Report::Launched(pid))
                    },
                    WaitOutcome::Exited | WaitOutcome::Signaled => Step::Failed(
                        State::NotRunning(ZDbg { info, _state: NotRunning }),
                        Failure::LaunchFailed,
                    ),
                    WaitOutcome::Other => Step::Failed(
                        State::NotRunning(ZDbg { info, _state: NotRunning }),
                        Failure::Unexpected,
                    ),
                }
            },
            (Stage::Launching, _) => Step::Failed(
                State::NotRunning(ZDbg { info, _state: NotRunning }),
                Failure::Unexpected,
            ),
            (Stage::InstallRead(after), Event::WordRead(r)) => match (info.brk_addr, r) {
                (Some(a), Some(v)) => {
                    let p = patch_word(v);
                    Step::Pending(
                        Machine { info, stage: Stage::InstallWrite(v, after) },
                        Action::WriteWord(a, p),
                        Report::Patching(a, v, p),
                    )
                },
                (Some(a), None) => go_on(forget_breakpoint(info), after, Report::PatchFailed(a)),
                (None, _) => go_on(info, after, Report::Silent),
            },
            (Stage::InstallWrite(v, after), Event::WordWritten(ok)) => match info.brk_addr {
                Some(a) => if ok {
                    info.brk_val = v;
                    info.armed = true;
                    go_on(info, after, Report::Silent)
                } else {
                    go_on(forget_breakpoint(info), after, Report::PatchFailed(a))
                },
                None => go_on(info, after, Report::Silent),
            },
            (Stage::ResumePc, Event::Pc(Some(pc))) => if info.brk_addr == Some(pc) {
                Step::Pending(Machine { info, stage: Stage::Stepping }, Action::Step, Report::Silent)
            } else {
                Step::Pending(Machine { info, stage: Stage::Continuing }, Action::Cont, Report::Silent)
            },
            (Stage::Stepping, Event::Waited(o)) => match o {
                WaitOutcome::Exited | WaitOutcome::Signaled => {
                    info.armed = false;
                    Step::Done(State::NotRunning(ZDbg { info, _state: NotRunning }), Report::ChildExited)
                },
                WaitOutcome::Stopped => if info.armed {
                    Step::Pending(Machine { info, stage: Stage::Continuing }, Action::Cont, Report::Silent)
                } else {
                    start_install(info, After::Cont, Report::Silent)
                },
                WaitOutcome::Other => Step::Failed(
                    State::Running(ZDbg { info, _state: Running }),
                    Failure::Unexpected,
                ),
            },
            (Stage::Continuing, Event::Waited(o)) => match o {
                WaitOutcome::Exited | WaitOutcome::Signaled => {
                    info.armed = false;
                    Step::Done(State::NotRunning(ZDbg { info, _state: NotRunning }), Report::ChildExited)
                },
                WaitOutcome::Stopped => Step::Pending(
                    Machine { info, stage: Stage::StopPc },
                    Action::ReadPc,
                    Report::Silent,
                ),
                WaitOutcome::Other => Step::Failed(
                    State::Running(ZDbg { info, _state: Running }),
                    Failure::Unexpected,
                ),
            },
            (Stage::StopPc, Event::Pc(Some(pc))) => match info.brk_addr {
                Some(a) => if info.armed && is_trap_hit(pc, a) {
                    let v = info.brk_val;
                    Step::Pending(
                        Machine { info, stage: Stage::Restoring(a) },
                        Action::WriteWord(a, v),
                        Report::Silent,
                    )
                } else {
                    Step::Done(State::Running(ZDbg { info, _state: Running }), Report::Stopped(pc))
                },
                None => Step::Done(State::Running(ZDbg { info, _state: Running }), Report::Stopped(pc)),
            },
            (Stage::Restoring(pc), Event::WordWritten(ok)) => if ok {
                info.armed = false;
                Step::Pending(Machine { info, stage: Stage::Rewinding(pc) }, Action::WritePc(pc), Report::Silent)
            } else {
                Step::Failed(State::Running(ZDbg { info, _state: Running }), Failure::ProcessControl)
            },
            (Stage::Rewinding(pc), Event::PcWritten(ok)) => if ok {
                Step::Done(State::Running(ZDbg { info, _state: Running }), Report::Stopped(pc))
            } else {
                Step::Failed(State::Running(ZDbg { info, _state: Running }), Failure::ProcessControl)
            },
            (Stage::Killing, Event::Waited(o)) => match o {
                WaitOutcome::Exited | WaitOutcome::Signaled => Step::Done(State::Exit, Report::Silent),
                _ => Step::Pending(Machine { info, stage: Stage::Killing }, Action::Kill, Report::Silent),
            },
            (_, Event::ControlFailed) => Step::Failed(
                State::Running(ZDbg { info, _state: Running }),
                Failure::ProcessControl,
            ),
            (_, Event::Pc(None)) => Step::Failed(
                State::Running(ZDbg { info, _state: Running }),
                Failure::ProcessControl,
            ),
            _ => Step::Failed(State::Running(ZDbg { info, _state: Running }), Failure::Unexpected),
        }
    }
}

} // verus!
