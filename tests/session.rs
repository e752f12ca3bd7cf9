use std::collections::HashMap;

use zdbg::command::{parse_address, parse_command, Command};
use zdbg::dbg::{
    Action, DbgInfo, Event, Failure, Machine, NotRunning, Report, Running, Stage, State, Step, WaitOutcome, ZDbg,
};
use zdbg::patch::{is_trap_hit, patch_word, TRAP_OPCODE};

/// A straight-line program: instruction addresses in execution order, each
/// with the word stored there.
struct Sim {
    prog: Vec<u64>,
    mem: HashMap<u64, u64>,
    pc: u64,
    pid: i32,
    kill_attempts_ignored: u32,
}

impl Sim {
    fn new(prog: Vec<u64>) -> Sim {
        let mut mem = HashMap::new();
        for (i, a) in prog.iter().enumerate() {
            mem.insert(*a, 0x1122_3344_5566_7700u64 + i as u64 + 0x10);
        }
        Sim { pc: prog[0], prog, mem, pid: 4242, kill_attempts_ignored: 0 }
    }

    fn index_of(&self, pc: u64) -> Option<usize> {
        self.prog.iter().position(|a| *a == pc)
    }

    /// Executes the instruction at the program counter.
    fn exec_one(&mut self) -> WaitOutcome {
        let i = match self.index_of(self.pc) {
            Some(i) => i,
            None => return WaitOutcome::Signaled,
        };
        if self.mem[&self.pc] & 0xff == TRAP_OPCODE {
            self.pc += 1;
            return WaitOutcome::Stopped;
        }
        if i + 1 == self.prog.len() {
            return WaitOutcome::Exited;
        }
        self.pc = self.prog[i + 1];
        WaitOutcome::Other
    }

    fn perform(&mut self, a: Action) -> Event {
        match a {
            Action::Launch => Event::Launched(self.pid, WaitOutcome::Stopped),
            Action::ReadWord(addr) => Event::WordRead(self.mem.get(&addr).copied()),
            Action::WriteWord(addr, w) => {
                if self.mem.contains_key(&addr) {
                    self.mem.insert(addr, w);
                    Event::WordWritten(true)
                } else {
                    Event::WordWritten(false)
                }
            }
            Action::ReadPc => Event::Pc(Some(self.pc)),
            Action::WritePc(pc) => {
                self.pc = pc;
                Event::PcWritten(true)
            }
            Action::Step => match self.exec_one() {
                WaitOutcome::Other => Event::Waited(WaitOutcome::Stopped),
                o => Event::Waited(o),
            },
            Action::Cont => loop {
                match self.exec_one() {
                    WaitOutcome::Other => continue,
                    o => break Event::Waited(o),
                }
            },
            Action::Kill => {
                if self.kill_attempts_ignored > 0 {
                    self.kill_attempts_ignored -= 1;
                    Event::Waited(WaitOutcome::Stopped)
                } else {
                    Event::Waited(WaitOutcome::Signaled)
                }
            }
        }
    }
}

/// Performs every operation the session asks for until the command ends.
fn drive(mut step: Step, sim: &mut Sim, actions: &mut Vec<Action>, reports: &mut Vec<Report>) -> Step {
    loop {
        match step {
            Step::Pending(m, a, r) => {
                reports.push(r);
                actions.push(a);
                let e = sim.perform(a);
                step = m.resume(e);
            }
            done => return done,
        }
    }
}

fn state_of(step: Step) -> State {
    match step {
        Step::Done(s, _) => s,
        Step::Failed(s, _) => s,
        Step::Pending(..) => panic!("command still in progress"),
    }
}

fn report_of(step: &Step) -> Report {
    match step {
        Step::Done(_, r) => *r,
        _ => panic!("command did not finish"),
    }
}

const PROG: [u64; 5] = [0x401120, 0x401128, 0x401136, 0x401140, 0x401148];

fn launch(sim: &mut Sim, session: ZDbg<NotRunning>, reports: &mut Vec<Report>) -> Step {
    let mut actions = Vec::new();
    drive(session.do_cmd(&["run"]), sim, &mut actions, reports)
}

#[test]
fn patch_word_replaces_low_byte() {
    assert_eq!(patch_word(0x1122_3344_5566_7788), 0x1122_3344_5566_77cc);
    assert_eq!(patch_word(0), 0xcc);
    assert_eq!(patch_word(u64::MAX), 0xffff_ffff_ffff_ffcc);
}

#[test]
fn trap_hit_is_one_past_address() {
    assert!(is_trap_hit(0x401137, 0x401136));
    assert!(!is_trap_hit(0x401136, 0x401136));
    assert!(!is_trap_hit(0, u64::MAX));
}

#[test]
fn addresses_parse_as_hex() {
    assert_eq!(parse_address("0x401136"), Some(0x401136));
    assert_eq!(parse_address("0xDEADbeef"), Some(0xdead_beef));
    assert_eq!(parse_address("0xffffffffffffffff"), Some(u64::MAX));
    assert_eq!(parse_address("0x0000000000000000001"), Some(1));
    assert_eq!(parse_address("0x10000000000000000"), None);
    assert_eq!(parse_address("401136"), None);
    assert_eq!(parse_address("0x"), None);
    assert_eq!(parse_address("0x40g1"), None);
    assert_eq!(parse_address(""), None);
}

#[test]
fn commands_have_long_and_short_forms() {
    assert_eq!(parse_command(&[]), Command::Empty);
    assert_eq!(parse_command(&["run", "x"]), Command::Run);
    assert_eq!(parse_command(&["r"]), Command::Run);
    assert_eq!(parse_command(&["b", "0x10"]), Command::Break(Some(0x10)));
    assert_eq!(parse_command(&["break"]), Command::Break(None));
    assert_eq!(parse_command(&["break", "zz"]), Command::Break(None));
    assert_eq!(parse_command(&["c"]), Command::Continue);
    assert_eq!(parse_command(&["continue"]), Command::Continue);
    assert_eq!(parse_command(&["s"]), Command::StepI);
    assert_eq!(parse_command(&["regs"]), Command::Registers);
    assert_eq!(parse_command(&["exit"]), Command::Exit);
    assert_eq!(parse_command(&["h"]), Command::Help);
    assert_eq!(parse_command(&["Run"]), Command::Unknown);
}

#[test]
fn not_running_commands() {
    let z = ZDbg::new("./sample".to_string());
    assert_eq!(z.info.pid, 0);
    assert_eq!(z.info.brk_addr, None);
    let s = z.do_cmd(&["continue"]);
    assert_eq!(report_of(&s), Report::NotRunning);
    let z = match state_of(s) {
        State::NotRunning(z) => z,
        _ => panic!("phase changed"),
    };
    let s = z.do_cmd(&["break", "0x40zz"]);
    assert_eq!(report_of(&s), Report::BadAddress);
    let z = match state_of(s) {
        State::NotRunning(z) => z,
        _ => panic!("phase changed"),
    };
    assert_eq!(z.info.brk_addr, None);
    assert!(matches!(state_of(z.do_cmd(&["exit"])), State::Exit));
}

#[test]
fn break_then_run_hits_breakpoint_and_continue_exits() {
    let mut sim = Sim::new(PROG.to_vec());
    let original = sim.mem[&0x401136];
    let z = ZDbg::new("./sample".to_string());
    let z = match state_of(z.do_cmd(&["break", "0x401136"])) {
        State::NotRunning(z) => z,
        _ => panic!("phase changed"),
    };
    assert_eq!(z.info.brk_addr, Some(0x401136));
    let mut reports = Vec::new();
    let s = launch(&mut sim, z, &mut reports);
    assert!(reports.contains(&Report::Launched(4242)));
    assert!(reports.contains(&Report::Patching(0x401136, original, patch_word(original))));
    assert_eq!(report_of(&s), Report::Stopped(0x401136));
    assert_eq!(sim.pc, 0x401136);
    assert_eq!(sim.mem[&0x401136], original);
    let r = match state_of(s) {
        State::Running(r) => r,
        _ => panic!("not running"),
    };
    assert_eq!(r.info.pid, 4242);
    let mut actions = Vec::new();
    let s = drive(r.do_cmd(&["continue"]), &mut sim, &mut actions, &mut reports);
    assert_eq!(report_of(&s), Report::ChildExited);
    assert!(matches!(state_of(s), State::NotRunning(_)));
}

#[test]
fn breakpoint_round_trip_restores_memory() {
    let mut sim = Sim::new(PROG.to_vec());
    let before = sim.mem.clone();
    let info = DbgInfo {
        pid: 4242,
        brk_addr: None,
        brk_val: 0,
        armed: false,
        filename: "./sample".to_string(),
    };
    let r = ZDbg { info, _state: Running };
    let mut actions = Vec::new();
    let mut reports = Vec::new();
    let s = drive(r.do_cmd(&["b", "0x401140"]), &mut sim, &mut actions, &mut reports);
    assert_eq!(sim.mem[&0x401140], patch_word(before[&0x401140]));
    let r = match state_of(s) {
        State::Running(r) => r,
        _ => panic!("not running"),
    };
    assert!(r.info.armed);
    assert_eq!(r.info.brk_val, before[&0x401140]);
    let s = drive(r.do_cmd(&["c"]), &mut sim, &mut actions, &mut reports);
    assert_eq!(report_of(&s), Report::Stopped(0x401140));
    assert_eq!(sim.pc, 0x401140);
    assert_eq!(sim.mem, before);
}

#[test]
fn second_break_changes_nothing() {
    let mut sim = Sim::new(PROG.to_vec());
    let z = ZDbg::new("./sample".to_string());
    let z = match state_of(z.do_cmd(&["b", "0x401136"])) {
        State::NotRunning(z) => z,
        _ => panic!("phase changed"),
    };
    let s = z.do_cmd(&["b", "0x401140"]);
    assert_eq!(report_of(&s), Report::BreakAlreadySet(0x401136));
    let z = match state_of(s) {
        State::NotRunning(z) => z,
        _ => panic!("phase changed"),
    };
    let mut reports = Vec::new();
    let r = match state_of(launch(&mut sim, z, &mut reports)) {
        State::Running(r) => r,
        _ => panic!("not running"),
    };
    let mem = sim.mem.clone();
    let mut actions = Vec::new();
    let s = drive(r.do_cmd(&["break", "0x401140"]), &mut sim, &mut actions, &mut reports);
    assert!(actions.is_empty());
    assert_eq!(report_of(&s), Report::BreakAlreadySet(0x401136));
    assert_eq!(sim.mem, mem);
    match state_of(s) {
        State::Running(r) => assert_eq!(r.info.brk_addr, Some(0x401136)),
        _ => panic!("not running"),
    }
}

#[test]
fn continue_on_breakpoint_steps_exactly_once() {
    let mut sim = Sim::new(PROG.to_vec());
    let z = ZDbg::new("./sample".to_string());
    let z = match state_of(z.do_cmd(&["b", "0x401136"])) {
        State::NotRunning(z) => z,
        _ => panic!("phase changed"),
    };
    let mut reports = Vec::new();
    let r = match state_of(launch(&mut sim, z, &mut reports)) {
        State::Running(r) => r,
        _ => panic!("not running"),
    };
    assert_eq!(sim.pc, 0x401136);
    let mut actions = Vec::new();
    let s = drive(r.do_cmd(&["c"]), &mut sim, &mut actions, &mut reports);
    assert_eq!(actions.iter().filter(|a| **a == Action::Step).count(), 1);
    assert_eq!(actions[0], Action::ReadPc);
    assert_eq!(actions[1], Action::Step);
    assert_eq!(*actions.last().unwrap(), Action::Cont);
    assert_eq!(report_of(&s), Report::ChildExited);
}

#[test]
fn continue_rearms_after_step() {
    // A loop: the breakpoint is reached again after the step.
    let mut sim = Sim::new(vec![0x10, 0x20, 0x30, 0x20, 0x40]);
    let original = sim.mem[&0x20];
    let mut reports = Vec::new();
    let z = match state_of(ZDbg::new("./loop".to_string()).do_cmd(&["b", "0x20"])) {
        State::NotRunning(z) => z,
        _ => panic!("phase changed"),
    };
    let r = match state_of(launch(&mut sim, z, &mut reports)) {
        State::Running(r) => r,
        _ => panic!("not running"),
    };
    assert_eq!(sim.pc, 0x20);
    let mut actions = Vec::new();
    let s = drive(r.do_cmd(&["c"]), &mut sim, &mut actions, &mut reports);
    assert_eq!(
        actions,
        vec![
            Action::ReadPc,
            Action::Step,
            Action::ReadWord(0x20),
            Action::WriteWord(0x20, patch_word(original)),
            Action::Cont,
            Action::ReadPc,
            Action::WriteWord(0x20, original),
            Action::WritePc(0x20),
        ]
    );
    assert_eq!(report_of(&s), Report::Stopped(0x20));
}

#[test]
fn run_twice_is_rejected() {
    let mut sim = Sim::new(PROG.to_vec());
    let z = match state_of(ZDbg::new("./sample".to_string()).do_cmd(&["b", "0x401136"])) {
        State::NotRunning(z) => z,
        _ => panic!("phase changed"),
    };
    let mut reports = Vec::new();
    let r = match state_of(launch(&mut sim, z, &mut reports)) {
        State::Running(r) => r,
        _ => panic!("not running"),
    };
    let s = r.do_cmd(&["run"]);
    assert_eq!(report_of(&s), Report::AlreadyRunning);
    match state_of(s) {
        State::Running(r) => {
            assert_eq!(r.info.pid, 4242);
            assert!(!r.info.armed);
            assert_eq!(r.info.brk_addr, Some(0x401136));
        }
        _ => panic!("not running"),
    }
}

#[test]
fn exit_kills_until_confirmed_dead() {
    let mut sim = Sim::new(PROG.to_vec());
    let z = match state_of(ZDbg::new("./sample".to_string()).do_cmd(&["b", "0x401136"])) {
        State::NotRunning(z) => z,
        _ => panic!("phase changed"),
    };
    let mut reports = Vec::new();
    let r = match state_of(launch(&mut sim, z, &mut reports)) {
        State::Running(r) => r,
        _ => panic!("not running"),
    };
    sim.kill_attempts_ignored = 2;
    let mut actions = Vec::new();
    let s = drive(r.do_cmd(&["exit"]), &mut sim, &mut actions, &mut reports);
    assert_eq!(actions, vec![Action::Kill, Action::Kill, Action::Kill]);
    assert!(matches!(state_of(s), State::Exit));
}

#[test]
fn unmapped_breakpoint_is_unset_and_child_runs_to_exit() {
    let mut sim = Sim::new(PROG.to_vec());
    let z = match state_of(ZDbg::new("./sample".to_string()).do_cmd(&["break", "0xdeadbeef"])) {
        State::NotRunning(z) => z,
        _ => panic!("phase changed"),
    };
    let mut reports = Vec::new();
    let s = launch(&mut sim, z, &mut reports);
    assert!(reports.contains(&Report::PatchFailed(0xdeadbeef)));
    assert_eq!(report_of(&s), Report::ChildExited);
    match state_of(s) {
        State::NotRunning(z) => assert_eq!(z.info.brk_addr, None),
        _ => panic!("still running"),
    }
}

#[test]
fn launch_failures_are_reported() {
    let m = match ZDbg::new("./missing".to_string()).do_cmd(&["r"]) {
        Step::Pending(m, Action::Launch, _) => m,
        _ => panic!("no launch"),
    };
    assert_eq!(m.stage, Stage::Launching);
    match m.resume(Event::Launched(7, WaitOutcome::Exited)) {
        Step::Failed(State::NotRunning(z), Failure::LaunchFailed) => assert_eq!(z.info.pid, 0),
        _ => panic!("launch failure not reported"),
    }
    let m = match ZDbg::new("./x".to_string()).do_cmd(&["r"]) {
        Step::Pending(m, _, _) => m,
        _ => panic!("no launch"),
    };
    assert!(matches!(
        m.resume(Event::Launched(7, WaitOutcome::Other)),
        Step::Failed(State::NotRunning(_), Failure::Unexpected)
    ));
}

fn running_machine(stage: Stage) -> Machine {
    let info = DbgInfo {
        pid: 9,
        brk_addr: Some(0x50),
        brk_val: 0xabcd,
        armed: true,
        filename: "./t".to_string(),
    };
    Machine { info, stage }
}

#[test]
fn wait_and_register_failures_are_reported() {
    assert!(matches!(
        running_machine(Stage::Continuing).resume(Event::Waited(WaitOutcome::Other)),
        Step::Failed(State::Running(_), Failure::Unexpected)
    ));
    assert!(matches!(
        running_machine(Stage::StopPc).resume(Event::Pc(None)),
        Step::Failed(State::Running(_), Failure::ProcessControl)
    ));
    assert!(matches!(
        running_machine(Stage::Continuing).resume(Event::ControlFailed),
        Step::Failed(State::Running(_), Failure::ProcessControl)
    ));
    assert!(matches!(
        running_machine(Stage::Restoring(0x50)).resume(Event::WordWritten(false)),
        Step::Failed(State::Running(_), Failure::ProcessControl)
    ));
}

#[test]
fn stop_away_from_breakpoint_is_reported_as_is() {
    match running_machine(Stage::StopPc).resume(Event::Pc(Some(0x77))) {
        Step::Done(State::Running(r), Report::Stopped(pc)) => {
            assert_eq!(pc, 0x77);
            assert!(r.info.armed);
        }
        _ => panic!("stop not reported"),
    }
    match running_machine(Stage::StopPc).resume(Event::Pc(Some(0x51))) {
        Step::Pending(m, Action::WriteWord(a, w), _) => {
            assert_eq!((a, w), (0x50, 0xabcd));
            assert_eq!(m.stage, Stage::Restoring(0x50));
        }
        _ => panic!("hit not restored"),
    }
}
