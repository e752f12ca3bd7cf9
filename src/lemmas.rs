use vstd::prelude::*;
use crate::command::Command;
use crate::dbg::{
    Action, DbgInfo, Event, Machine, NotRunning, Report, Running, Stage, State, Step, WaitOutcome,
    ZDbg, is_dead, pending,
};
use crate::patch::patched;

verus! {

/// The step that follows `s` once its pending operation is answered by `e`;
/// a finished step stays as it is.
pub open spec fn answer(s: Step, e: Event) -> Step {
    match s {
        Step::Pending(m, _, _) => m.next(e),
        _ => s,
    }
}

/// The child's memory once the pending operation of `s` is answered by `e`:
/// a word write takes effect when it is reported successful.
pub open spec fn written(mem: Map<u64, u64>, s: Step, e: Event) -> Map<u64, u64> {
    match (s, e) {
        (Step::Pending(_, Action::WriteWord(a, w), _), Event::WordWritten(true)) => mem.insert(a, w),
        _ => mem,
    }
}

/// Whether `s` asks for `act` next.
pub open spec fn asks(s: Step, act: Action) -> bool {
    match s {
        Step::Pending(_, a, _) => a == act,
        _ => false,
    }
}

/// The stage a pending step waits in.
pub open spec fn stage_of(s: Step) -> Option<Stage> {
    match s {
        Step::Pending(m, _, _) => Some(m.stage),
        _ => None,
    }
}

/// Whether `s` ends the command with the child running and stopped at `pc`.
pub open spec fn stopped_at(s: Step, pc: u64) -> bool {
    match s {
        Step::Done(State::Running(_), Report::Stopped(p)) => p == pc,
        _ => false,
    }
}

/// Whether `s` ends the command because the child has exited.
pub open spec fn child_exited(s: Step) -> bool {
    match s {
        Step::Done(State::NotRunning(_), Report::ChildExited) => true,
        _ => false,
    }
}

/// Setting a breakpoint at `a` in a running child, then continuing until the
/// trap fires, leaves the child's memory exactly as it was before the
/// breakpoint was set, and reports the child stopped at `a` itself.
pub proof fn lemma_breakpoint_round_trip(z: ZDbg<Running>, mem: Map<u64, u64>, a: u64, pc: u64)
    requires
        z.info.brk_addr.is_none(),
        mem.contains_key(a),
        a < u64::MAX,
        pc != a,
    ensures
        ({
            let w = mem[a];
            let s1 = z.running_step(Command::Break(Some(a)));
            let s2 = answer(s1, Event::WordRead(Some(w)));
            let mem2 = written(mem, s2, Event::WordWritten(true));
            let s3 = answer(s2, Event::WordWritten(true));
            &&& asks(s1, Action::ReadWord(a))
            &&& asks(s2, Action::WriteWord(a, patched(w)))
            &&& mem2[a] == patched(w)
            &&& match s3 {
                Step::Done(State::Running(z3), _) => {
                    let c1 = z3.running_step(Command::Continue);
                    let c2 = answer(c1, Event::Pc(Some(pc)));
                    let c3 = answer(c2, Event::Waited(WaitOutcome::Stopped));
                    let c4 = answer(c3, Event::Pc(Some((a + 1) as u64)));
                    let mem4 = written(mem2, c4, Event::WordWritten(true));
                    let c5 = answer(c4, Event::WordWritten(true));
                    let c6 = answer(c5, Event::PcWritten(true));
                    &&& asks(c2, Action::Cont)
                    &&& asks(c4, Action::WriteWord(a, w))
                    &&& mem4 == mem
                    &&& asks(c5, Action::WritePc(a))
                    &&& stopped_at(c6, a)
                },
                _ => false,
            }
        }),
{
    let w = mem[a];
    let mem2 = mem.insert(a, patched(w));
    assert(mem2.insert(a, w) =~= mem);
}

/// Asking for a breakpoint while one is already recorded changes nothing and
/// writes nothing, in either phase.
pub proof fn lemma_break_is_idempotent(r: ZDbg<Running>, n: ZDbg<NotRunning>, c: Option<u64>)
    ensures
        r.info.brk_addr.is_some() ==> r.running_step(Command::Break(c)) == Step::Done(
            State::Running(r),
            Report::BreakAlreadySet(r.info.brk_addr.unwrap()),
        ),
        n.info.brk_addr.is_some() ==> n.idle_step(Command::Break(c)) == Step::Done(
            State::NotRunning(n),
            Report::BreakAlreadySet(n.info.brk_addr.unwrap()),
        ),
{
}

/// A `continue` issued while the child sits on the breakpoint address makes
/// exactly one single step and then continues freely, whatever the re-arming
/// of the trap reports; if the child dies during the step the command ends.
pub proof fn lemma_continue_steps_once(
    z: ZDbg<Running>,
    a: u64,
    o: WaitOutcome,
    read: Option<u64>,
    ok: bool,
)
    requires
        z.info.brk_addr == Some(a),
    ensures
        ({
            let c1 = z.running_step(Command::Continue);
            let c2 = answer(c1, Event::Pc(Some(a)));
            let c3 = answer(c2, Event::Waited(o));
            let c4 = answer(c3, Event::WordRead(read));
            let c5 = answer(c4, Event::WordWritten(ok));
            &&& asks(c1, Action::ReadPc)
            &&& asks(c2, Action::Step)
            &&& is_dead(o) ==> child_exited(c3)
            &&& o == WaitOutcome::Stopped ==> {
                ||| asks(c3, Action::Cont)
                ||| asks(c3, Action::ReadWord(a)) && (asks(c4, Action::Cont) || asks(
                    c5,
                    Action::Cont,
                ))
            }
            &&& o == WaitOutcome::Stopped ==> !asks(c3, Action::Step) && !asks(c4, Action::Step)
                && !asks(c5, Action::Step)
            &&& o == WaitOutcome::Stopped && asks(c3, Action::Cont) ==> stage_of(c3) == Some(
                Stage::Continuing,
            )
        }),
{
}

/// `run` while a child is running is refused and leaves the session, and its
/// child, untouched.
pub proof fn lemma_run_rejected_while_running(z: ZDbg<Running>)
    ensures
        z.running_step(Command::Run) == Step::Done(State::Running(z), Report::AlreadyRunning),
{
}

/// `exit` while running kills the child and waits again until a wait confirms
/// it dead; only then does the session end, and then it always ends.
pub proof fn lemma_exit_confirms_death(z: ZDbg<Running>, info: DbgInfo, o: WaitOutcome)
    ensures
        z.running_step(Command::Exit) == pending(z.info, Stage::Killing, Action::Kill, Report::Silent),
        (Machine { info, stage: Stage::Killing }).next(Event::Waited(o)) == if is_dead(o) {
            Step::Done(State::Exit, Report::Silent)
        } else {
            pending(info, Stage::Killing, Action::Kill, Report::Silent)
        },
{
}

/// The session's invariant holds of every session a step carries: a trap is
/// only ever in memory at the recorded address, and never without a child.
pub open spec fn step_wf(s: Step) -> bool {
    match s {
        Step::Pending(m, _, _) => m.wf(),
        Step::Done(st, _) => state_wf(st),
        Step::Failed(st, _) => state_wf(st),
    }
}

/// The invariant of a session between commands.
pub open spec fn state_wf(st: State) -> bool {
    match st {
        State::Running(z) => z.info.wf(),
        State::NotRunning(z) => z.info.wf() && !z.info.armed,
        State::Exit => true,
    }
}

/// Every command and every answer keeps the session's invariant.
pub proof fn lemma_invariant_preserved(
    r: ZDbg<Running>,
    n: ZDbg<NotRunning>,
    m: Machine,
    c: Command,
    e: Event,
)
    ensures
        r.info.wf() ==> step_wf(r.running_step(c)),
        n.info.wf() && !n.info.armed ==> step_wf(n.idle_step(c)),
        m.wf() ==> step_wf(m.next(e)),
{
}

} // verus!
