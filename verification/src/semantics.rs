//! The mathematical model of the machine: a snapshot of a run, the meaning
//! of one instruction step, and execution as iterated stepping.  The
//! executable machine is specified and proved against this model.
use vstd::prelude::*;
use crate::dialect::Command;

verus! {

/// The fatal errors of a run.  All are terminal: the machine halts at once.
#[derive(Clone, Copy, Debug, PartialEq, Eq, Structural)]
pub enum Error {
    /// The tape cursor would move below the first cell.
    Underflow,
    /// A loop bracket reached by control flow has no matching counterpart.
    MismatchedBracket,
    /// The input stream ended while a byte was owed.
    IoError,
}

/// A snapshot of a running machine together with its two byte streams.
pub ghost struct State {
    pub program: Seq<Command>,
    pub data: Seq<u8>,
    pub pc: nat,
    pub dp: nat,
    pub input: Seq<u8>,
    pub in_pos: nat,
    pub output: Seq<u8>,
}

/// A machine is running, halted successfully, or halted on a fatal error.
/// Both halted states are terminal and keep the snapshot they were
/// reached with, so the output written up to that point stays visible.
pub ghost enum ExecState {
    Running(State),
    HaltedOk(State),
    HaltedErr(Error, State),
}

/// The tape invariant: the cell under the cursor is always materialized,
/// so the tape is longer than the highest index addressed so far.
pub open spec fn state_wf(s: State) -> bool {
    s.dp < s.data.len()
}

/// The tape grown with zero cells until index `dp` exists.
pub open spec fn grown(data: Seq<u8>, dp: nat) -> Seq<u8> {
    if dp < data.len() {
        data
    } else {
        data + Seq::new((dp + 1 - data.len()) as nat, |i: int| 0u8)
    }
}

/// Forward scan for the `End` that closes the `Begin` at `i`, tracking the
/// nesting level; the scan starts on the `Begin` itself with level 0 and
/// answers `None` when it runs off the end of the program.
pub open spec fn find_match_fwd(prog: Seq<Command>, i: nat, lvl: nat) -> Option<nat>
    decreases prog.len() - i,
{
    if i >= prog.len() {
        None
    } else if prog[i as int] is Begin {
        find_match_fwd(prog, i + 1, lvl + 1)
    } else if prog[i as int] is End {
        if lvl == 1 {
            Some(i)
        } else if lvl == 0 {
            None
        } else {
            find_match_fwd(prog, i + 1, (lvl - 1) as nat)
        }
    } else {
        find_match_fwd(prog, i + 1, lvl)
    }
}

/// Backward scan for the `Begin` that opens the `End` at `i`, tracking the
/// nesting level; the scan starts on the `End` itself with level 0 and
/// answers `None` when it runs off the start of the program.
pub open spec fn find_match_bwd(prog: Seq<Command>, i: nat, lvl: nat) -> Option<nat>
    decreases i,
{
    if i >= prog.len() {
        None
    } else if prog[i as int] is Begin {
        if lvl == 1 {
            Some(i)
        } else if lvl == 0 {
            None
        } else if i == 0 {
            None
        } else {
            find_match_bwd(prog, (i - 1) as nat, (lvl - 1) as nat)
        }
    } else if prog[i as int] is End {
        if i == 0 {
            None
        } else {
            find_match_bwd(prog, (i - 1) as nat, lvl + 1)
        }
    } else {
        if i == 0 {
            None
        } else {
            find_match_bwd(prog, (i - 1) as nat, lvl)
        }
    }
}

/// One wrapping increment of a byte cell.
pub open spec fn inc_byte(b: u8) -> u8 {
    if b == 255 {
        0
    } else {
        (b + 1) as u8
    }
}

/// One wrapping decrement of a byte cell.
pub open spec fn dec_byte(b: u8) -> u8 {
    if b == 0 {
        255
    } else {
        (b - 1) as u8
    }
}

/// The meaning of one instruction step.  A program counter at or past the
/// end of the program halts with success; otherwise the instruction under
/// it fires.  Moving right grows the tape so the cursor cell always
/// exists; moving left below cell 0 is an underflow; the cell arithmetic
/// wraps modulo 256; reading past the end of input is an error; a bracket
/// whose scan finds no counterpart is mismatched, and a found counterpart
/// leaves the counter just past the landing bracket, so a loop re-enters
/// its body without re-testing the `Begin`.
pub open spec fn step_spec(s: State) -> ExecState {
    if s.pc >= s.program.len() {
        ExecState::HaltedOk(s)
    } else {
        match s.program[s.pc as int] {
            Command::IncP => {
                let dp2 = s.dp + 1;
                ExecState::Running(State { pc: s.pc + 1, dp: dp2, data: grown(s.data, dp2), ..s })
            },
            Command::DecP => {
                if s.dp == 0 {
                    ExecState::HaltedErr(Error::Underflow, s)
                } else {
                    ExecState::Running(State { pc: s.pc + 1, dp: (s.dp - 1) as nat, ..s })
                }
            },
            Command::IncB => ExecState::Running(
                State {
                    pc: s.pc + 1,
                    data: s.data.update(s.dp as int, inc_byte(s.data[s.dp as int])),
                    ..s
                },
            ),
            Command::DecB => ExecState::Running(
                State {
                    pc: s.pc + 1,
                    data: s.data.update(s.dp as int, dec_byte(s.data[s.dp as int])),
                    ..s
                },
            ),
            Command::Out => ExecState::Running(
                State { pc: s.pc + 1, output: s.output.push(s.data[s.dp as int]), ..s },
            ),
            Command::In => {
                if s.in_pos >= s.input.len() {
                    ExecState::HaltedErr(Error::IoError, s)
                } else {
                    ExecState::Running(
                        State {
                            pc: s.pc + 1,
                            data: s.data.update(s.dp as int, s.input[s.in_pos as int]),
                            in_pos: s.in_pos + 1,
                            ..s
                        },
                    )
                }
            },
            Command::Begin => {
                if s.data[s.dp as int] != 0 {
                    ExecState::Running(State { pc: s.pc + 1, ..s })
                } else {
                    match find_match_fwd(s.program, s.pc, 0) {
                        Some(j) => ExecState::Running(State { pc: j + 1, ..s }),
                        None => ExecState::HaltedErr(Error::MismatchedBracket, s),
                    }
                }
            },
            Command::End => {
                if s.data[s.dp as int] == 0 {
                    ExecState::Running(State { pc: s.pc + 1, ..s })
                } else {
                    match find_match_bwd(s.program, s.pc, 0) {
                        Some(j) => ExecState::Running(State { pc: j + 1, ..s }),
                        None => ExecState::HaltedErr(Error::MismatchedBracket, s),
                    }
                }
            },
        }
    }
}

/// One transition of the full state machine: halted states are terminal.
pub open spec fn advance(e: ExecState) -> ExecState {
    match e {
        ExecState::Running(s) => step_spec(s),
        _ => e,
    }
}

/// The state after `n` transitions from `e`.
pub open spec fn steps(e: ExecState, n: nat) -> ExecState
    decreases n,
{
    if n == 0 {
        e
    } else {
        advance(steps(e, (n - 1) as nat))
    }
}

/// Some number of steps from `init` reaches a terminal state.
pub open spec fn halts(init: State) -> bool {
    exists|n: nat| !((#[trigger] steps(ExecState::Running(init), n)) is Running)
}

/// A run from `init` reaches success with exactly the output stream `out`.
pub open spec fn reaches_ok(init: State, out: Seq<u8>) -> bool {
    exists|n: nat|
        (#[trigger] steps(ExecState::Running(init), n)) matches ExecState::HaltedOk(s)
            && s.output == out
}

/// A run from `init` fails with the error `e`, the output stream holding
/// `out`, everything written before the failure.
pub open spec fn reaches_err(init: State, e: Error, out: Seq<u8>) -> bool {
    exists|n: nat|
        (#[trigger] steps(ExecState::Running(init), n)) matches ExecState::HaltedErr(e2, s)
            && e2 == e && s.output == out
}

/// A step from a well-formed state keeps the tape invariant and never
/// changes the program or the input stream.
pub proof fn lemma_step_preserves_wf(s: State)
    requires
        state_wf(s),
    ensures
        step_spec(s) matches ExecState::Running(t) ==> state_wf(t) && t.program == s.program
            && t.input == s.input,
{
}

/// Stepping composes from the front: one transition, then `n` more.
pub proof fn lemma_steps_shift(e: ExecState, n: nat)
    ensures
        steps(e, n + 1) == steps(advance(e), n),
    decreases n,
{
    if n == 0 {
        assert(steps(e, 0) == e);
        assert(steps(advance(e), 0) == advance(e));
    } else {
        lemma_steps_shift(e, (n - 1) as nat);
    }
}

/// A terminal state never moves again.
pub proof fn lemma_halted_stays(e: ExecState, m: nat, n: nat)
    requires
        !(steps(e, m) is Running),
        m <= n,
    ensures
        steps(e, n) == steps(e, m),
    decreases n,
{
    if m < n {
        lemma_halted_stays(e, m, (n - 1) as nat);
    }
}

/// The outcome of a run is unique: any two terminal states reached from
/// the same start are the same state, so the contracts over `steps` pin
/// one result.
pub proof fn lemma_outcome_unique(e: ExecState, m: nat, n: nat)
    requires
        !(steps(e, m) is Running),
        !(steps(e, n) is Running),
    ensures
        steps(e, m) == steps(e, n),
{
    if m <= n {
        lemma_halted_stays(e, m, n);
    } else {
        lemma_halted_stays(e, n, m);
    }
}

/// The tape never shrinks: its growth is monotonic across steps.
pub proof fn lemma_tape_monotonic(s: State)
    requires
        state_wf(s),
    ensures
        step_spec(s) is Running ==> s.data.len() <= (step_spec(s)->Running_0).data.len(),
{
    if s.pc < s.program.len() && s.program[s.pc as int] is IncP {
        assert(grown(s.data, s.dp + 1).len() >= s.data.len());
    }
}

/// A program with no loop brackets at all.
pub open spec fn bracket_free(prog: Seq<Command>) -> bool {
    forall|i: int|
        0 <= i < prog.len() ==> !((#[trigger] prog[i]) is Begin) && !(prog[i] is End)
}

/// A bracket-free program always halts: without loops the program counter
/// climbs one instruction a step until it leaves the program or an error
/// strikes.  This discharges the halting precondition of a run for any
/// straight-line program.
pub proof fn lemma_bracket_free_halts(s: State)
    requires
        bracket_free(s.program),
    ensures
        halts(s),
    decreases s.program.len() - s.pc + 1,
{
    let e = ExecState::Running(s);
    assert(steps(e, 0) == e);
    if s.pc >= s.program.len() {
        assert(steps(e, 1) == ExecState::HaltedOk(s));
    } else {
        assert(!(s.program[s.pc as int] is Begin) && !(s.program[s.pc as int] is End));
        let r = step_spec(s);
        if r is Running {
            let t = r->Running_0;
            assert(t.program == s.program && t.pc == s.pc + 1);
            lemma_bracket_free_halts(t);
            let m = choose|m: nat| !((#[trigger] steps(ExecState::Running(t), m)) is Running);
            lemma_steps_shift(e, m);
            assert(!(steps(e, m + 1) is Running));
        } else {
            assert(steps(e, 1) == r);
        }
    }
}

/// Moving the cursor left at position 0 always halts with `Underflow`,
/// whatever the cell values and the surrounding program.
pub proof fn lemma_underflow_at_zero(s: State)
    requires
        s.pc < s.program.len(),
        s.program[s.pc as int] is DecP,
        s.dp == 0,
    ensures
        step_spec(s) == ExecState::HaltedErr(Error::Underflow, s),
{
}

/// Cell arithmetic wraps modulo 256: incrementing 255 yields 0 and
/// decrementing 0 yields 255.
pub proof fn lemma_cell_wraps(s: State)
    requires
        state_wf(s),
        s.pc < s.program.len(),
        s.program[s.pc as int] is IncB || s.program[s.pc as int] is DecB,
    ensures
        step_spec(s) matches ExecState::Running(t) && t.data[s.dp as int] as int == (
        if s.program[s.pc as int] is IncB {
            (s.data[s.dp as int] + 1) % 256
        } else {
            (s.data[s.dp as int] + 255) % 256
        }),
{
}

} // verus!
