//! The executable machine: construction from source text in any mix of
//! dialects, rendering of the loaded program back into a chosen dialect,
//! and execution to completion, all specified against the model in
//! `semantics`.
use vstd::prelude::*;
use vstd::string::StrSliceExecFns;
use crate::dialect::{
    Command, decode, encode_classic, encode_hands, decodes_to, family_char,
    lemma_decode_encode_classic, lemma_decode_encode_hands, lemma_transliteration_round_trip,
};
use crate::semantics::{
    Error, State, ExecState, grown, find_match_fwd, find_match_bwd, step_spec, advance, steps,
    halts, reaches_ok, reaches_err, lemma_halted_stays,
};

verus! {

/// The ghost image of a machine: the decoded program and the tape with
/// its two cursors.
pub ghost struct MachineView {
    pub program: Seq<Command>,
    pub data: Seq<u8>,
    pub pc: nat,
    pub dp: nat,
}

/// The run-time snapshot built from a machine and its two streams.
pub open spec fn abs(m: MachineView, input: Seq<u8>, in_pos: nat, output: Seq<u8>) -> State {
    State {
        program: m.program,
        data: m.data,
        pc: m.pc,
        dp: m.dp,
        input,
        in_pos,
        output,
    }
}

/// The machine: an immutable decoded program, a growable byte tape, and
/// the two cursors into them.
pub struct BfMachine {
    program: Vec<Command>,
    data: Vec<u8>,
    prog_ptr: usize,
    data_ptr: usize,
}

impl View for BfMachine {
    type V = MachineView;

    closed spec fn view(&self) -> MachineView {
        MachineView {
            program: self.program@,
            data: self.data@,
            pc: self.prog_ptr as nat,
            dp: self.data_ptr as nat,
        }
    }
}

impl BfMachine {
    /// The tape invariant: the cell under the cursor is materialized.
    /// `new` establishes it and every step keeps it.
    pub open spec fn wf(&self) -> bool {
        self@.dp < self@.data.len()
    }

    /// Builds a machine from source text: the text decodes, left to right,
    /// across the union of all dialects, unrecognized characters acting as
    /// comments; the tape starts as a single zero cell with both cursors
    /// at zero.
    pub fn new(source: &str) -> (m: Self)
        ensures
            m@.program == decode(source@),
            m@.data == seq![0u8],
            m@.pc == 0,
            m@.dp == 0,
            m.wf(),
    {
        let n = source.unicode_len();
        let mut program: Vec<Command> = Vec::new();
        let mut i: usize = 0;
        while i < n
            invariant
                i <= n,
                n == source@.len(),
                program@ == decode(source@.take(i as int)),
            decreases n - i,
        {
            let c = source.get_char(i);
            match Command::from_char(c) {
                Some(cmd) => program.push(cmd),
                None => (),
            }
            proof {
                assert(source@.take(i + 1).drop_last() =~= source@.take(i as int));
                assert(source@.take(i + 1).last() == source@[i as int]);
            }
            i += 1;
        }
        proof {
            assert(source@.take(n as int) =~= source@);
        }
        let mut data: Vec<u8> = Vec::new();
        data.push(0);
        BfMachine { program, data, prog_ptr: 0, data_ptr: 0 }
    }

    /// Exec check of the tape invariant, for callers outside the proof.
    pub fn tape_ok(&self) -> (r: bool)
        ensures
            r == self.wf(),
    {
        self.data_ptr < self.data.len()
    }

    /// Grows the tape with zero cells until the cursor cell exists.
    fn ensure_data(&mut self)
        ensures
            final(self)@.data == grown(old(self)@.data, old(self)@.dp),
            final(self)@.program == old(self)@.program,
            final(self)@.pc == old(self)@.pc,
            final(self)@.dp == old(self)@.dp,
            final(self).wf(),
    {
        let ghost data0 = self@.data;
        let ghost dp = self@.dp;
        while self.data.len() <= self.data_ptr
            invariant
                self@.program == old(self)@.program,
                self@.pc == old(self)@.pc,
                self@.dp == old(self)@.dp == dp,
                data0 == old(self)@.data,
                data0.len() <= self@.data.len(),
                self@.data.len() <= vstd::math::max(data0.len() as int, dp + 1 as int),
                forall|k: int| 0 <= k < data0.len() ==> self@.data[k] == data0[k],
                forall|k: int| data0.len() <= k < self@.data.len() ==> self@.data[k] == 0u8,
            decreases self@.dp + 1 - self@.data.len(),
        {
            self.data.push(0);
        }
        proof {
            assert(self@.data =~= grown(data0, dp));
        }
    }

    /// One step of execution: fires the instruction under the program
    /// counter, exactly as `step_spec` describes, against the input
    /// stream at `*in_pos` and the output stream.  `Ok(b)` continues a
    /// run, `b` saying whether instructions remain; `Err` is the fatal
    /// error the model assigns, the streams untouched by the failure.
    pub fn step(&mut self, input: &[u8], in_pos: &mut usize, output: &mut Vec<u8>) -> (r: Result<
        bool,
        Error,
    >)
        requires
            old(self).wf(),
        ensures
            final(self).wf(),
            final(self)@.program == old(self)@.program,
            ({
                let pre = abs(old(self)@, input@, *old(in_pos) as nat, old(output)@);
                let post = abs(final(self)@, input@, *final(in_pos) as nat, final(output)@);
                match r {
                    Ok(b) => {
                        &&& (pre.pc >= pre.program.len() ==> step_spec(pre)
                            == ExecState::HaltedOk(pre) && post == pre && b == false)
                        &&& (pre.pc < pre.program.len() ==> step_spec(pre)
                            == ExecState::Running(post) && b == (post.pc < post.program.len()))
                    },
                    Err(e) => step_spec(pre) == ExecState::HaltedErr(e, pre) && final(output)@
                        == old(output)@ && *final(in_pos) == *old(in_pos),
                }
            }),
    {
        let n = self.program.len();
        if self.prog_ptr >= n {
            return Ok(false);
        }
        let cmd = self.program[self.prog_ptr];
        match cmd {
            Command::IncP => {
                // reading the length brings the bound dp < len <= usize::MAX
                // into scope, so the increment cannot overflow
                let _len = self.data.len();
                self.data_ptr += 1;
                self.ensure_data();
            },
            Command::DecP => {
                if self.data_ptr == 0 {
                    return Err(Error::Underflow);
                }
                self.data_ptr -= 1;
            },
            Command::IncB => {
                let b = self.data[self.data_ptr];
                let nb: u8 = if b == 255 {
                    0
                } else {
                    b + 1
                };
                self.data[self.data_ptr] = nb;
            },
            Command::DecB => {
                let b = self.data[self.data_ptr];
                let nb: u8 = if b == 0 {
                    255
                } else {
                    b - 1
                };
                self.data[self.data_ptr] = nb;
            },
            Command::Out => {
                output.push(self.data[self.data_ptr]);
            },
            Command::In => {
                if *in_pos >= input.len() {
                    return Err(Error::IoError);
                }
                self.data[self.data_ptr] = input[*in_pos];
                *in_pos += 1;
            },
            Command::Begin => {
                let cell = self.data[self.data_ptr];
                if cell == 0 {
                    let ghost prog = self@.program;
                    let ghost pc0 = self@.pc;
                    let mut lvl: usize = 0;
                    while self.prog_ptr != n
                        invariant
                            prog == old(self)@.program,
                            pc0 == old(self)@.pc,
                            prog[pc0 as int] is Begin,
                            old(self)@.data[old(self)@.dp as int] == 0,
                            self@.program == prog,
                            self@.data == old(self)@.data,
                            self@.dp == old(self)@.dp,
                            self@.dp < self@.data.len(),
                            output@ == old(output)@,
                            *in_pos == *old(in_pos),
                            n == prog.len(),
                            pc0 <= self@.pc <= n,
                            lvl <= self@.pc - pc0,
                            find_match_fwd(prog, pc0, 0) == find_match_fwd(
                                prog,
                                self@.pc,
                                lvl as nat,
                            ),
                        ensures
                            prog == old(self)@.program,
                            pc0 == old(self)@.pc,
                            prog[pc0 as int] is Begin,
                            old(self)@.data[old(self)@.dp as int] == 0,
                            self@.program == prog,
                            self@.data == old(self)@.data,
                            self@.dp == old(self)@.dp,
                            self@.dp < self@.data.len(),
                            output@ == old(output)@,
                            *in_pos == *old(in_pos),
                            n == prog.len(),
                            pc0 <= self@.pc <= n,
                            self@.pc == n ==> find_match_fwd(prog, pc0, 0) is None,
                            self@.pc < n ==> find_match_fwd(prog, pc0, 0) == Some(self@.pc),
                        decreases n - self.prog_ptr,
                    {
                        let cur = self.program[self.prog_ptr];
                        match cur {
                            Command::Begin => {
                                lvl += 1;
                            },
                            Command::End => {
                                if lvl == 0 {
                                    return Err(Error::MismatchedBracket);
                                }
                                if lvl == 1 {
                                    break;
                                }
                                lvl -= 1;
                            },
                            _ => (),
                        }
                        self.prog_ptr += 1;
                    }
                    if self.prog_ptr == n {
                        return Err(Error::MismatchedBracket);
                    }
                }
            },
            Command::End => {
                let cell = self.data[self.data_ptr];
                if cell != 0 {
                    let ghost prog = self@.program;
                    let ghost pc0 = self@.pc;
                    let mut lvl: usize = 0;
                    loop
                        invariant
                            prog == old(self)@.program,
                            pc0 == old(self)@.pc,
                            prog[pc0 as int] is End,
                            old(self)@.data[old(self)@.dp as int] != 0,
                            self@.program == prog,
                            self@.data == old(self)@.data,
                            self@.dp == old(self)@.dp,
                            self@.dp < self@.data.len(),
                            output@ == old(output)@,
                            *in_pos == *old(in_pos),
                            n == prog.len(),
                            self@.pc <= pc0 < n,
                            lvl <= pc0 - self@.pc,
                            find_match_bwd(prog, pc0, 0) == find_match_bwd(
                                prog,
                                self@.pc,
                                lvl as nat,
                            ),
                        ensures
                            prog == old(self)@.program,
                            pc0 == old(self)@.pc,
                            prog[pc0 as int] is End,
                            old(self)@.data[old(self)@.dp as int] != 0,
                            self@.program == prog,
                            self@.data == old(self)@.data,
                            self@.dp == old(self)@.dp,
                            self@.dp < self@.data.len(),
                            output@ == old(output)@,
                            *in_pos == *old(in_pos),
                            n == prog.len(),
                            self@.pc < n,
                            find_match_bwd(prog, pc0, 0) == Some(self@.pc),
                        decreases self.prog_ptr,
                    {
                        let cur = self.program[self.prog_ptr];
                        match cur {
                            Command::End => {
                                lvl += 1;
                            },
                            Command::Begin => {
                                if lvl == 0 {
                                    return Err(Error::MismatchedBracket);
                                }
                                if lvl == 1 {
                                    break;
                                }
                                lvl -= 1;
                            },
                            _ => (),
                        }
                        if self.prog_ptr == 0 {
                            return Err(Error::MismatchedBracket);
                        }
                        self.prog_ptr -= 1;
                    }
                }
            },
        }
        self.prog_ptr += 1;
        Ok(self.prog_ptr < n)
    }

    /// Runs the machine until the program counter leaves the program
    /// (success) or a fatal error strikes, reading bytes from `input` and
    /// appending every written byte to `output`.  The result and the final
    /// output are exactly those of the model run from the starting
    /// snapshot.  The halting precondition is what a terminating
    /// verification demands: a machine that never halts has no final
    /// result to speak of.
    #[verifier::loop_isolation(false)]
    pub fn run(&mut self, input: &[u8], output: &mut Vec<u8>) -> (r: Result<(), Error>)
        requires
            old(self).wf(),
            halts(abs(old(self)@, input@, 0, old(output)@)),
        ensures
            final(self).wf(),
            final(self)@.program == old(self)@.program,
            match r {
                Ok(()) => reaches_ok(abs(old(self)@, input@, 0, old(output)@), final(output)@),
                Err(e) => reaches_err(
                    abs(old(self)@, input@, 0, old(output)@),
                    e,
                    final(output)@,
                ),
            },
    {
        let ghost init_s = abs(old(self)@, input@, 0, old(output)@);
        let ghost init = ExecState::Running(init_s);
        let ghost fuel: nat = choose|k: nat| !((#[trigger] steps(init, k)) is Running);
        let mut in_pos: usize = 0;
        let ghost mut n: nat = 0;
        loop
            invariant
                self.wf(),
                self@.program == old(self)@.program,
                steps(init, n) == ExecState::Running(
                    abs(self@, input@, in_pos as nat, output@),
                ),
                !(steps(init, fuel) is Running),
            decreases fuel - n,
        {
            proof {
                if n >= fuel {
                    lemma_halted_stays(init, fuel, n);
                    assert(false);
                }
            }
            let ghost cur = abs(self@, input@, in_pos as nat, output@);
            let res = self.step(input, &mut in_pos, output);
            match res {
                Ok(true) => {
                    proof {
                        n = n + 1;
                        assert(steps(init, n) == advance(steps(init, (n - 1) as nat)));
                        if n >= fuel {
                            lemma_halted_stays(init, fuel, n);
                        }
                        assert(n < fuel);
                    }
                },
                Ok(false) => {
                    proof {
                        let post = abs(self@, input@, in_pos as nat, output@);
                        if cur.pc >= cur.program.len() {
                            let k: nat = n + 1;
                            assert(steps(ExecState::Running(init_s), k)
                                == ExecState::HaltedOk(cur));
                            assert(reaches_ok(init_s, output@));
                        } else {
                            assert(steps(init, n + 1) == ExecState::Running(post));
                            let k: nat = n + 2;
                            assert(steps(ExecState::Running(init_s), k)
                                == ExecState::HaltedOk(post));
                            assert(reaches_ok(init_s, output@));
                        }
                    }
                    return Ok(());
                },
                Err(e) => {
                    proof {
                        let k: nat = n + 1;
                        assert(steps(ExecState::Running(init_s), k)
                            == ExecState::HaltedErr(e, cur));
                        assert(reaches_err(init_s, e, output@));
                    }
                    return Err(e);
                },
            }
        }
    }

    /// The loaded program rendered in the classic dialect; the rendering
    /// decodes back to the program itself.
    pub fn get_program_string_classic(&self) -> (r: String)
        ensures
            r@ == encode_classic(self@.program),
            decode(r@) == self@.program,
    {
        let ghost p = self@.program;
        let mut result = String::new();
        let mut i: usize = 0;
        while i < self.program.len()
            invariant
                i <= p.len(),
                p == self@.program,
                result@ =~= encode_classic(p).take(i as int),
            decreases p.len() - i,
        {
            let c = self.program[i].as_char_classic();
            push_char(&mut result, c);
            i += 1;
            proof {
                assert(result@ =~= encode_classic(p).take(i as int));
            }
        }
        proof {
            assert(encode_classic(p).take(p.len() as int) =~= encode_classic(p));
            lemma_decode_encode_classic(p);
        }
        result
    }

    /// The loaded program rendered in the hands dialect; the rendering
    /// decodes back to the program itself.
    pub fn get_program_string_emoji_hands(&self) -> (r: String)
        ensures
            r@ == encode_hands(self@.program),
            decode(r@) == self@.program,
    {
        let ghost p = self@.program;
        let mut result = String::new();
        let mut i: usize = 0;
        while i < self.program.len()
            invariant
                i <= p.len(),
                p == self@.program,
                result@ =~= encode_hands(p).take(i as int),
            decreases p.len() - i,
        {
            let c = self.program[i].as_char_emoji_hand();
            push_char(&mut result, c);
            i += 1;
            proof {
                assert(result@ =~= encode_hands(p).take(i as int));
            }
        }
        proof {
            assert(encode_hands(p).take(p.len() as int) =~= encode_hands(p));
            lemma_decode_encode_hands(p);
        }
        result
    }

    /// The loaded program rendered in the randomized emoji dialect: every
    /// symbol is freshly drawn from its instruction's themed family, so
    /// two renderings may differ, yet any rendering decodes back to the
    /// same program.
    pub fn get_program_string_emoji_random(&self) -> (r: String)
        ensures
            r@.len() == self@.program.len(),
            forall|i: int|
                0 <= i < r@.len() ==> family_char(self@.program[i], #[trigger] r@[i]),
            forall|i: int|
                0 <= i < r@.len() ==> decodes_to(self@.program[i], #[trigger] r@[i]),
            decode(r@) == self@.program,
    {
        let ghost p = self@.program;
        let mut result = String::new();
        let mut i: usize = 0;
        while i < self.program.len()
            invariant
                i <= p.len(),
                p == self@.program,
                result@.len() == i,
                forall|j: int| 0 <= j < i ==> family_char(p[j], #[trigger] result@[j]),
                forall|j: int| 0 <= j < i ==> decodes_to(p[j], #[trigger] result@[j]),
            decreases p.len() - i,
        {
            let c = self.program[i].as_char_emoji_random();
            push_char(&mut result, c);
            i += 1;
        }
        proof {
            lemma_transliteration_round_trip(p, result@);
        }
        result
    }
}

/// Relies on String::push: appends exactly the given character.
#[verifier::external_body]
fn push_char(s: &mut String, c: char)
    ensures
        final(s)@ == old(s)@.push(c),
{
    s.push(c);
}

} // verus!
