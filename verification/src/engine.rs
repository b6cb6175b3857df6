//! The execution engine: one processor per active effect instance, holding a
//! compiled program, fixed-capacity sample buffers, scalar parameters and a
//! persistent state vector. Per block it assembles the interpreter stack in
//! the documented order, executes the program, pops the result arrays, and
//! commits them with a per-sample fallback for missing output samples.

use vstd::prelude::*;
use crate::fault::Fault;
use crate::interp::{
    compiler_finish, compiler_load, compiler_new, error_text, runtime_clear_stacks, runtime_new,
    runtime_pop, runtime_push_array, runtime_push_scalar, runtime_run_assembly, value_to_words,
};
use crate::words::{
    clamp_gain_spec, clamp_gain_word, fallback_word, fallback_word_of, is_signaling_nan_sample,
    widen_word, widen_word_of, narrow_word, narrow_word_of, ONE_WORD, ZERO_SAMPLE, ZERO_WORD,
};

verus! {

/// How many samples each buffer holds: one audio block at most this long.
pub const BLOCK_CAPACITY: usize = 128;

/// How many scalar parameters a processor carries.
pub const PARAM_COUNT: usize = 4;

/// The smaller of two mathematical integers.
pub open spec fn min_int(a: int, b: int) -> int {
    if a < b {
        a
    } else {
        b
    }
}

/// A sequence of `n` zero parameter words.
pub open spec fn zero_words_spec(n: int) -> Seq<u64> {
    Seq::new(n as nat, |i: int| ZERO_WORD)
}

/// A sequence of `n` zero buffer samples.
pub open spec fn zero_samples_spec(n: int) -> Seq<u32> {
    Seq::new(n as nat, |i: int| ZERO_SAMPLE)
}

/// The parameters a fresh processor starts with: all zero, except that a
/// stateless processor starts with gain one in the first slot.
pub open spec fn init_params_spec(stateful: bool) -> Seq<u64> {
    if stateful {
        zero_words_spec(PARAM_COUNT as int)
    } else {
        Seq::new(PARAM_COUNT as nat, |i: int| if i == 0 { ONE_WORD } else { ZERO_WORD })
    }
}

/// The first `frames` input samples, widened to 64-bit float words, in order:
/// exactly what is pushed as the sample array.
pub open spec fn widened_input_spec(input: Seq<u32>, frames: int) -> Seq<u64> {
    Seq::new(frames as nat, |i: int| widen_word_of(input[i]))
}

/// The output buffer after a successful block: the first `frames` samples
/// come from the program's result where it reached, and from the per-sample
/// fallback where it fell short; everything past `frames` keeps its prior
/// contents.
pub open spec fn block_output_spec(
    old_out: Seq<u32>,
    input: Seq<u32>,
    result: Seq<u64>,
    frames: int,
    stateful: bool,
    gain: u64,
) -> Seq<u32> {
    Seq::new(
        old_out.len(),
        |i: int|
            if i < frames {
                if i < result.len() {
                    narrow_word_of(result[i])
                } else {
                    fallback_word_of(stateful, input[i], gain)
                }
            } else {
                old_out[i]
            },
    )
}

/// The state vector after a successful stateful block: the returned elements
/// replace the prefix, elements past the returned length are untouched, and
/// the length never changes (only `resize_state` changes it).
pub open spec fn state_update_spec(old_state: Seq<u64>, returned: Seq<u64>) -> Seq<u64> {
    Seq::new(
        old_state.len(),
        |i: int|
            if i < returned.len() {
                returned[i]
            } else {
                old_state[i]
            },
    )
}

/// The state vector after a resize to `n` elements: truncated, or zero-padded.
pub open spec fn resize_spec(old_state: Seq<u64>, n: int) -> Seq<u64> {
    Seq::new(n as nat, |i: int| if i < old_state.len() { old_state[i] } else { ZERO_WORD })
}

/// The processor as the contracts see it: plain words only.
#[verifier::ext_equal]
pub ghost struct ProcessorModel {
    pub stateful: bool,
    pub params: Seq<u64>,
    pub state: Seq<u64>,
    pub input: Seq<u32>,
    pub output: Seq<u32>,
    pub warned_short_output: bool,
}

/// One value of the assembled interpreter stack, bottom first: a rank-one
/// numeric array or a numeric scalar, as 64-bit float words.
pub enum StackItem {
    Array(Vec<u64>),
    Scalar(u64),
}

/// The stack assembly protocol: for a stateful program the state array is
/// pushed first (deepest), then the widened samples, then the used
/// parameters in order (the last pushed ends on top); a stateless program
/// gets no state array.
pub open spec fn plan_ok(
    plan: Seq<StackItem>,
    state: Seq<u64>,
    input: Seq<u32>,
    frames: int,
    params: Seq<u64>,
    params_used: int,
    stateful: bool,
) -> bool {
    let k = min_int(params_used, params.len() as int);
    let base: int = if stateful {
        2
    } else {
        1
    };
    &&& plan.len() == base + k
    &&& (stateful ==> (plan[0] matches StackItem::Array(s) && s@ == state))
    &&& (plan[base - 1] matches StackItem::Array(a) && a@ == widened_input_spec(input, frames))
    &&& (forall|i: int|
        0 <= i < k ==> (#[trigger] plan[base + i] matches StackItem::Scalar(p) && p == params[i]))
}

/// What one successful `process_block` call does, given the samples `res`
/// and (for a stateful program) the new state `newst` that the program left
/// on the stack: the output buffer is committed with the degradation policy,
/// the state prefix is replaced, the short-output notice is recorded once,
/// and nothing else moves.
pub open spec fn ok_block_outcome(
    pre: ProcessorModel,
    post: ProcessorModel,
    frames: int,
    res: Seq<u64>,
    newst: Seq<u64>,
) -> bool {
    &&& post.output == block_output_spec(pre.output, pre.input, res, frames, pre.stateful,
        pre.params[0])
    &&& post.state == if pre.stateful {
        state_update_spec(pre.state, newst)
    } else {
        pre.state
    }
    &&& post.warned_short_output == (pre.warned_short_output || res.len() < frames)
    &&& post.input == pre.input
    &&& post.params == pre.params
    &&& post.stateful == pre.stateful
}

/// The same processor model with the gain parameter replaced by a clamped
/// gain word: the state the legacy entry point runs its block from.
pub open spec fn with_gain(pre: ProcessorModel, gain_word: u64) -> ProcessorModel {
    ProcessorModel { params: pre.params.update(0, clamp_gain_spec(gain_word)), ..pre }
}

/// A compiled block-processing program together with the runtime that
/// executes it. Compiled once at construction; the assembly is never
/// mutated afterwards, and each execution clones it cheaply (uiua clones
/// assemblies by reference count).
pub struct Program {
    runtime: uiua::Uiua,
    assembly: uiua::Assembly,
}

/// Compile one program source text. `Err` carries a construction fault
/// exactly when the interpreter rejects the source.
pub fn compile(source: &str) -> (r: Result<Program, Fault>)
    ensures
        (r matches Err(f) ==> f is Construction),
{
    let mut compiler = compiler_new();
    match compiler_load(&mut compiler, source) {
        Ok(_) => {},
        Err(e) => {
            return Err(Fault::Construction { message: error_text(&e) });
        },
    }
    let assembly = compiler_finish(&mut compiler);
    let runtime = runtime_new();
    Ok(Program { runtime, assembly })
}

/// One audio effect instance: the per-block protocol and its memory.
pub struct Processor {
    program: Program,
    stateful: bool,
    params: Vec<u64>,
    state: Vec<u64>,
    input_buffer: Vec<u32>,
    output_buffer: Vec<u32>,
    warned_short_output: bool,
}

impl View for Processor {
    type V = ProcessorModel;

    closed spec fn view(&self) -> ProcessorModel {
        ProcessorModel {
            stateful: self.stateful,
            params: self.params@,
            state: self.state@,
            input: self.input_buffer@,
            output: self.output_buffer@,
            warned_short_output: self.warned_short_output,
        }
    }
}

/// Build a vector of `n` zero words.
fn zero_words(n: usize) -> (r: Vec<u64>)
    ensures
        r@ == zero_words_spec(n as int),
{
    let mut v: Vec<u64> = Vec::new();
    while v.len() < n
        invariant
            v@.len() <= n,
            forall|i: int| 0 <= i < v@.len() ==> v@[i] == ZERO_WORD,
        decreases n - v.len(),
    {
        v.push(ZERO_WORD);
    }
    proof {
        assert(v@ =~= zero_words_spec(n as int));
    }
    v
}

/// Build a vector of `n` zero buffer samples.
fn zero_samples(n: usize) -> (r: Vec<u32>)
    ensures
        r@ == zero_samples_spec(n as int),
{
    let mut v: Vec<u32> = Vec::new();
    while v.len() < n
        invariant
            v@.len() <= n,
            forall|i: int| 0 <= i < v@.len() ==> v@[i] == ZERO_SAMPLE,
        decreases n - v.len(),
    {
        v.push(ZERO_SAMPLE);
    }
    proof {
        assert(v@ =~= zero_samples_spec(n as int));
    }
    v
}

/// Copy a vector of words.
fn copy_words(src: &Vec<u64>) -> (r: Vec<u64>)
    ensures
        r@ == src@,
{
    let mut v: Vec<u64> = Vec::new();
    let mut i: usize = 0;
    while i < src.len()
        invariant
            i <= src@.len(),
            v@.len() == i,
            forall|j: int| 0 <= j < i ==> v@[j] == src@[j],
        decreases src@.len() - i,
    {
        v.push(src[i]);
        i += 1;
    }
    proof {
        assert(v@ =~= src@);
    }
    v
}

/// Widen the first `frames` input samples to 64-bit float words.
fn widened_input(input: &Vec<u32>, frames: usize) -> (r: Vec<u64>)
    requires
        frames <= input@.len(),
    ensures
        r@ == widened_input_spec(input@, frames as int),
{
    let mut v: Vec<u64> = Vec::new();
    let mut i: usize = 0;
    while i < frames
        invariant
            i <= frames,
            frames <= input@.len(),
            v@.len() == i,
            forall|j: int| 0 <= j < i ==> v@[j] == widen_word_of(input@[j]),
        decreases frames - i,
    {
        v.push(widen_word(input[i]));
        i += 1;
    }
    proof {
        assert(v@ =~= widened_input_spec(input@, frames as int));
    }
    v
}

/// Write the committed block into the output buffer: result samples where
/// the program returned them, fallback values where it fell short, prior
/// contents past `frames`.
fn fill_output(
    output: &mut Vec<u32>,
    input: &Vec<u32>,
    frames: usize,
    result: &Vec<u64>,
    stateful: bool,
    gain: u64,
)
    requires
        frames <= old(output)@.len(),
        frames <= input@.len(),
    ensures
        final(output)@ == block_output_spec(old(output)@, input@, result@, frames as int, stateful,
            gain),
        (stateful ==> forall|j: int|
            result@.len() <= j < frames && !is_signaling_nan_sample(input@[j])
                ==> final(output)@[j] == input@[j]),
{
    let ghost target = block_output_spec(old(output)@, input@, result@, frames as int, stateful,
        gain);
    let mut i: usize = 0;
    while i < frames
        invariant
            i <= frames,
            frames <= input@.len(),
            output@.len() == old(output)@.len(),
            frames <= output@.len(),
            target == block_output_spec(old(output)@, input@, result@, frames as int, stateful,
                gain),
            forall|j: int| 0 <= j < i ==> output@[j] == target[j],
            (stateful ==> forall|j: int|
                result@.len() <= j < i && !is_signaling_nan_sample(input@[j])
                    ==> output@[j] == input@[j]),
            forall|j: int| i <= j < output@.len() ==> output@[j] == old(output)@[j],
        decreases frames - i,
    {
        let w: u32 = if i < result.len() {
            narrow_word(result[i])
        } else {
            fallback_word(stateful, input[i], gain)
        };
        output.set(i, w);
        i += 1;
    }
    proof {
        assert(output@ =~= target);
    }
}

/// Commit a returned state array: the returned elements replace the prefix
/// of the state vector, nothing else moves and the length is kept.
fn apply_state_update(state: &mut Vec<u64>, returned: &Vec<u64>)
    ensures
        final(state)@ == state_update_spec(old(state)@, returned@),
{
    let n: usize = if returned.len() < state.len() {
        returned.len()
    } else {
        state.len()
    };
    let mut i: usize = 0;
    while i < n
        invariant
            i <= n,
            n == min_int(returned@.len() as int, old(state)@.len() as int),
            state@.len() == old(state)@.len(),
            n <= returned@.len(),
            forall|j: int| 0 <= j < i ==> state@[j] == returned@[j],
            forall|j: int| i <= j < state@.len() ==> state@[j] == old(state)@[j],
        decreases n - i,
    {
        state.set(i, returned[i]);
        i += 1;
    }
    proof {
        assert(state@ =~= state_update_spec(old(state)@, returned@));
    }
}

/// Push an assembled stack onto the runtime, bottom item first.
fn push_plan(u: &mut uiua::Uiua, plan: Vec<StackItem>) {
    let mut rest = plan;
    while rest.len() > 0
        decreases rest@.len(),
    {
        let item = rest.remove(0);
        match item {
            StackItem::Array(words) => runtime_push_array(u, &words),
            StackItem::Scalar(w) => runtime_push_scalar(u, w),
        }
    }
}

impl Processor {
    /// The processor's buffers are full-capacity and it carries its full
    /// complement of parameter slots.
    pub open spec fn wf(&self) -> bool {
        &&& self@.input.len() == BLOCK_CAPACITY
        &&& self@.output.len() == BLOCK_CAPACITY
        &&& self@.params.len() == PARAM_COUNT
    }

    /// Build a processor: compile the program source once, allocate the
    /// buffers at full capacity, zero the state vector at the given size.
    /// A stateless processor starts with gain one.
    pub fn new(source: &str, stateful: bool, state_size: usize) -> (r: Result<Processor, Fault>)
        ensures
            (r matches Err(f) ==> f is Construction),
            (r matches Ok(p) ==> {
                &&& p.wf()
                &&& p@.stateful == stateful
                &&& p@.params == init_params_spec(stateful)
                &&& p@.state == zero_words_spec(state_size as int)
                &&& p@.input == zero_samples_spec(BLOCK_CAPACITY as int)
                &&& p@.output == zero_samples_spec(BLOCK_CAPACITY as int)
                &&& !p@.warned_short_output
            }),
    {
        let program = match compile(source) {
            Ok(p) => p,
            Err(f) => {
                return Err(f);
            },
        };
        let mut params = zero_words(PARAM_COUNT);
        if !stateful {
            params.set(0, ONE_WORD);
        }
        let p = Processor {
            program,
            stateful,
            params,
            state: zero_words(state_size),
            input_buffer: zero_samples(BLOCK_CAPACITY),
            output_buffer: zero_samples(BLOCK_CAPACITY),
            warned_short_output: false,
        };
        proof {
            assert(p@.params =~= init_params_spec(stateful));
        }
        Ok(p)
    }

    /// How many samples each buffer holds per block.
    pub fn capacity(&self) -> (r: usize)
        requires
            self.wf(),
        ensures
            r == BLOCK_CAPACITY,
    {
        self.input_buffer.len()
    }

    /// Whether this processor threads a persistent state vector per block.
    pub fn is_stateful(&self) -> (r: bool)
        ensures
            r == self@.stateful,
    {
        self.stateful
    }

    /// Whether a short program output has been noticed; set at most once,
    /// never reset.
    pub fn short_output_warned(&self) -> (r: bool)
        ensures
            r == self@.warned_short_output,
    {
        self.warned_short_output
    }

    /// Set one scalar parameter; an out-of-range index is ignored.
    pub fn set_param(&mut self, index: usize, word: u64)
        requires
            old(self).wf(),
        ensures
            final(self).wf(),
            final(self)@.params == if index < PARAM_COUNT {
                old(self)@.params.update(index as int, word)
            } else {
                old(self)@.params
            },
            final(self)@.state == old(self)@.state,
            final(self)@.input == old(self)@.input,
            final(self)@.output == old(self)@.output,
            final(self)@.stateful == old(self)@.stateful,
            final(self)@.warned_short_output == old(self)@.warned_short_output,
    {
        if index < self.params.len() {
            self.params.set(index, word);
        }
    }

    /// Read one scalar parameter; an out-of-range index reads as zero.
    pub fn get_param(&self, index: usize) -> (r: u64)
        requires
            self.wf(),
        ensures
            r == if index < PARAM_COUNT {
                self@.params[index as int]
            } else {
                ZERO_WORD
            },
    {
        if index < self.params.len() {
            self.params[index]
        } else {
            ZERO_WORD
        }
    }

    /// Set the gain (the first parameter), clamped to [0.0, 2.0].
    pub fn set_gain(&mut self, word: u64)
        requires
            old(self).wf(),
        ensures
            final(self).wf(),
            final(self)@.params == old(self)@.params.update(0, clamp_gain_spec(word)),
            final(self)@.state == old(self)@.state,
            final(self)@.input == old(self)@.input,
            final(self)@.output == old(self)@.output,
            final(self)@.stateful == old(self)@.stateful,
            final(self)@.warned_short_output == old(self)@.warned_short_output,
    {
        let clamped = clamp_gain_word(word);
        self.params.set(0, clamped);
    }

    /// Read the gain (the first parameter).
    pub fn get_gain(&self) -> (r: u64)
        requires
            self.wf(),
        ensures
            r == self@.params[0],
    {
        self.params[0]
    }

    /// How many elements the persistent state vector holds.
    pub fn state_size(&self) -> (r: usize)
        ensures
            r == self@.state.len(),
    {
        self.state.len()
    }

    /// Read one element of the persistent state vector.
    pub fn state_word(&self, index: usize) -> (r: u64)
        requires
            index < self@.state.len(),
        ensures
            r == self@.state[index as int],
    {
        self.state[index]
    }

    /// Read the whole persistent state vector.
    pub fn state_words(&self) -> (r: Vec<u64>)
        ensures
            r@ == self@.state,
    {
        copy_words(&self.state)
    }

    /// Overwrite the persistent state vector without changing its length;
    /// `resize_state` is the only way the length changes.
    pub fn write_state(&mut self, words: &Vec<u64>)
        requires
            old(self).wf(),
            words@.len() == old(self)@.state.len(),
        ensures
            final(self).wf(),
            final(self)@.state == words@,
            final(self)@.params == old(self)@.params,
            final(self)@.input == old(self)@.input,
            final(self)@.output == old(self)@.output,
            final(self)@.stateful == old(self)@.stateful,
            final(self)@.warned_short_output == old(self)@.warned_short_output,
    {
        self.state = copy_words(words);
    }

    /// Resize the persistent state vector: truncate, or pad with zeros.
    pub fn resize_state(&mut self, new_size: usize)
        requires
            old(self).wf(),
        ensures
            final(self).wf(),
            final(self)@.state == resize_spec(old(self)@.state, new_size as int),
            final(self)@.params == old(self)@.params,
            final(self)@.input == old(self)@.input,
            final(self)@.output == old(self)@.output,
            final(self)@.stateful == old(self)@.stateful,
            final(self)@.warned_short_output == old(self)@.warned_short_output,
    {
        let keep: usize = if new_size < self.state.len() {
            new_size
        } else {
            self.state.len()
        };
        let mut v: Vec<u64> = Vec::new();
        let mut i: usize = 0;
        while i < keep
            invariant
                i <= keep,
                keep <= self.state@.len(),
                v@.len() == i,
                forall|j: int| 0 <= j < i ==> v@[j] == self.state@[j],
            decreases keep - i,
        {
            v.push(self.state[i]);
            i += 1;
        }
        while v.len() < new_size
            invariant
                keep <= v@.len() <= new_size,
                keep == min_int(new_size as int, self.state@.len() as int),
                forall|j: int| 0 <= j < keep ==> v@[j] == self.state@[j],
                forall|j: int| keep <= j < v@.len() ==> v@[j] == ZERO_WORD,
            decreases new_size - v.len(),
        {
            v.push(ZERO_WORD);
        }
        proof {
            assert(v@ =~= resize_spec(self.state@, new_size as int));
        }
        self.state = v;
    }

    /// Write one sample into the input buffer.
    pub fn write_input(&mut self, index: usize, sample: u32)
        requires
            old(self).wf(),
            index < BLOCK_CAPACITY,
        ensures
            final(self).wf(),
            final(self)@.input == old(self)@.input.update(index as int, sample),
            final(self)@.params == old(self)@.params,
            final(self)@.state == old(self)@.state,
            final(self)@.output == old(self)@.output,
            final(self)@.stateful == old(self)@.stateful,
            final(self)@.warned_short_output == old(self)@.warned_short_output,
    {
        self.input_buffer.set(index, sample);
    }

    /// Read one sample back from the input buffer.
    pub fn read_input(&self, index: usize) -> (r: u32)
        requires
            self.wf(),
            index < BLOCK_CAPACITY,
        ensures
            r == self@.input[index as int],
    {
        self.input_buffer[index]
    }

    /// Read one sample from the output buffer.
    pub fn read_output(&self, index: usize) -> (r: u32)
        requires
            self.wf(),
            index < BLOCK_CAPACITY,
        ensures
            r == self@.output[index as int],
    {
        self.output_buffer[index]
    }

    /// Assemble the interpreter stack for one block, bottom item first,
    /// without touching the runtime: the documented stack protocol as data.
    pub fn build_stack_plan(&self, frames: usize, params_used: usize) -> (plan: Vec<StackItem>)
        requires
            self.wf(),
            frames <= BLOCK_CAPACITY,
        ensures
            plan_ok(plan@, self@.state, self@.input, frames as int, self@.params,
                params_used as int, self@.stateful),
    {
        let mut plan: Vec<StackItem> = Vec::new();
        if self.stateful {
            let st = copy_words(&self.state);
            plan.push(StackItem::Array(st));
        }
        let samples = widened_input(&self.input_buffer, frames);
        plan.push(StackItem::Array(samples));
        let base: usize = plan.len();
        let k: usize = if params_used < self.params.len() {
            params_used
        } else {
            self.params.len()
        };
        let mut i: usize = 0;
        while i < k
            invariant
                i <= k,
                k <= self.params@.len(),
                base as int == if self.stateful {
                    2int
                } else {
                    1int
                },
                plan@.len() == base + i,
                (self.stateful ==> (plan@[0] matches StackItem::Array(s) && s@ == self@.state)),
                (plan@[base as int - 1] matches StackItem::Array(a) && a@ == widened_input_spec(
                    self@.input, frames as int)),
                forall|j: int|
                    0 <= j < i ==> (#[trigger] plan@[base + j] matches StackItem::Scalar(p) && p
                        == self@.params[j]),
            decreases k - i,
        {
            plan.push(StackItem::Scalar(self.params[i]));
            i += 1;
        }
        plan
    }

    /// Commit one block's results exactly as a successful execution does:
    /// the returned state replaces the state prefix (stateful processors
    /// only), the output buffer takes the result samples with the
    /// per-sample fallback where they fall short, and the one-shot
    /// short-output notice is recorded. Public with an exact contract, so
    /// the commit policy can be checked against any program result.
    pub fn commit_block(&mut self, frames: usize, result: &Vec<u64>, returned_state: &Vec<u64>)
        requires
            old(self).wf(),
            frames <= BLOCK_CAPACITY,
        ensures
            final(self).wf(),
            final(self)@.state.len() == old(self)@.state.len(),
            ok_block_outcome(old(self)@, final(self)@, frames as int, result@, returned_state@),
            (old(self)@.stateful ==> forall|i: int|
                result@.len() <= i < frames && !is_signaling_nan_sample(old(self)@.input[i])
                    ==> final(self)@.output[i] == old(self)@.input[i]),
    {
        if self.stateful {
            apply_state_update(&mut self.state, returned_state);
        }
        let gain = self.params[0];
        fill_output(&mut self.output_buffer, &self.input_buffer, frames, result, self.stateful,
            gain);
        if result.len() < frames {
            self.warned_short_output = true;
        }
    }

    /// Run one block: reject requests past capacity before touching
    /// anything; otherwise clear the stacks, push state (stateful only),
    /// samples and the first `params_used` parameters, execute the program,
    /// pop the new state (stateful only, topmost) and the samples, and
    /// commit both; a runtime error or an ill-shaped result aborts the block
    /// with buffers and state exactly as they were.
    pub fn process_block(&mut self, frames: usize, params_used: usize) -> (r: Result<(), Fault>)
        requires
            old(self).wf(),
        ensures
            final(self).wf(),
            final(self)@.stateful == old(self)@.stateful,
            final(self)@.input == old(self)@.input,
            final(self)@.params == old(self)@.params,
            final(self)@.state.len() == old(self)@.state.len(),
            (old(self)@.warned_short_output ==> final(self)@.warned_short_output),
            (frames > BLOCK_CAPACITY ==> (r matches Err(f) && f matches Fault::Capacity {
                frames: ff,
                capacity: c,
            } && ff == frames && c == BLOCK_CAPACITY) && final(self)@ == old(self)@),
            (frames <= BLOCK_CAPACITY ==> !(r matches Err(f) && f is Capacity)),
            (r matches Err(f) ==> !(f is Construction)),
            (r is Err ==> final(self)@.output == old(self)@.output && final(self)@.state == old(
                self,
            )@.state && final(self)@.warned_short_output == old(self)@.warned_short_output),
            (r is Ok ==> frames <= BLOCK_CAPACITY),
            (r is Ok ==> exists|res: Seq<u64>, newst: Seq<u64>|
                ok_block_outcome(old(self)@, final(self)@, frames as int, res, newst)),
            (r is Ok ==> forall|i: int|
                frames <= i < BLOCK_CAPACITY ==> final(self)@.output[i] == old(self)@.output[i]),
    {
        if frames > self.input_buffer.len() {
            return Err(Fault::Capacity { frames, capacity: self.input_buffer.len() });
        }
        let plan = self.build_stack_plan(frames, params_used);
        runtime_clear_stacks(&mut self.program.runtime);
        push_plan(&mut self.program.runtime, plan);
        match runtime_run_assembly(&mut self.program.runtime, &self.program.assembly) {
            Ok(_) => {},
            Err(e) => {
                return Err(Fault::Execution { message: error_text(&e) });
            },
        }
        if self.stateful {
            let state_val = match runtime_pop(&mut self.program.runtime) {
                Ok(v) => v,
                Err(e) => {
                    return Err(Fault::Execution { message: error_text(&e) });
                },
            };
            let state_words = match value_to_words(&state_val, &self.program.runtime) {
                Ok(w) => w,
                Err(e) => {
                    return Err(Fault::Execution { message: error_text(&e) });
                },
            };
            let out_val = match runtime_pop(&mut self.program.runtime) {
                Ok(v) => v,
                Err(e) => {
                    return Err(Fault::Execution { message: error_text(&e) });
                },
            };
            let out_words = match value_to_words(&out_val, &self.program.runtime) {
                Ok(w) => w,
                Err(e) => {
                    return Err(Fault::Execution { message: error_text(&e) });
                },
            };
            self.commit_block(frames, &out_words, &state_words);
            Ok(())
        } else {
            let out_val = match runtime_pop(&mut self.program.runtime) {
                Ok(v) => v,
                Err(e) => {
                    return Err(Fault::Execution { message: error_text(&e) });
                },
            };
            let out_words = match value_to_words(&out_val, &self.program.runtime) {
                Ok(w) => w,
                Err(e) => {
                    return Err(Fault::Execution { message: error_text(&e) });
                },
            };
            let no_state: Vec<u64> = Vec::new();
            self.commit_block(frames, &out_words, &no_state);
            Ok(())
        }
    }

    /// Run one stateless block the way the legacy entry point does: clamp
    /// and store the gain, then process the block with that one parameter.
    /// A request past capacity is rejected before the gain is stored.
    pub fn process_block_with_gain(&mut self, frames: usize, gain_word: u64) -> (r: Result<
        (),
        Fault,
    >)
        requires
            old(self).wf(),
        ensures
            final(self).wf(),
            final(self)@.stateful == old(self)@.stateful,
            final(self)@.input == old(self)@.input,
            final(self)@.state.len() == old(self)@.state.len(),
            (frames > BLOCK_CAPACITY ==> (r matches Err(f) && f is Capacity) && final(self)@
                == old(self)@),
            (frames <= BLOCK_CAPACITY ==> !(r matches Err(f) && f is Capacity)),
            (r matches Err(f) ==> !(f is Construction)),
            (frames <= BLOCK_CAPACITY ==> final(self)@.params == old(self)@.params.update(0,
                clamp_gain_spec(gain_word))),
            (r is Err ==> final(self)@.output == old(self)@.output && final(self)@.state == old(
                self,
            )@.state && final(self)@.warned_short_output == old(self)@.warned_short_output),
            (r is Ok ==> frames <= BLOCK_CAPACITY && exists|res: Seq<u64>, newst: Seq<u64>|
                #[trigger] ok_block_outcome(with_gain(old(self)@, gain_word), final(self)@,
                    frames as int, res, newst)),
    {
        if frames > self.input_buffer.len() {
            return Err(Fault::Capacity { frames, capacity: self.input_buffer.len() });
        }
        self.set_gain(gain_word);
        proof {
            assert(self@ =~= with_gain(old(self)@, gain_word));
        }
        self.process_block(frames, 1)
    }
}

} // verus!
