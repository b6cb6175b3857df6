//! Block-protocol tests against the real interpreter: capacity rejection,
//! identity and gain programs, short-output degradation, stateful state
//! threading, partial state updates and resizing.

use uiua_worklet::engine::Processor;
use uiua_worklet::fault::Fault;

// Program sources, written with escapes for the interpreter's glyphs:
// "\u{d7}" is multiply; "\u{2299}" is dip; "\u{2199}" is take; "." is
// duplicate. Programs run right to left.
const GAIN_PROGRAM: &str = "\u{d7}";
// Stack on entry (top first): samples, state. `.` duplicates the samples,
// dip-add sums samples and state below the copy. Leaves (top first):
// samples (the new state), samples + state (the output).
const ECHO_STATE_PROGRAM: &str = "\u{2299}+.";
// As above, but the new state is only the first two samples.
const SHORT_STATE_PROGRAM: &str = "\u{2199}2\u{2299}+.";
// Stateless: multiply by the gain, keep two samples, add one to them.
const SHORT_OUTPUT_PROGRAM: &str = "+1\u{2199}2\u{d7}";

fn load_input(p: &mut Processor, samples: &[f32]) {
    for (i, &x) in samples.iter().enumerate() {
        p.write_input(i, x.to_bits());
    }
}

fn read_outputs(p: &Processor, n: usize) -> Vec<f32> {
    let mut out: Vec<f32> = Vec::new();
    for i in 0..n {
        out.push(f32::from_bits(p.read_output(i)));
    }
    out
}

fn read_state(p: &Processor) -> Vec<f64> {
    let mut out: Vec<f64> = Vec::new();
    for i in 0..p.state_size() {
        out.push(f64::from_bits(p.state_word(i)));
    }
    out
}

#[test]
fn gain_program_halves_samples() {
    let mut p = Processor::new(GAIN_PROGRAM, false, 0).unwrap();
    load_input(&mut p, &[1.0, -1.0, 2.0]);
    p.set_gain(0.5f64.to_bits());
    p.process_block(3, 1).unwrap();
    assert_eq!(read_outputs(&p, 3), vec![0.5, -0.5, 1.0]);
    assert!(!p.short_output_warned());
}

#[test]
fn identity_gain_empty_block() {
    let mut p = Processor::new(GAIN_PROGRAM, false, 0).unwrap();
    p.process_block(0, 1).unwrap();
    for i in 0..p.capacity() {
        assert_eq!(p.read_output(i), 0u32);
    }
}

#[test]
fn identity_gain_full_block_zeros() {
    let mut p = Processor::new(GAIN_PROGRAM, false, 0).unwrap();
    let zeros = [0.0f32; 128];
    load_input(&mut p, &zeros);
    p.process_block(128, 1).unwrap();
    assert_eq!(read_outputs(&p, 128), vec![0.0f32; 128]);
}

#[test]
fn identity_gain_full_block_max() {
    let mut p = Processor::new(GAIN_PROGRAM, false, 0).unwrap();
    let maxed = [f32::MAX; 128];
    load_input(&mut p, &maxed);
    p.process_block(128, 1).unwrap();
    assert_eq!(read_outputs(&p, 128), vec![f32::MAX; 128]);
}

#[test]
fn identity_gain_full_block_alternating() {
    let mut p = Processor::new(GAIN_PROGRAM, false, 0).unwrap();
    let mut wave = [1.0f32; 128];
    for i in 0..128 {
        if i % 2 == 1 {
            wave[i] = -1.0;
        }
    }
    load_input(&mut p, &wave);
    p.process_block(128, 1).unwrap();
    let out = read_outputs(&p, 128);
    for i in 0..128 {
        assert_eq!(out[i], wave[i]);
    }
}

#[test]
fn capacity_fault_leaves_everything_unchanged() {
    let mut p = Processor::new(ECHO_STATE_PROGRAM, true, 4).unwrap();
    load_input(&mut p, &[1.0, 2.0, 3.0, 4.0]);
    let state = vec![9.0f64.to_bits(), 8.0f64.to_bits(), 7.0f64.to_bits(), 6.0f64.to_bits()];
    p.write_state(&state);
    let r = p.process_block(129, 0);
    match r {
        Err(Fault::Capacity { frames, capacity }) => {
            assert_eq!(frames, 129);
            assert_eq!(capacity, 128);
        }
        other => panic!("expected a capacity fault, got {:?}", other),
    }
    assert_eq!(read_state(&p), vec![9.0, 8.0, 7.0, 6.0]);
    for i in 0..p.capacity() {
        assert_eq!(p.read_output(i), 0u32);
    }
    assert_eq!(f32::from_bits(p.read_input(0)), 1.0);
}

#[test]
fn construction_fault_on_invalid_source() {
    let r = Processor::new("\u{d7}(", false, 0);
    match r {
        Err(f) => assert!(f.is_construction()),
        Ok(_) => panic!("an unbalanced program source must not compile"),
    }
}

#[test]
fn execution_fault_on_stack_underflow_leaves_output() {
    let mut p = Processor::new(GAIN_PROGRAM, false, 0).unwrap();
    load_input(&mut p, &[1.0, 1.0]);
    p.process_block(2, 1).unwrap();
    let before = read_outputs(&p, 2);
    // No parameters pushed: the multiply has one operand and must fail,
    // and the previous block's output must survive.
    let r = p.process_block(2, 0);
    assert!(matches!(r, Err(Fault::Execution { .. })));
    assert_eq!(read_outputs(&p, 2), before);
}

#[test]
fn execution_fault_on_non_numeric_result() {
    let mut p = Processor::new("\"abcd\"", false, 0).unwrap();
    load_input(&mut p, &[1.0, 1.0]);
    let r = p.process_block(2, 1);
    assert!(matches!(r, Err(Fault::Execution { .. })));
    for i in 0..p.capacity() {
        assert_eq!(p.read_output(i), 0u32);
    }
}

#[test]
fn short_output_degrades_per_sample_and_warns_once() {
    let mut p = Processor::new(SHORT_OUTPUT_PROGRAM, false, 0).unwrap();
    load_input(&mut p, &[1.0, 2.0, 3.0, 4.0]);
    p.set_gain(0.5f64.to_bits());
    assert!(!p.short_output_warned());
    p.process_block(4, 1).unwrap();
    // Two interpreter samples (input times gain, plus one), then two
    // fallback samples (input times gain).
    assert_eq!(read_outputs(&p, 4), vec![1.5, 2.0, 1.5, 2.0]);
    assert!(p.short_output_warned());
    // A second identical occurrence keeps the one-shot notice set.
    p.process_block(4, 1).unwrap();
    assert!(p.short_output_warned());
}

#[test]
fn populates_exactly_frames_and_keeps_remainder() {
    let mut p = Processor::new(GAIN_PROGRAM, false, 0).unwrap();
    load_input(&mut p, &[1.0, 2.0, 3.0, 4.0]);
    p.process_block(4, 1).unwrap();
    assert_eq!(read_outputs(&p, 4), vec![1.0, 2.0, 3.0, 4.0]);
    // A shorter block must rewrite only its own prefix.
    p.set_gain(2.0f64.to_bits());
    p.process_block(2, 1).unwrap();
    assert_eq!(read_outputs(&p, 4), vec![2.0, 4.0, 3.0, 4.0]);
    for i in 4..p.capacity() {
        assert_eq!(p.read_output(i), 0u32);
    }
}

#[test]
fn stateful_round_trip_reproduces_first_block() {
    let mut p = Processor::new(ECHO_STATE_PROGRAM, true, 4).unwrap();
    load_input(&mut p, &[1.0, 2.0, 3.0, 4.0]);
    p.process_block(4, 0).unwrap();
    let first = read_outputs(&p, 4);
    assert_eq!(first, vec![1.0, 2.0, 3.0, 4.0]);
    assert_eq!(read_state(&p), vec![1.0, 2.0, 3.0, 4.0]);

    load_input(&mut p, &[5.0, 6.0, 7.0, 8.0]);
    p.process_block(4, 0).unwrap();
    assert_eq!(read_outputs(&p, 4), vec![6.0, 8.0, 10.0, 12.0]);
    assert_eq!(read_state(&p), vec![5.0, 6.0, 7.0, 8.0]);

    // Reset the state to zero and replay the first input: the first
    // block's output must be reproduced exactly.
    p.resize_state(0);
    p.resize_state(4);
    load_input(&mut p, &[1.0, 2.0, 3.0, 4.0]);
    p.process_block(4, 0).unwrap();
    assert_eq!(read_outputs(&p, 4), first);
}

#[test]
fn short_state_updates_only_returned_elements() {
    let mut p = Processor::new(SHORT_STATE_PROGRAM, true, 4).unwrap();
    let state = vec![9.0f64.to_bits(), 9.0f64.to_bits(), 9.0f64.to_bits(), 9.0f64.to_bits()];
    p.write_state(&state);
    load_input(&mut p, &[1.0, 2.0, 3.0, 4.0]);
    p.process_block(4, 0).unwrap();
    // The program returned two state elements; the last two are untouched.
    assert_eq!(read_state(&p), vec![1.0, 2.0, 9.0, 9.0]);
    assert_eq!(read_outputs(&p, 4), vec![10.0, 11.0, 12.0, 13.0]);
}

#[test]
fn resize_state_truncates_pads_and_feeds_next_block() {
    let mut p = Processor::new(ECHO_STATE_PROGRAM, true, 4).unwrap();
    let state = vec![1.0f64.to_bits(), 2.0f64.to_bits(), 3.0f64.to_bits(), 4.0f64.to_bits()];
    p.write_state(&state);
    p.resize_state(6);
    assert_eq!(p.state_size(), 6);
    assert_eq!(read_state(&p), vec![1.0, 2.0, 3.0, 4.0, 0.0, 0.0]);
    p.resize_state(2);
    assert_eq!(p.state_size(), 2);
    assert_eq!(read_state(&p), vec![1.0, 2.0]);
    // The next block sees the resized state: two samples plus state [1, 2].
    p.resize_state(2);
    load_input(&mut p, &[10.0, 20.0]);
    p.process_block(2, 0).unwrap();
    assert_eq!(read_outputs(&p, 2), vec![11.0, 22.0]);
    assert_eq!(read_state(&p), vec![10.0, 20.0]);
}

#[test]
fn legacy_gain_entry_clamps_and_processes() {
    let mut p = Processor::new(GAIN_PROGRAM, false, 0).unwrap();
    load_input(&mut p, &[1.0, -2.0]);
    p.process_block_with_gain(2, 5.0f64.to_bits()).unwrap();
    assert_eq!(f64::from_bits(p.get_gain()), 2.0);
    assert_eq!(read_outputs(&p, 2), vec![2.0, -4.0]);
}

#[test]
fn commit_block_applies_policy_to_any_result() {
    let mut p = Processor::new(GAIN_PROGRAM, false, 0).unwrap();
    load_input(&mut p, &[2.0, 4.0, 8.0]);
    p.set_gain(0.5f64.to_bits());
    // One returned sample for three frames: the rest degrade to input
    // times gain, and the notice is recorded.
    let result = vec![42.0f64.to_bits()];
    let no_state: Vec<u64> = Vec::new();
    p.commit_block(3, &result, &no_state);
    assert_eq!(read_outputs(&p, 3), vec![42.0, 2.0, 4.0]);
    assert!(p.short_output_warned());
}

#[test]
fn commit_block_stateful_updates_state_prefix() {
    let mut p = Processor::new(ECHO_STATE_PROGRAM, true, 3).unwrap();
    let state = vec![5.0f64.to_bits(), 5.0f64.to_bits(), 5.0f64.to_bits()];
    p.write_state(&state);
    load_input(&mut p, &[1.0, 1.0]);
    let result = vec![9.0f64.to_bits(), 9.0f64.to_bits()];
    let returned_state = vec![7.0f64.to_bits()];
    p.commit_block(2, &result, &returned_state);
    assert_eq!(read_state(&p), vec![7.0, 5.0, 5.0]);
    // A stateful block falls back to the input sample itself, but here the
    // result covered both frames.
    assert_eq!(read_outputs(&p, 2), vec![9.0, 9.0]);
    assert!(!p.short_output_warned());
}

#[test]
fn commit_block_stateful_empty_result_passes_input_through() {
    let mut p = Processor::new(ECHO_STATE_PROGRAM, true, 2).unwrap();
    load_input(&mut p, &[0.1, -7.25, 3.5]);
    let empty: Vec<u64> = Vec::new();
    p.commit_block(3, &empty, &empty);
    // A stateful block degrades to the input signal; these ordinary
    // samples come back bit for bit.
    for i in 0..3 {
        assert_eq!(p.read_output(i), p.read_input(i));
    }
    assert!(p.short_output_warned());
}

#[test]
fn params_set_get_and_out_of_range() {
    let mut p = Processor::new(ECHO_STATE_PROGRAM, true, 4).unwrap();
    assert_eq!(f64::from_bits(p.get_param(0)), 0.0);
    p.set_param(2, 7.5f64.to_bits());
    assert_eq!(f64::from_bits(p.get_param(2)), 7.5);
    p.set_param(9, 1.0f64.to_bits());
    assert_eq!(p.get_param(9), 0u64);
    let mut q = Processor::new(GAIN_PROGRAM, false, 0).unwrap();
    assert_eq!(f64::from_bits(q.get_gain()), 1.0);
    q.set_gain(f64::NAN.to_bits());
    assert_eq!(q.get_gain(), f64::NAN.to_bits());
    q.set_gain((-0.25f64).to_bits());
    assert_eq!(f64::from_bits(q.get_gain()), 0.0);
    q.set_gain(1.5f64.to_bits());
    assert_eq!(f64::from_bits(q.get_gain()), 1.5);
}
