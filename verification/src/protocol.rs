//! The wire protocol: opcodes, the mode machine, and what a trace of
//! transitions puts on the wire.
//!
//! The mode machine is
//!
//! ```text
//! Off --start--> Passive
//! Passive --shutdown--> Off
//! Passive --enter_safe--> Safe
//! Safe --shutdown--> Off
//! Safe --enter_passive--> Passive
//! ```
//!
//! Off is the initial state and the state every handle ends in when it is
//! torn down.

use vstd::prelude::*;

verus! {

/// Opcode that requests the Passive mode (also the initial start command:
/// the protocol reuses one command to mean "go to Passive" regardless of
/// the prior mode).
pub const START_OPCODE: u8 = 128;

/// Opcode that shuts the device down into the Off mode.
pub const SHUTDOWN_OPCODE: u8 = 173;

/// Opcode that requests the Safe mode.
pub const SAFE_OPCODE: u8 = 131;

/// Opcode that starts or stops cleaning.
pub const CLEAN_OPCODE: u8 = 135;

/// Opcode that starts cleaning in max mode.
pub const MAX_CLEAN_OPCODE: u8 = 136;

/// Opcode that begins a define-song command.
pub const DEFINE_SONG_OPCODE: u8 = 140;

/// Opcode that begins a play-song command.
pub const PLAY_SONG_OPCODE: u8 = 141;

/// The device modes, as values: the ghost counterpart of the mode types
/// that tag a driver handle.
pub enum Mode {
    Off,
    Passive,
    Safe,
    Full,
}

/// True of each host-triggered transition the protocol has.
pub open spec fn step_ok(from: Mode, to: Mode) -> bool {
    ||| (from == Mode::Off && to == Mode::Passive)
    ||| (from == Mode::Passive && to == Mode::Off)
    ||| (from == Mode::Passive && to == Mode::Safe)
    ||| (from == Mode::Safe && to == Mode::Off)
    ||| (from == Mode::Safe && to == Mode::Passive)
}

/// The opcode a transition sends. It depends on the destination alone: the
/// protocol has one command per mode entered. No transition into Full is
/// modeled, so its arm is never reached from a legal step.
pub open spec fn step_opcode(from: Mode, to: Mode) -> u8
    recommends
        step_ok(from, to),
{
    match to {
        Mode::Off => SHUTDOWN_OPCODE,
        Mode::Passive => START_OPCODE,
        Mode::Safe => SAFE_OPCODE,
        Mode::Full => 0,
    }
}

/// The mode a handle is in just before its `i`-th transition, along a trace
/// that starts in `start` and whose transitions enter the modes in `steps`.
pub open spec fn mode_at(start: Mode, steps: Seq<Mode>, i: int) -> Mode {
    if i == 0 {
        start
    } else {
        steps[i - 1]
    }
}

/// True when every transition of the trace follows an edge of the mode
/// machine.
pub open spec fn trace_ok(start: Mode, steps: Seq<Mode>) -> bool {
    forall|i: int| 0 <= i < steps.len() ==> step_ok(mode_at(start, steps, i), #[trigger] steps[i])
}

/// Everything a trace of transitions puts on the wire: each transition
/// appends the opcode of the mode it enters.
pub open spec fn trace_bytes(start: Mode, steps: Seq<Mode>) -> Seq<u8>
    decreases steps.len(),
{
    if steps.len() == 0 {
        Seq::empty()
    } else {
        seq![step_opcode(start, steps[0])] + trace_bytes(steps[0], steps.drop_first())
    }
}

/// How many times `x` occurs in `s`.
pub open spec fn count_matches<A>(s: Seq<A>, x: A) -> nat
    decreases s.len(),
{
    if s.len() == 0 {
        0
    } else {
        (if s[0] == x {
            1nat
        } else {
            0nat
        }) + count_matches(s.drop_first(), x)
    }
}

/// Law: over any trace of transitions reachable by the mode machine, the
/// bytes on the wire are exactly the opcodes of the transitions taken, in
/// order, with no extra bytes.
pub proof fn lemma_trace_bytes_exact(start: Mode, steps: Seq<Mode>)
    requires
        trace_ok(start, steps),
    ensures
        trace_bytes(start, steps).len() == steps.len(),
        forall|i: int|
            0 <= i < steps.len() ==> #[trigger] trace_bytes(start, steps)[i] == step_opcode(
                mode_at(start, steps, i),
                steps[i],
            ),
    decreases steps.len(),
{
    if steps.len() > 0 {
        let rest = steps.drop_first();
        assert(trace_ok(steps[0], rest)) by {
            assert forall|i: int| 0 <= i < rest.len() implies step_ok(
                mode_at(steps[0], rest, i),
                #[trigger] rest[i],
            ) by {
                assert(rest[i] == steps[i + 1]);
                assert(mode_at(steps[0], rest, i) == mode_at(start, steps, i + 1));
                assert(step_ok(mode_at(start, steps, i + 1), steps[i + 1]));
            }
        }
        lemma_trace_bytes_exact(steps[0], rest);
        assert forall|i: int| 0 <= i < steps.len() implies #[trigger] trace_bytes(start, steps)[i]
            == step_opcode(mode_at(start, steps, i), steps[i]) by {
            if i > 0 {
                assert(trace_bytes(start, steps)[i] == trace_bytes(steps[0], rest)[i - 1]);
                assert(rest[i - 1] == steps[i]);
                assert(mode_at(steps[0], rest, i - 1) == mode_at(start, steps, i));
            }
        }
    }
}

/// Law: a trace puts exactly one shutdown byte on the wire for each
/// transition into Off, and no other transition emits one.
pub proof fn lemma_shutdown_count(start: Mode, steps: Seq<Mode>)
    ensures
        count_matches(trace_bytes(start, steps), SHUTDOWN_OPCODE) == count_matches(
            steps,
            Mode::Off,
        ),
    decreases steps.len(),
{
    if steps.len() > 0 {
        let rest = steps.drop_first();
        lemma_shutdown_count(steps[0], rest);
        let bytes = trace_bytes(start, steps);
        assert(bytes[0] == step_opcode(start, steps[0]));
        assert(bytes.drop_first() =~= trace_bytes(steps[0], rest));
        assert((bytes[0] == SHUTDOWN_OPCODE) == (steps[0] == Mode::Off));
    }
}

/// Law: across a whole handle lifetime whose transitions never enter Off,
/// the shutdown byte that the final teardown sends is the only one the
/// transport ever carries: never zero, never more than one.
pub proof fn lemma_one_shutdown_per_lifetime(start: Mode, steps: Seq<Mode>)
    requires
        count_matches(steps, Mode::Off) == 0,
    ensures
        count_matches(trace_bytes(start, steps).push(SHUTDOWN_OPCODE), SHUTDOWN_OPCODE) == 1,
{
    lemma_shutdown_count(start, steps);
    lemma_count_matches_push(trace_bytes(start, steps), SHUTDOWN_OPCODE, SHUTDOWN_OPCODE);
}

/// Appending one element raises its own count by one and no other count.
pub proof fn lemma_count_matches_push<A>(s: Seq<A>, x: A, y: A)
    ensures
        count_matches(s.push(x), y) == count_matches(s, y) + (if x == y {
            1nat
        } else {
            0nat
        }),
    decreases s.len(),
{
    let whole = s.push(x);
    if s.len() == 0 {
        assert(whole[0] == x);
        assert(whole.drop_first() =~= Seq::<A>::empty());
        assert(count_matches(whole.drop_first(), y) == 0);
    } else {
        assert(whole[0] == s[0]);
        assert(whole.drop_first() =~= s.drop_first().push(x));
        lemma_count_matches_push(s.drop_first(), x, y);
    }
}

} // verus!
