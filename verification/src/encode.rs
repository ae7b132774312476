use vstd::prelude::*;

use crate::command::IPCCommand;

verus! {

/// Number of integer slots in the wire payload.
pub const PAYLOAD_SLOTS: usize = 5;

/// The wire encoding of a tri-state flag: an explicit boolean is sent as
/// 0 or 1, and absence — meaning "toggle the current state" — as 2.
pub open spec fn spec_tri(state: Option<bool>) -> i64 {
    match state {
        Some(false) => 0,
        Some(true) => 1,
        None => 2,
    }
}

/// Slot 1 carries the variant's first data field, or 0 for variants
/// without one (the receiver ignores it for those).
pub open spec fn spec_slot1(command: IPCCommand) -> i64 {
    match command {
        IPCCommand::Move { x, .. } => x,
        IPCCommand::Resize { width, .. } => width,
        IPCCommand::Maximize { state } => spec_tri(state),
        IPCCommand::Fullscreen { state } => spec_tri(state),
        _ => 0,
    }
}

/// Slot 2 carries the variant's second data field, or 0 for variants
/// without one.
pub open spec fn spec_slot2(command: IPCCommand) -> i64 {
    match command {
        IPCCommand::Move { y, .. } => y,
        IPCCommand::Resize { height, .. } => height,
        _ => 0,
    }
}

/// Slot 4 carries the explicit target window, or 0 when the caller named
/// none; the receiver treats 0 as "the current window". A caller who names
/// window 0 explicitly is therefore indistinguishable from one who named no
/// window — an accepted protocol limitation, as the host windowing system
/// never assigns identifier 0 to a real window.
pub open spec fn spec_target(window: Option<i64>) -> i64 {
    match window {
        Some(w) => w,
        None => 0,
    }
}

/// The full five-slot payload for a command and an optional target window:
/// the tag, the two data slots, the reserved slot (always 0), and the target.
pub open spec fn spec_payload(command: IPCCommand, window: Option<i64>) -> Seq<i64> {
    seq![
        command.spec_tag(),
        spec_slot1(command),
        spec_slot2(command),
        0i64,
        spec_target(window),
    ]
}

/// The executable tri-state encoding; see [`spec_tri`].
pub fn tri_state_slot(state: Option<bool>) -> (v: i64)
    ensures
        v == spec_tri(state),
{
    match state {
        Some(false) => 0,
        Some(true) => 1,
        None => 2,
    }
}

/// Encode a command and an optional target window into the five-slot wire
/// payload. Encoding is total and pure: it accepts every command value,
/// never fails, and the result is exactly [`spec_payload`].
pub fn encode(command: &IPCCommand, window: Option<i64>) -> (payload: Vec<i64>)
    ensures
        payload.len() == PAYLOAD_SLOTS,
        payload@ == spec_payload(*command, window),
{
    let tag = command.tag();
    let (slot1, slot2): (i64, i64) = match *command {
        IPCCommand::Move { x, y } => (x, y),
        IPCCommand::Resize { width, height } => (width, height),
        IPCCommand::Maximize { state } => (tri_state_slot(state), 0),
        IPCCommand::Fullscreen { state } => (tri_state_slot(state), 0),
        _ => (0, 0),
    };
    let slot4 = match window {
        Some(w) => w,
        None => 0,
    };
    let mut payload: Vec<i64> = Vec::new();
    payload.push(tag);
    payload.push(slot1);
    payload.push(slot2);
    payload.push(0);
    payload.push(slot4);
    proof {
        assert(payload@ =~= spec_payload(*command, window));
    }
    payload
}

/// The three tri-state flag values encode to pairwise distinct slot values,
/// so the receiver can always tell an explicit boolean from a toggle request.
pub proof fn lemma_tri_state_distinct(s1: Option<bool>, s2: Option<bool>)
    ensures
        spec_tri(s1) == spec_tri(s2) ==> s1 == s2,
{
}

/// Target encoding: an absent target always yields slot 4 = 0; an explicit
/// target `w` always yields slot 4 = `w`; and an explicit target of 0
/// produces the very payload that an absent target does.
pub proof fn lemma_target_encoding(command: IPCCommand, w: i64)
    ensures
        spec_payload(command, None)[4] == 0,
        spec_payload(command, Some(w))[4] == w,
        spec_payload(command, Some(0)) == spec_payload(command, None),
{
    assert(spec_payload(command, Some(0)) =~= spec_payload(command, None));
}

/// Encoding is deterministic: any two payloads produced from the same command
/// and target are identical — the encoding keeps no hidden state.
pub proof fn lemma_encode_deterministic(
    p1: Seq<i64>,
    p2: Seq<i64>,
    command: IPCCommand,
    window: Option<i64>,
)
    requires
        p1 == spec_payload(command, window),
        p2 == spec_payload(command, window),
    ensures
        p1 == p2,
{
}

/// Reserved slot invariant: slot 3 is 0 in the payload of every currently
/// defined command, whatever the target; it is kept for forward extension.
pub proof fn lemma_reserved_slot(command: IPCCommand, window: Option<i64>)
    ensures
        spec_payload(command, window)[3] == 0,
{
}

} // verus!
