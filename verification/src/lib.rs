//! A grid-driven step sequencer core: a validated pitch-class type, a
//! transposable and modally rotatable diatonic scale, an eight-step sequence
//! with a wrapping cursor, and a scheduler that pairs every note-on with a
//! matching note-off once the note's fixed duration has elapsed.
//!
//! All I/O (the MIDI output port, the grid controller, the clock) lives with
//! the caller: the scheduler takes the current time as an argument and hands
//! back the raw three-byte messages to write, so everything here is pure
//! state and arithmetic.

pub mod midi;
pub mod scale;
pub mod semitone;
pub mod sequencer;

use vstd::prelude::*;

verus! {

use crate::semitone::Semitone;
use crate::sequencer::Sequencer;

/// The pitch-class value a key in the transpose rows of the grid's right
/// half selects: row 6 holds the naturals C D E F G A B on columns 8..=14,
/// the row above holds the sharps over the same columns, with gaps where no
/// sharp exists.
pub open spec fn grid_root_value(x: int, y: int) -> Option<int> {
    let xval = x - 8;
    if y == 6 {
        if xval == 0 {
            Some(1int)  // C
        } else if xval == 1 {
            Some(3int)  // D
        } else if xval == 2 {
            Some(5int)  // E
        } else if xval == 3 {
            Some(6int)  // F
        } else if xval == 4 {
            Some(8int)  // G
        } else if xval == 5 {
            Some(10int)  // A
        } else if xval == 6 {
            Some(12int)  // B
        } else {
            None
        }
    } else {
        if xval == 1 {
            Some(2int)  // C#
        } else if xval == 2 {
            Some(4int)  // D#
        } else if xval == 4 {
            Some(7int)  // F#
        } else if xval == 5 {
            Some(9int)  // G#
        } else if xval == 6 {
            Some(11int)  // A#
        } else {
            None
        }
    }
}

/// Transpose the sequencer's scale to the root a grid key in the transpose
/// rows selects, returning whether the key named one; a key over a gap
/// changes nothing.
pub fn handle_transpose(seq: &mut Sequencer, x: u8, y: u8) -> (r: bool)
    requires
        old(seq).wf(),
        8 <= x <= 15,
    ensures
        final(seq).wf(),
        r <==> grid_root_value(x as int, y as int) is Some,
        grid_root_value(x as int, y as int) matches Some(v)
            ==> final(seq).spec_scale().spec_root()@ == v,
        grid_root_value(x as int, y as int) is None ==> *final(seq) == *old(seq),
        final(seq).spec_scale().spec_mode() == old(seq).spec_scale().spec_mode(),
        final(seq).spec_steps() == old(seq).spec_steps(),
        final(seq).spec_cursor() == old(seq).spec_cursor(),
{
    let xval = 7 - (15 - x);
    let value: u8 = if y == 6 {
        match xval {
            0 => 1,  // C
            1 => 3,  // D
            2 => 5,  // E
            3 => 6,  // F
            4 => 8,  // G
            5 => 10,  // A
            6 => 12,  // B
            _ => 0,
        }
    } else {
        match xval {
            1 => 2,  // C#
            2 => 4,  // D#
            4 => 7,  // F#
            5 => 9,  // G#
            6 => 11,  // A#
            _ => 0,
        }
    };
    if value != 0 {
        seq.transpose(Semitone::from_value(value));
        true
    } else {
        false
    }
}

} // verus!
