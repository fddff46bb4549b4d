//! The eight-step sequence: degree slots, a wrapping cursor, and the
//! embedded scale that turns the current degree into an octave-qualified
//! semitone.

use vstd::prelude::*;

verus! {

use crate::scale::{degree_value, Degree, Octaved, Scale};
use crate::semitone::{PitchError, Semitone};

/// The number of step slots.
pub const STEP_COUNT: usize = 8;

/// The octave a note sounds in when its pitch class does not wrap below
/// the root.
pub const BASE_OCTAVE: u8 = 5;

/// An eight-slot sequence of scale degrees (0 = rest) with a cursor and an
/// embedded scale.
#[derive(Debug)]
pub struct Sequencer {
    steps: Vec<Degree>,
    current_step: usize,
    scale: Scale,
}

impl Sequencer {
    /// The degree stored in each slot.
    pub closed spec fn spec_steps(&self) -> Seq<Degree> {
        self.steps@
    }

    /// The cursor position.
    pub closed spec fn spec_cursor(&self) -> int {
        self.current_step as int
    }

    /// The embedded scale.
    pub closed spec fn spec_scale(&self) -> Scale {
        self.scale
    }

    /// A sequencer is well formed when it has exactly eight slots, each
    /// holding a degree in 0..=7, the cursor is in range, and the embedded
    /// scale is well formed.
    pub open spec fn wf(&self) -> bool {
        &&& self.spec_steps().len() == STEP_COUNT
        &&& forall|i: int| 0 <= i < STEP_COUNT ==> #[trigger] self.spec_steps()[i] <= 7
        &&& 0 <= self.spec_cursor() < STEP_COUNT
        &&& self.spec_scale().wf()
    }

    /// Whether the slot under the cursor is a rest.
    pub open spec fn is_rest(&self) -> bool {
        self.spec_steps()[self.spec_cursor()] == 0
    }

    /// A fresh sequencer: every slot a rest, cursor at slot 0, and the
    /// default scale (root C, mode offset 0).
    pub fn new() -> (s: Sequencer)
        ensures
            s.wf(),
            forall|i: int| 0 <= i < STEP_COUNT ==> #[trigger] s.spec_steps()[i] == 0,
            s.spec_cursor() == 0,
            s.spec_scale().spec_root()@ == 1,
            s.spec_scale().spec_mode() == 0,
    {
        let mut steps: Vec<Degree> = Vec::new();
        steps.resize(STEP_COUNT, 0);
        Sequencer { steps, current_step: 0, scale: Scale::new() }
    }

    /// Advance the cursor one slot, wrapping back to 0 after the last slot;
    /// the slots and the scale are untouched.
    pub fn next(&mut self)
        requires
            old(self).wf(),
        ensures
            final(self).wf(),
            final(self).spec_cursor() == (old(self).spec_cursor() + 1) % (STEP_COUNT as int),
            final(self).spec_steps() == old(self).spec_steps(),
            final(self).spec_scale() == old(self).spec_scale(),
    {
        self.current_step += 1;
        if self.current_step >= self.steps.len() {
            self.current_step = 0;
        }
    }

    /// The degree under the cursor.
    pub fn step(&self) -> (d: Degree)
        requires
            self.wf(),
        ensures
            d == self.spec_steps()[self.spec_cursor()],
    {
        self.steps[self.current_step]
    }

    /// Overwrite one slot with a degree in 0..=7.
    pub fn set_step(&mut self, index: usize, step: Degree)
        requires
            old(self).wf(),
            index < STEP_COUNT,
            step <= 7,
        ensures
            final(self).wf(),
            final(self).spec_steps() == old(self).spec_steps().update(index as int, step),
            final(self).spec_cursor() == old(self).spec_cursor(),
            final(self).spec_scale() == old(self).spec_scale(),
    {
        self.steps[index] = step;
    }

    /// The degree stored at a slot.
    pub fn step_at(&self, index: usize) -> (d: Degree)
        requires
            self.wf(),
            index < STEP_COUNT,
        ensures
            d == self.spec_steps()[index as int],
    {
        self.steps[index]
    }

    /// The note under the cursor: a rest yields nothing; otherwise the
    /// current degree's semitone in the base octave, one octave higher when
    /// the pitch class wrapped below the root (so the rendered melody keeps
    /// ascending as degrees pass the top of the chromatic range).
    pub fn note(&self) -> (r: Option<Octaved<Semitone>>)
        requires
            self.wf(),
        ensures
            r is None <==> self.is_rest(),
            r matches Some(o) ==> {
                let d = self.spec_steps()[self.spec_cursor()] as int;
                let root = self.spec_scale().spec_root()@;
                let v = degree_value(root, self.spec_scale().spec_mode(), d);
                &&& o.value@ == v
                &&& o.value.wf()
                &&& o.octave == if v < root { BASE_OCTAVE + 1 } else { BASE_OCTAVE as int }
            },
    {
        let step = self.step();
        if step > 0 {
            let mut octave: u8 = BASE_OCTAVE;
            let note = self.scale.create_note(step);
            if note.value() < self.scale.root().value() {
                octave += 1;
            }
            Some(Octaved { value: note, octave })
        } else {
            None
        }
    }

    /// Replace the embedded scale's root, keeping everything else.
    pub fn transpose(&mut self, new_root: Semitone)
        requires
            old(self).wf(),
            new_root.wf(),
        ensures
            final(self).wf(),
            final(self).spec_scale().spec_root() == new_root,
            final(self).spec_scale().spec_mode() == old(self).spec_scale().spec_mode(),
            final(self).spec_steps() == old(self).spec_steps(),
            final(self).spec_cursor() == old(self).spec_cursor(),
    {
        self.scale.transpose(new_root);
    }

    /// Set the embedded scale's mode offset, accepting exactly 0..=7; an
    /// out-of-range value is rejected and nothing changes.
    pub fn modulate(&mut self, new_mode: u8) -> (r: Result<(), PitchError>)
        requires
            old(self).wf(),
        ensures
            final(self).wf(),
            r is Ok <==> new_mode <= 7,
            new_mode <= 7 ==> final(self).spec_scale().spec_mode() == new_mode,
            new_mode > 7 ==> r == Err::<(), PitchError>(PitchError::OutOfRange)
                && final(self).spec_scale().spec_mode() == old(self).spec_scale().spec_mode(),
            final(self).spec_scale().spec_root() == old(self).spec_scale().spec_root(),
            final(self).spec_steps() == old(self).spec_steps(),
            final(self).spec_cursor() == old(self).spec_cursor(),
    {
        self.scale.modulate(new_mode)
    }
}

/// A sequencer whose every slot is a rest plays nothing, wherever its
/// cursor stands.
pub proof fn lemma_all_rests(s: Sequencer)
    requires
        s.wf(),
        forall|i: int| 0 <= i < STEP_COUNT ==> #[trigger] s.spec_steps()[i] == 0,
    ensures
        s.is_rest(),
{
}

} // verus!
