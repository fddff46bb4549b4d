//! A seven-degree diatonic scale: a root pitch class plus a mode offset that
//! rotates the fixed whole/half-step interval pattern.

use vstd::prelude::*;

verus! {

use crate::semitone::{PitchError, Semitone};

/// A scale degree: 1..=7 select a note, 0 denotes a rest.
pub type Degree = u8;

/// A value paired with the absolute octave it sounds in.
#[derive(Copy, Clone)]
pub struct Octaved<T: Copy> {
    pub value: T,
    pub octave: u8,
}

/// A diatonic scale: a root semitone and a mode offset in 0..=7 that says
/// where in the interval pattern the scale starts.
#[derive(Debug)]
pub struct Scale {
    root: Semitone,
    mode: u8,
}

/// The fixed interval pattern of the unrotated (major) scale,
/// `[2, 2, 1, 2, 2, 2, 1]`, as a total function on the index.
pub open spec fn pattern_at(i: int) -> int {
    if i == 2 || i == 6 {
        1
    } else {
        2
    }
}

/// The sum of the first `count` intervals of the pattern rotated to start
/// at `mode`.
pub open spec fn interval_sum(mode: int, count: int) -> int
    decreases count,
{
    if count <= 0 {
        0
    } else {
        interval_sum(mode, count - 1) + pattern_at((mode + count - 1) % 7)
    }
}

/// The pitch-class value of scale degree `degree` (1-based) in the scale
/// with the given root value and mode offset: the root plus the leading
/// intervals of the rotated pattern, wrapped back into 1..=12 by a single
/// subtraction (sufficient only because the pattern sums to 12 over a full
/// cycle and the degree stays within one cycle).
pub open spec fn degree_value(root: int, mode: int, degree: int) -> int {
    if degree == 1 {
        root
    } else {
        let pre = root + interval_sum(mode, degree - 1);
        if pre > 12 {
            pre - 12
        } else {
            pre
        }
    }
}

/// Every interval of the pattern is 1 or 2, so a sum of `count` of them
/// lies between `count` and `2 * count`.
pub proof fn lemma_interval_sum_bounds(mode: int, count: int)
    requires
        0 <= count,
    ensures
        count <= interval_sum(mode, count) <= 2 * count,
    decreases count,
{
    if count > 0 {
        lemma_interval_sum_bounds(mode, count - 1);
    }
}

/// A degree in 1..=7 of a well-formed scale always lands back in 1..=12:
/// the wraparound arithmetic can never produce an invalid pitch class.
pub proof fn lemma_degree_value_in_range(root: int, mode: int, degree: int)
    requires
        1 <= root <= 12,
        1 <= degree <= 7,
    ensures
        1 <= degree_value(root, mode, degree) <= 12,
{
    if degree > 1 {
        lemma_interval_sum_bounds(mode, degree - 1);
    }
}

/// One step of the interval pattern, by unrotated index.
fn pattern_step(i: u8) -> (r: u8)
    requires
        i < 7,
    ensures
        r == pattern_at(i as int),
{
    if i == 2 || i == 6 {
        1
    } else {
        2
    }
}

impl Scale {
    /// The root semitone.
    pub closed spec fn spec_root(&self) -> Semitone {
        self.root
    }

    /// The mode offset.
    pub closed spec fn spec_mode(&self) -> int {
        self.mode as int
    }

    /// A scale is well formed when its root is a valid semitone and its
    /// mode offset lies in 0..=7.
    pub open spec fn wf(&self) -> bool {
        &&& self.spec_root().wf()
        &&& 0 <= self.spec_mode() <= 7
    }

    /// The default scale: root C (value 1), mode offset 0 (major).
    pub fn new() -> (s: Scale)
        ensures
            s.wf(),
            s.spec_root()@ == 1,
            s.spec_mode() == 0,
    {
        let root = Semitone::from_value(1);
        Scale { root, mode: 0 }
    }

    /// Set the mode offset, accepting exactly the values 0..=7; an
    /// out-of-range value is rejected and the scale is left unchanged.
    pub fn modulate(&mut self, new_mode: u8) -> (r: Result<(), PitchError>)
        requires
            old(self).wf(),
        ensures
            final(self).wf(),
            r is Ok <==> new_mode <= 7,
            new_mode <= 7 ==> final(self).spec_mode() == new_mode,
            new_mode > 7 ==> r == Err::<(), PitchError>(PitchError::OutOfRange)
                && final(self).spec_mode() == old(self).spec_mode(),
            final(self).spec_root() == old(self).spec_root(),
    {
        if new_mode <= 7 {
            self.mode = new_mode;
            Ok(())
        } else {
            Err(PitchError::OutOfRange)
        }
    }

    /// Replace the root, keeping the mode offset.
    pub fn transpose(&mut self, new_root: Semitone)
        requires
            old(self).wf(),
            new_root.wf(),
        ensures
            final(self).wf(),
            final(self).spec_root() == new_root,
            final(self).spec_mode() == old(self).spec_mode(),
    {
        self.root = new_root;
    }

    /// The semitone of scale degree `degree`: degree 1 is the root; a higher
    /// degree adds the leading intervals of the rotated pattern and wraps
    /// back into range once if the sum passes 12.
    pub fn create_note(&self, degree: Degree) -> (r: Semitone)
        requires
            self.wf(),
            1 <= degree <= 7,
        ensures
            r.wf(),
            r@ == degree_value(self.spec_root()@, self.spec_mode(), degree as int),
    {
        if degree == 1 {
            self.root
        } else {
            let count = degree - 1;
            let mut sum: u8 = 0;
            let mut j: u8 = 0;
            while j < count
                invariant
                    self.wf(),
                    count <= 6,
                    0 <= j <= count,
                    sum == interval_sum(self.spec_mode(), j as int),
                    sum <= 2 * j,
                decreases count - j,
            {
                let idx = (self.mode + j) % 7;
                sum = sum + pattern_step(idx);
                j = j + 1;
            }
            proof {
                lemma_degree_value_in_range(
                    self.spec_root()@,
                    self.spec_mode(),
                    degree as int,
                );
            }
            let pre = sum + self.root.value();
            let result = if pre > 12 {
                pre - 12
            } else {
                pre
            };
            Semitone::from_value(result)
        }
    }

    /// The number of degrees in the scale.
    pub fn degrees(&self) -> (d: Degree)
        ensures
            d == 7,
    {
        7
    }

    /// The semitones of all seven degrees, in degree order.
    pub fn notes(&self) -> (v: Vec<Semitone>)
        requires
            self.wf(),
        ensures
            v@.len() == 7,
            forall|i: int|
                0 <= i < 7 ==> (#[trigger] v@[i])@ == degree_value(
                    self.spec_root()@,
                    self.spec_mode(),
                    i + 1,
                ),
    {
        let mut v: Vec<Semitone> = Vec::new();
        let mut d: u8 = 1;
        while d <= 7
            invariant
                self.wf(),
                1 <= d <= 8,
                v@.len() == d - 1,
                forall|i: int|
                    0 <= i < d - 1 ==> (#[trigger] v@[i])@ == degree_value(
                        self.spec_root()@,
                        self.spec_mode(),
                        i + 1,
                    ),
            decreases 8 - d,
        {
            v.push(self.create_note(d));
            d = d + 1;
        }
        v
    }

    /// The root semitone.
    pub fn root(&self) -> (r: Semitone)
        ensures
            r == self.spec_root(),
    {
        self.root
    }
}

} // verus!
