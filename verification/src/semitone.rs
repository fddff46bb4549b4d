//! The pitch-class value type: one of the twelve chromatic semitones,
//! numbered 1 (C) through 12 (B), with sharp-only letter-name conversion.

use vstd::prelude::*;
use vstd::string::StrSliceExecFns;

verus! {

/// Why a pitch-class or mode value was rejected.
#[derive(Copy, Clone, Debug, PartialEq, Eq, Structural)]
pub enum PitchError {
    /// A numeric value outside the accepted range.
    OutOfRange,
    /// A letter name that is not one of the twelve canonical spellings.
    InvalidFormat,
}

/// One chromatic semitone identity, independent of octave.
#[derive(Copy, Clone, Debug, PartialEq, Eq, Structural)]
pub struct Semitone {
    value: u8,
}

impl View for Semitone {
    type V = int;

    closed spec fn view(&self) -> int {
        self.value as int
    }
}

/// The canonical sharp-only letter name of each value in 1..=12
/// (an out-of-range value has the empty name).
pub open spec fn letter_seq(v: int) -> Seq<char> {
    if v == 1 {
        "C"@
    } else if v == 2 {
        "C#"@
    } else if v == 3 {
        "D"@
    } else if v == 4 {
        "D#"@
    } else if v == 5 {
        "E"@
    } else if v == 6 {
        "F"@
    } else if v == 7 {
        "F#"@
    } else if v == 8 {
        "G"@
    } else if v == 9 {
        "G#"@
    } else if v == 10 {
        "A"@
    } else if v == 11 {
        "A#"@
    } else if v == 12 {
        "B"@
    } else {
        Seq::empty()
    }
}

/// The value a string denotes, when it is one of the twelve canonical
/// letter names; case-sensitive, sharps only.
pub open spec fn letter_value(s: Seq<char>) -> Option<int> {
    if s == "C"@ {
        Some(1int)
    } else if s == "C#"@ {
        Some(2int)
    } else if s == "D"@ {
        Some(3int)
    } else if s == "D#"@ {
        Some(4int)
    } else if s == "E"@ {
        Some(5int)
    } else if s == "F"@ {
        Some(6int)
    } else if s == "F#"@ {
        Some(7int)
    } else if s == "G"@ {
        Some(8int)
    } else if s == "G#"@ {
        Some(9int)
    } else if s == "A"@ {
        Some(10int)
    } else if s == "A#"@ {
        Some(11int)
    } else if s == "B"@ {
        Some(12int)
    } else {
        None
    }
}

/// Whether two string slices hold the same characters.
fn str_matches(s: &str, t: &str) -> (r: bool)
    ensures
        r <==> s@ == t@,
{
    let n = s.unicode_len();
    if n != t.unicode_len() {
        return false;
    }
    let mut i: usize = 0;
    while i < n
        invariant
            n == s@.len(),
            n == t@.len(),
            0 <= i <= n,
            forall|j: int| 0 <= j < i ==> s@[j] == t@[j],
        decreases n - i,
    {
        if s.get_char(i) != t.get_char(i) {
            return false;
        }
        i += 1;
    }
    proof {
        assert(s@ =~= t@);
    }
    true
}

impl Semitone {
    /// A semitone is well formed when its value lies in 1..=12.
    pub open spec fn wf(&self) -> bool {
        1 <= self@ <= 12
    }

    /// Total constructor for a value already known to be in range.
    pub(crate) fn from_value(value: u8) -> (r: Semitone)
        requires
            1 <= value <= 12,
        ensures
            r@ == value,
            r.wf(),
    {
        Semitone { value }
    }

    /// Construct a semitone, accepting exactly the values 1..=12.
    pub fn new(value: u8) -> (r: Result<Semitone, PitchError>)
        ensures
            r is Ok <==> 1 <= value <= 12,
            r matches Ok(s) ==> s@ == value,
            r is Err ==> r == Err::<Semitone, PitchError>(PitchError::OutOfRange),
    {
        if 1 <= value && value <= 12 {
            Ok(Semitone::from_value(value))
        } else {
            Err(PitchError::OutOfRange)
        }
    }

    /// Construct a semitone from a canonical letter name, accepting exactly
    /// the twelve sharp-only spellings.
    pub fn from_str(value: &str) -> (r: Result<Semitone, PitchError>)
        ensures
            r is Ok <==> letter_value(value@) is Some,
            r matches Ok(s) ==> letter_value(value@) == Some(s@),
            r is Err ==> r == Err::<Semitone, PitchError>(PitchError::InvalidFormat),
    {
        if str_matches(value, "C") {
            Ok(Semitone::from_value(1))
        } else if str_matches(value, "C#") {
            Ok(Semitone::from_value(2))
        } else if str_matches(value, "D") {
            Ok(Semitone::from_value(3))
        } else if str_matches(value, "D#") {
            Ok(Semitone::from_value(4))
        } else if str_matches(value, "E") {
            Ok(Semitone::from_value(5))
        } else if str_matches(value, "F") {
            Ok(Semitone::from_value(6))
        } else if str_matches(value, "F#") {
            Ok(Semitone::from_value(7))
        } else if str_matches(value, "G") {
            Ok(Semitone::from_value(8))
        } else if str_matches(value, "G#") {
            Ok(Semitone::from_value(9))
        } else if str_matches(value, "A") {
            Ok(Semitone::from_value(10))
        } else if str_matches(value, "A#") {
            Ok(Semitone::from_value(11))
        } else if str_matches(value, "B") {
            Ok(Semitone::from_value(12))
        } else {
            Err(PitchError::InvalidFormat)
        }
    }

    /// The canonical letter name of this semitone.
    pub fn to_letter(&self) -> (r: &'static str)
        requires
            self.wf(),
        ensures
            r@ == letter_seq(self@),
    {
        match self.value {
            1 => "C",
            2 => "C#",
            3 => "D",
            4 => "D#",
            5 => "E",
            6 => "F",
            7 => "F#",
            8 => "G",
            9 => "G#",
            10 => "A",
            11 => "A#",
            12 => "B",
            _ => vstd::pervasive::unreached(),
        }
    }

    /// The underlying 1..=12 value.
    pub fn value(&self) -> (r: u8)
        ensures
            r == self@,
    {
        self.value
    }
}

/// Every canonical letter name round-trips through its value, and every
/// valid value round-trips through its letter name.
pub proof fn lemma_letter_round_trip()
    ensures
        forall|v: int| 1 <= v <= 12 ==> letter_value(#[trigger] letter_seq(v)) == Some(v),
        forall|s: Seq<char>, v: int|
            #![trigger letter_value(s), letter_seq(v)]
            letter_value(s) == Some(v) ==> letter_seq(v) == s,
{
    reveal_strlit("C");
    reveal_strlit("C#");
    reveal_strlit("D");
    reveal_strlit("D#");
    reveal_strlit("E");
    reveal_strlit("F");
    reveal_strlit("F#");
    reveal_strlit("G");
    reveal_strlit("G#");
    reveal_strlit("A");
    reveal_strlit("A#");
    reveal_strlit("B");
    assert("C"@.len() == 1 && "C"@[0] == 'C');
    assert("C#"@.len() == 2 && "C#"@[0] == 'C' && "C#"@[1] == '#');
    assert("D"@.len() == 1 && "D"@[0] == 'D');
    assert("D#"@.len() == 2 && "D#"@[0] == 'D' && "D#"@[1] == '#');
    assert("E"@.len() == 1 && "E"@[0] == 'E');
    assert("F"@.len() == 1 && "F"@[0] == 'F');
    assert("F#"@.len() == 2 && "F#"@[0] == 'F' && "F#"@[1] == '#');
    assert("G"@.len() == 1 && "G"@[0] == 'G');
    assert("G#"@.len() == 2 && "G#"@[0] == 'G' && "G#"@[1] == '#');
    assert("A"@.len() == 1 && "A"@[0] == 'A');
    assert("A#"@.len() == 2 && "A#"@[0] == 'A' && "A#"@[1] == '#');
    assert("B"@.len() == 1 && "B"@[0] == 'B');
}

} // verus!
