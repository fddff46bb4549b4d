//! The note scheduler: tracks which notes are sounding and when each one
//! expires, and produces the exact three-byte MIDI messages the output port
//! must be handed.
//!
//! The scheduler never touches the port or the clock itself. The driving
//! loop passes the current time in, writes the returned message, and only
//! then reports the outcome back: a note whose note-on write failed is never
//! recorded, and a note whose note-off write failed stays in flight so the
//! release can be retried on a later tick.

use vstd::prelude::*;

verus! {

use crate::scale::Octaved;
use crate::semitone::Semitone;

/// The fixed MIDI channel of every message.
pub const CHANNEL: u8 = 0;

/// The fixed velocity of every note-on and note-off.
pub const VELOCITY: u8 = 100;

/// How long a note sounds before its note-off is due, in nanoseconds.
pub const NOTE_DURATION_NS: u64 = 100_000_000;

/// A raw three-byte MIDI message.
#[derive(Copy, Clone, Debug, PartialEq, Eq, Structural)]
pub struct MidiMessage {
    pub status: u8,
    pub data1: u8,
    pub data2: u8,
}

/// A note that has sounded and awaits its note-off at `expiration`.
#[derive(Copy, Clone, Debug, PartialEq, Eq, Structural)]
pub struct InFlightNote {
    pub note: u8,
    pub expiration: u64,
}

/// Tracks the notes currently sounding, in the order they were triggered.
#[derive(Debug)]
pub struct NoteScheduler {
    in_flight: Vec<InFlightNote>,
}

/// The raw MIDI note number of an octave-qualified semitone.
pub open spec fn note_number_spec(oct: Octaved<Semitone>) -> int {
    oct.octave * 12 + oct.value@ - 1
}

/// The note-on message for a note number: status `0x90` on the fixed
/// channel, fixed velocity.
pub open spec fn note_on_spec(note: u8) -> MidiMessage {
    MidiMessage { status: (0x90 + CHANNEL) as u8, data1: note, data2: VELOCITY }
}

/// The note-off message for a note number: status `0x80` on the fixed
/// channel, fixed velocity.
pub open spec fn note_off_spec(note: u8) -> MidiMessage {
    MidiMessage { status: (0x80 + CHANNEL) as u8, data1: note, data2: VELOCITY }
}

/// Whether an in-flight note's note-off is due at time `now`.
pub open spec fn is_expired(n: InFlightNote, now: u64) -> bool {
    n.expiration <= now
}

/// Whether any note in the collection is due for release at time `now`.
pub open spec fn has_expired(notes: Seq<InFlightNote>, now: u64) -> bool {
    exists|i: int| 0 <= i < notes.len() && is_expired(#[trigger] notes[i], now)
}

/// The position of the first note due for release at time `now` (meaningful
/// only when one exists).
pub open spec fn first_expired(notes: Seq<InFlightNote>, now: u64) -> int
    decreases notes.len(),
{
    if notes.len() == 0 {
        0
    } else if is_expired(notes[0], now) {
        0
    } else {
        1 + first_expired(notes.drop_first(), now)
    }
}

/// When everything before position `i` is still sounding and the note at
/// `i` is due, `i` is the first expired position.
proof fn lemma_first_expired_at(notes: Seq<InFlightNote>, now: u64, i: int)
    requires
        0 <= i < notes.len(),
        is_expired(notes[i], now),
        forall|j: int| 0 <= j < i ==> !is_expired(#[trigger] notes[j], now),
    ensures
        has_expired(notes, now),
        first_expired(notes, now) == i,
    decreases i,
{
    if i > 0 {
        assert(notes.drop_first()[i - 1] == notes[i]);
        assert(forall|j: int|
            0 <= j < i - 1 ==> #[trigger] notes.drop_first()[j] == notes[j + 1]);
        lemma_first_expired_at(notes.drop_first(), now, i - 1);
    }
}

impl View for NoteScheduler {
    type V = Seq<InFlightNote>;

    closed spec fn view(&self) -> Seq<InFlightNote> {
        self.in_flight@
    }
}

impl NoteScheduler {
    /// A scheduler with nothing in flight.
    pub fn new() -> (s: NoteScheduler)
        ensures
            s@ =~= Seq::<InFlightNote>::empty(),
    {
        NoteScheduler { in_flight: Vec::new() }
    }

    /// The note-on message for an octave-qualified semitone, computed as
    /// `octave * 12 + (value - 1)`. The collection is untouched: record the
    /// note with `note_sent` once the write has succeeded.
    pub fn play(&self, oct_semitone: Octaved<Semitone>) -> (m: MidiMessage)
        requires
            oct_semitone.value.wf(),
            note_number_spec(oct_semitone) <= 127,
        ensures
            m == note_on_spec(note_number_spec(oct_semitone) as u8),
    {
        let midi_note = (oct_semitone.octave * 12) + (oct_semitone.value.value() - 1);
        self.play_raw_note(midi_note)
    }

    /// The note-on message for a raw note number.
    pub fn play_raw_note(&self, note: u8) -> (m: MidiMessage)
        ensures
            m == note_on_spec(note),
    {
        MidiMessage { status: 0x90 + CHANNEL, data1: note, data2: VELOCITY }
    }

    /// Record a note whose note-on was written successfully at time `now`:
    /// it joins the collection with its expiration one note duration later.
    /// A note already in flight gains a second, independent entry.
    pub fn note_sent(&mut self, note: u8, now: u64)
        requires
            now + NOTE_DURATION_NS <= u64::MAX,
        ensures
            final(self)@ == old(self)@.push(
                InFlightNote { note, expiration: (now + NOTE_DURATION_NS) as u64 },
            ),
    {
        self.in_flight.push(InFlightNote { note, expiration: now + NOTE_DURATION_NS });
    }

    /// The note-off message owed at time `now`, if any: the message for the
    /// first in-flight note whose expiration has passed. Nothing is removed:
    /// report a successful write with `note_released`, so a failed write
    /// leaves the note in flight for a retry.
    pub fn next_expired(&self, now: u64) -> (r: Option<MidiMessage>)
        ensures
            r is None <==> !has_expired(self@, now),
            r matches Some(m) ==> m == note_off_spec(self@[first_expired(self@, now)].note),
    {
        let mut i: usize = 0;
        while i < self.in_flight.len()
            invariant
                forall|j: int| 0 <= j < i ==> !is_expired(#[trigger] self@[j], now),
                0 <= i <= self@.len(),
            decreases self@.len() - i,
        {
            let entry = self.in_flight[i];
            if entry.expiration <= now {
                proof {
                    lemma_first_expired_at(self@, now, i as int);
                }
                return Some(MidiMessage { status: 0x80 + CHANNEL, data1: entry.note, data2: VELOCITY });
            }
            i += 1;
        }
        None
    }

    /// Remove the first in-flight note whose expiration has passed at time
    /// `now` — the one whose note-off `next_expired` produced — leaving the
    /// rest in order. With nothing expired, nothing changes.
    pub fn note_released(&mut self, now: u64)
        ensures
            has_expired(old(self)@, now) ==> final(self)@ == old(self)@.remove(
                first_expired(old(self)@, now),
            ),
            !has_expired(old(self)@, now) ==> final(self)@ == old(self)@,
    {
        let mut i: usize = 0;
        while i < self.in_flight.len()
            invariant
                forall|j: int| 0 <= j < i ==> !is_expired(#[trigger] self@[j], now),
                0 <= i <= self@.len(),
                self@ == old(self)@,
            decreases self@.len() - i,
        {
            let entry = self.in_flight[i];
            if entry.expiration <= now {
                proof {
                    lemma_first_expired_at(self@, now, i as int);
                }
                self.in_flight.remove(i);
                return;
            }
            i += 1;
        }
    }

    /// The note-offs for every in-flight note, in the order the notes were
    /// triggered, emptying
    /// the collection: the drain a graceful shutdown needs, whatever each
    /// note's expiration says.
    pub fn release_all(&mut self) -> (offs: Vec<MidiMessage>)
        ensures
            final(self)@ =~= Seq::<InFlightNote>::empty(),
            offs@.len() == old(self)@.len(),
            forall|i: int|
                0 <= i < old(self)@.len() ==> #[trigger] offs@[i] == note_off_spec(
                    old(self)@[i].note,
                ),
    {
        let mut offs: Vec<MidiMessage> = Vec::new();
        let mut i: usize = 0;
        while i < self.in_flight.len()
            invariant
                self@ == old(self)@,
                0 <= i <= self@.len(),
                offs@.len() == i,
                forall|j: int|
                    0 <= j < i ==> #[trigger] offs@[j] == note_off_spec(self@[j].note),
            decreases self@.len() - i,
        {
            let entry = self.in_flight[i];
            offs.push(MidiMessage { status: 0x80 + CHANNEL, data1: entry.note, data2: VELOCITY });
            i += 1;
        }
        self.in_flight.clear();
        offs
    }
}

/// A note recorded at time `now` is still in flight when a release is
/// attempted at that same instant, and is due for release — and is the note
/// released first, leaving nothing behind — at every time at least one note
/// duration later.
pub proof fn lemma_note_lifecycle(note: u8, now: u64, later: u64)
    requires
        now + NOTE_DURATION_NS <= u64::MAX,
    ensures
        ({
            let entries = seq![InFlightNote { note, expiration: (now + NOTE_DURATION_NS) as u64 }];
            &&& !has_expired(entries, now)
            &&& later >= now + NOTE_DURATION_NS ==> {
                &&& has_expired(entries, later)
                &&& first_expired(entries, later) == 0
                &&& entries[first_expired(entries, later)].note == note
                &&& entries.remove(first_expired(entries, later)) =~= Seq::<InFlightNote>::empty()
            }
        }),
{
    let entries = seq![InFlightNote { note, expiration: (now + NOTE_DURATION_NS) as u64 }];
    assert(!is_expired(entries[0], now));
    if later >= now + NOTE_DURATION_NS {
        assert(is_expired(entries[0], later));
    }
}

/// Two triggers of the same note number sound as two independent entries:
/// releasing the earlier one leaves the later one in flight until its own
/// expiration, and no entry is coalesced away.
pub proof fn lemma_independent_notes(note: u8, e1: u64, e2: u64, t: u64)
    requires
        e1 <= e2,
    ensures
        ({
            let entries = seq![
                InFlightNote { note, expiration: e1 },
                InFlightNote { note, expiration: e2 },
            ];
            &&& entries.len() == 2
            &&& e1 <= t ==> {
                &&& has_expired(entries, t)
                &&& first_expired(entries, t) == 0
                &&& entries.remove(0) =~= seq![InFlightNote { note, expiration: e2 }]
            }
            &&& (e1 <= t && t < e2) ==> !has_expired(entries.remove(0), t)
            &&& e2 <= t ==> {
                &&& has_expired(entries.remove(0), t)
                &&& first_expired(entries.remove(0), t) == 0
                &&& entries.remove(0).remove(0) =~= Seq::<InFlightNote>::empty()
            }
        }),
{
    let entries = seq![
        InFlightNote { note, expiration: e1 },
        InFlightNote { note, expiration: e2 },
    ];
    if e1 <= t {
        assert(is_expired(entries[0], t));
    }
    if t < e2 {
        assert(!is_expired(entries.remove(0)[0], t));
    }
    if e2 <= t {
        assert(is_expired(entries.remove(0)[0], t));
    }
}

} // verus!
