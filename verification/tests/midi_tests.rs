use modal_seq::midi::{NoteScheduler, NOTE_DURATION_NS};
use modal_seq::scale::Octaved;
use modal_seq::semitone::Semitone;

#[test]
fn note_number_formula() {
    let sched = NoteScheduler::new();
    let c5 = Octaved { value: Semitone::new(1).unwrap(), octave: 5 };
    let m = sched.play(c5);
    assert_eq!(m.data1, 60); // 5 * 12 + (1 - 1)
    let b6 = Octaved { value: Semitone::new(12).unwrap(), octave: 6 };
    assert_eq!(sched.play(b6).data1, 83); // 6 * 12 + (12 - 1)
}

#[test]
fn note_on_bytes() {
    let sched = NoteScheduler::new();
    let m = sched.play_raw_note(64);
    assert_eq!(m.status, 0x90); // note-on, channel 0
    assert_eq!(m.data1, 64);
    assert_eq!(m.data2, 100); // fixed velocity
}

#[test]
fn note_lifecycle() {
    let mut sched = NoteScheduler::new();
    let now = 7_000;
    let on = sched.play_raw_note(60);
    assert_eq!(on.status, 0x90);
    sched.note_sent(60, now);
    // elapsed 0: nothing to release, the note stays in flight
    assert!(sched.next_expired(now).is_none());
    sched.note_released(now);
    assert!(sched.next_expired(now).is_none());
    // one nanosecond early: still nothing
    assert!(sched.next_expired(now + NOTE_DURATION_NS - 1).is_none());
    // once the duration has elapsed: exactly one matching note-off
    let later = now + NOTE_DURATION_NS;
    let off = sched.next_expired(later).unwrap();
    assert_eq!(off.status, 0x80); // note-off, channel 0
    assert_eq!(off.data1, 60);
    assert_eq!(off.data2, 100);
    sched.note_released(later);
    // the entry is gone
    assert!(sched.next_expired(later).is_none());
    assert_eq!(sched.release_all().len(), 0);
}

#[test]
fn failed_note_off_leaves_note_in_flight() {
    let mut sched = NoteScheduler::new();
    sched.note_sent(42, 0);
    let later = NOTE_DURATION_NS + 5;
    assert!(sched.next_expired(later).is_some());
    // the driver's write failed, so it never reported a release:
    // the same note-off is still owed on the next tick
    let retry = sched.next_expired(later + 1).unwrap();
    assert_eq!(retry.data1, 42);
}

#[test]
fn same_note_twice_keeps_two_entries() {
    let mut sched = NoteScheduler::new();
    sched.note_sent(60, 0);
    sched.note_sent(60, 50);
    // both expire in their own time
    let t1 = NOTE_DURATION_NS; // first due, second not yet
    let off1 = sched.next_expired(t1).unwrap();
    assert_eq!(off1.data1, 60);
    sched.note_released(t1);
    assert!(sched.next_expired(t1).is_none()); // second entry still sounding
    let t2 = 50 + NOTE_DURATION_NS;
    let off2 = sched.next_expired(t2).unwrap();
    assert_eq!(off2.data1, 60);
    sched.note_released(t2);
    assert!(sched.next_expired(t2).is_none());
}

#[test]
fn release_all_drains_everything() {
    let mut sched = NoteScheduler::new();
    sched.note_sent(10, 0);
    sched.note_sent(20, 1);
    sched.note_sent(30, 2);
    let offs = sched.release_all();
    assert_eq!(offs.len(), 3);
    assert_eq!(offs[0].data1, 10);
    assert_eq!(offs[1].data1, 20);
    assert_eq!(offs[2].data1, 30);
    for off in &offs {
        assert_eq!(off.status, 0x80);
        assert_eq!(off.data2, 100);
    }
    assert!(sched.next_expired(u64::MAX).is_none());
}
