use modal_seq::scale::Scale;
use modal_seq::semitone::{PitchError, Semitone};

#[test]
fn create_note_major() {
    let s = Scale::new();
    assert_eq!(s.create_note(1).to_letter(), "C");
    assert_eq!(s.create_note(2).to_letter(), "D");
    assert_eq!(s.create_note(3).to_letter(), "E");
    assert_eq!(s.create_note(4).to_letter(), "F");
    assert_eq!(s.create_note(5).to_letter(), "G");
    assert_eq!(s.create_note(6).to_letter(), "A");
    assert_eq!(s.create_note(7).to_letter(), "B");
}

#[test]
fn create_note_minor() {
    let mut s = Scale::new();
    s.modulate(5).unwrap();
    assert_eq!(s.create_note(1).to_letter(), "C");
    assert_eq!(s.create_note(2).to_letter(), "D");
    assert_eq!(s.create_note(3).to_letter(), "D#");
    assert_eq!(s.create_note(4).to_letter(), "F");
    assert_eq!(s.create_note(5).to_letter(), "G");
    assert_eq!(s.create_note(6).to_letter(), "G#");
    assert_eq!(s.create_note(7).to_letter(), "A#");
}

#[test]
fn create_note_a_minor() {
    let mut s = Scale::new();
    s.transpose(Semitone::from_str("A").unwrap());
    s.modulate(5).unwrap();
    assert_eq!(s.create_note(1).to_letter(), "A");
    assert_eq!(s.create_note(2).to_letter(), "B");
    assert_eq!(s.create_note(3).to_letter(), "C");
    assert_eq!(s.create_note(4).to_letter(), "D");
    assert_eq!(s.create_note(5).to_letter(), "E");
    assert_eq!(s.create_note(6).to_letter(), "F");
    assert_eq!(s.create_note(7).to_letter(), "G");
}

#[test]
fn modulate_rejects_out_of_range() {
    let mut s = Scale::new();
    assert_eq!(s.modulate(8).unwrap_err(), PitchError::OutOfRange);
    // the scale is untouched and still plays the major degrees
    assert_eq!(s.create_note(3).to_letter(), "E");
    assert!(s.modulate(7).is_ok());
}

#[test]
fn degrees_and_notes() {
    let s = Scale::new();
    assert_eq!(s.degrees(), 7);
    let notes = s.notes();
    let letters: Vec<&str> = notes.iter().map(|n| n.to_letter()).collect();
    assert_eq!(letters, ["C", "D", "E", "F", "G", "A", "B"]);
}

#[test]
fn root_tracks_transpose() {
    let mut s = Scale::new();
    assert_eq!(s.root().value(), 1);
    s.transpose(Semitone::new(8).unwrap());
    assert_eq!(s.root().value(), 8);
    assert_eq!(s.root().to_letter(), "G");
}
