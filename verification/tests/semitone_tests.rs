use modal_seq::semitone::{PitchError, Semitone};

#[test]
fn value_range() {
    for x in 0u16..=255 {
        let x = x as u8;
        if (1..=12).contains(&x) {
            assert_eq!(Semitone::new(x).unwrap().value(), x);
        } else {
            assert_eq!(Semitone::new(x).unwrap_err(), PitchError::OutOfRange);
        }
    }
}

#[test]
fn letter_round_trip() {
    let names = ["C", "C#", "D", "D#", "E", "F", "F#", "G", "G#", "A", "A#", "B"];
    for name in names {
        let s = Semitone::from_str(name).unwrap();
        assert_eq!(s.to_letter(), name);
    }
}

#[test]
fn letter_table() {
    assert_eq!(Semitone::new(1).unwrap().to_letter(), "C");
    assert_eq!(Semitone::new(2).unwrap().to_letter(), "C#");
    assert_eq!(Semitone::new(3).unwrap().to_letter(), "D");
    assert_eq!(Semitone::new(4).unwrap().to_letter(), "D#");
    assert_eq!(Semitone::new(5).unwrap().to_letter(), "E");
    assert_eq!(Semitone::new(6).unwrap().to_letter(), "F");
    assert_eq!(Semitone::new(7).unwrap().to_letter(), "F#");
    assert_eq!(Semitone::new(8).unwrap().to_letter(), "G");
    assert_eq!(Semitone::new(9).unwrap().to_letter(), "G#");
    assert_eq!(Semitone::new(10).unwrap().to_letter(), "A");
    assert_eq!(Semitone::new(11).unwrap().to_letter(), "A#");
    assert_eq!(Semitone::new(12).unwrap().to_letter(), "B");
}

#[test]
fn letter_values() {
    let names = ["C", "C#", "D", "D#", "E", "F", "F#", "G", "G#", "A", "A#", "B"];
    for (i, name) in names.iter().enumerate() {
        assert_eq!(Semitone::from_str(name).unwrap().value(), (i + 1) as u8);
    }
}

#[test]
fn rejects_bad_letters() {
    for bad in ["", "c", "H", "Db", "C##", "B#", "E#", " C", "C "] {
        assert_eq!(Semitone::from_str(bad).unwrap_err(), PitchError::InvalidFormat);
    }
}
