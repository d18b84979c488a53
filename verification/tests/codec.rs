use mpk_mini_ctl::Note;
use mpk_mini_ctl::ParseError;
use mpk_mini_ctl::U14BE;

#[test]
fn test_note_parse_str() {
    assert_eq!(0, Note::from_str("C -1").unwrap().value);
    assert_eq!(1, Note::from_str("C# -1").unwrap().value);
    assert_eq!(1, Note::from_str("C#/Db -1").unwrap().value);
    assert_eq!(127, Note::from_str("G 9").unwrap().value);
}

#[test]
fn test_note_parse_spellings() {
    assert_eq!(1, Note::from_str("Db -1").unwrap().value);
    assert_eq!(60, Note::from_str("C 4").unwrap().value);
    assert_eq!(69, Note::from_str("A 4").unwrap().value);
    assert_eq!(70, Note::from_str("A# 4").unwrap().value);
    assert_eq!(70, Note::from_str("Bb 4").unwrap().value);
    assert_eq!(70, Note::from_str("A#/Bb 4").unwrap().value);
    assert_eq!(11, Note::from_str("B -1").unwrap().value);
    assert_eq!(126, Note::from_str("F#/Gb 9").unwrap().value);
}

#[test]
fn test_note_parse_format_errors() {
    assert_eq!(Err(ParseError::NoteFormat), Note::from_str("C"));
    assert_eq!(Err(ParseError::NoteFormat), Note::from_str("C 1 2"));
    assert_eq!(Err(ParseError::NoteFormat), Note::from_str(""));
    assert_eq!(Err(ParseError::NoteNameUnknown), Note::from_str("H 1"));
    assert_eq!(Err(ParseError::NoteNameUnknown), Note::from_str("Cb 1"));
    assert_eq!(Err(ParseError::NoteNameUnknown), Note::from_str(" 1"));
    assert_eq!(Err(ParseError::NoteOctaveInvalid), Note::from_str("C x"));
    assert_eq!(Err(ParseError::NoteOctaveInvalid), Note::from_str("C -"));
    assert_eq!(Err(ParseError::NoteOctaveInvalid), Note::from_str("C 1x"));
    // Octaves that leave the MIDI key range 0..=127.
    assert_eq!(Err(ParseError::NoteOctaveInvalid), Note::from_str("C -2"));
    assert_eq!(Err(ParseError::NoteOctaveInvalid), Note::from_str("G# 9"));
    assert_eq!(Err(ParseError::NoteOctaveInvalid), Note::from_str("C 99"));
    assert_eq!(Err(ParseError::NoteOctaveInvalid), Note::from_str("C 99999999999999999999"));
}

#[test]
fn test_note_format() {
    assert_eq!("C -1", Note { value: 0 }.as_str());
    assert_eq!("C#/Db -1", Note { value: 1 }.as_str());
    assert_eq!("C 4", Note { value: 60 }.as_str());
    assert_eq!("A 4", Note { value: 69 }.as_str());
    assert_eq!("G 9", Note { value: 127 }.as_str());
}

#[test]
fn test_note_format_parse_roundtrip() {
    let mut v: u8 = 0;
    while v <= 127 {
        let s = Note { value: v }.as_str();
        assert_eq!(v, Note::from_str(&s).unwrap().value);
        v += 1;
    }
}

#[test]
fn test_u14_from_wire() {
    assert_eq!(0, U14BE::from_device([0x00, 0x00]).unwrap().host);
    assert_eq!(16383, U14BE::from_device([0x7F, 0x7F]).unwrap().host);
    assert_eq!(144, U14BE::from_device([0x01, 0x10]).unwrap().host);
    assert_eq!(
        Err(ParseError::U14MsbSet(0x80, 0x00)),
        U14BE::from_device([0x80, 0x00])
    );
    assert_eq!(
        Err(ParseError::U14MsbSet(0x00, 0xFF)),
        U14BE::from_device([0x00, 0xFF])
    );
}

#[test]
fn test_u14_to_wire() {
    assert_eq!([0x7F, 0x7F], U14BE { host: 16383 }.to_device().unwrap());
    assert_eq!([0x00, 0x00], U14BE { host: 0 }.to_device().unwrap());
    assert_eq!([0x01, 0x10], U14BE { host: 144 }.to_device().unwrap());
    assert_eq!(
        Err(ParseError::U14Overflow(16384)),
        U14BE { host: 16384 }.to_device()
    );
}
