use mpk_mini_ctl::check_bank_index;
use mpk_mini_ctl::correlate_bank_reply;
use mpk_mini_ctl::sysex_get_bank;
use mpk_mini_ctl::sysex_set_bank;
use mpk_mini_ctl::ArpeggiatorMode;
use mpk_mini_ctl::ArpeggiatorTimeDivision;
use mpk_mini_ctl::BankReplyStep;
use mpk_mini_ctl::ClockSource;
use mpk_mini_ctl::FieldKind;
use mpk_mini_ctl::Joystick;
use mpk_mini_ctl::Knob;
use mpk_mini_ctl::MpkBankDescriptor;
use mpk_mini_ctl::MpkMidiMessage;
use mpk_mini_ctl::Note;
use mpk_mini_ctl::Pad;
use mpk_mini_ctl::PadMode;
use mpk_mini_ctl::ParseError;
use mpk_mini_ctl::Swing;
use mpk_mini_ctl::Toggle;
use mpk_mini_ctl::U14BE;

/// A syntactically valid 108-byte descriptor whose joystick records are
/// canonical, so it survives a decode-then-encode trip byte for byte.
fn sample_bytes() -> Vec<u8> {
    let mut b: Vec<u8> = vec![
        1, 2, 4, // pad channel, keybed channel, octave
        1, 3, 2, // arpeggiator on, mode, time division
        0, 1, 5, // clock source, latch, swing
        3, 0x01, 0x10, // tempo taps, tempo hi, tempo lo
        2, // arpeggiator octave
        1, 10, 0, // joystick x: control channel 10
        2, 20, 30, // joystick y: split 20/30
    ];
    for j in 0..16u8 {
        b.push(60 + j); // note
        b.push(j); // program
        b.push(40 + j); // control
        b.push(j % 2); // mode
    }
    for j in 0..8u8 {
        b.push(j); // control
        b.push(0); // min
        b.push(127); // max
    }
    b.push(12); // transpose
    b
}

fn sample_descriptor() -> MpkBankDescriptor {
    let mut pads: Vec<Pad> = Vec::new();
    for j in 0..16u8 {
        pads.push(Pad {
            note: Note { value: 60 + j },
            control: 40 + j,
            program: j,
            mode: if j % 2 == 0 { PadMode::Momentary } else { PadMode::Toggle },
        });
    }
    let mut knobs: Vec<Knob> = Vec::new();
    for j in 0..8u8 {
        knobs.push(Knob { control: j, min: 0, max: 127 });
    }
    MpkBankDescriptor {
        pad_midi_channel: 1,
        keybed_channel: 2,
        octave: 4,
        arpeggiator: Toggle::On,
        arpeggiator_mode: ArpeggiatorMode::Inclusive,
        arpeggiator_time_division: ArpeggiatorTimeDivision::_8,
        clock_source: ClockSource::Internal,
        latch: Toggle::On,
        swing: Swing::_64,
        tempo_taps: 3,
        tempo: U14BE { host: 144 },
        arpeggiator_octave: 2,
        joystick_x: Joystick::ControlChannel(10),
        joystick_y: Joystick::SplitControlChannels(20, 30),
        pads,
        knobs,
        transpose: 12,
    }
}

#[test]
fn test_bank_bytes_roundtrip() {
    let bytes = sample_bytes();
    let desc = MpkBankDescriptor::from(&bytes).unwrap();
    assert_eq!(bytes, desc.into_bytes());
}

#[test]
fn test_bank_value_roundtrip() {
    let desc = sample_descriptor();
    let decoded = MpkBankDescriptor::from(&desc.clone().into_bytes()).unwrap();
    assert_eq!(desc, decoded);
}

#[test]
fn test_bank_decode_matches_value() {
    let desc = MpkBankDescriptor::from(&sample_bytes()).unwrap();
    assert_eq!(sample_descriptor(), desc);
    assert_eq!(1, desc.pad_midi_channel);
    assert_eq!(144, desc.tempo.host);
    assert_eq!(Joystick::ControlChannel(10), desc.joystick_x);
    // The wire transposition: pad byte 1 is the program, byte 2 the control.
    assert_eq!(0, desc.pads[0].program);
    assert_eq!(40, desc.pads[0].control);
}

#[test]
fn test_bank_length_mismatch() {
    assert_eq!(
        Err(ParseError::LengthMismatch { got: 3, expected: 108 }),
        MpkBankDescriptor::from(&[0, 0, 0])
    );
    assert_eq!(
        Err(ParseError::LengthMismatch { got: 109, expected: 108 }),
        MpkBankDescriptor::from(&vec![0u8; 109])
    );
}

#[test]
fn test_bank_field_errors() {
    let check = |at: usize, val: u8, err: ParseError| {
        let mut b = sample_bytes();
        b[at] = val;
        assert_eq!(Err(err), MpkBankDescriptor::from(&b));
    };
    check(3, 2, ParseError::RangeInvalid(FieldKind::Toggle, 2));
    check(4, 6, ParseError::RangeInvalid(FieldKind::ArpeggiatorMode, 6));
    check(5, 8, ParseError::RangeInvalid(FieldKind::ArpeggiatorTimeDivision, 8));
    check(6, 2, ParseError::RangeInvalid(FieldKind::ClockSource, 2));
    check(7, 9, ParseError::RangeInvalid(FieldKind::Toggle, 9));
    check(8, 6, ParseError::RangeInvalid(FieldKind::Swing, 6));
    check(10, 0x80, ParseError::U14MsbSet(0x80, 0x10));
    check(11, 0xFF, ParseError::U14MsbSet(0x01, 0xFF));
    check(13, 3, ParseError::RangeInvalid(FieldKind::JoystickMode, 3));
    check(16, 7, ParseError::RangeInvalid(FieldKind::JoystickMode, 7));
    // The mode byte of the first pad is byte 22.
    check(22, 2, ParseError::RangeInvalid(FieldKind::PadMode, 2));
    // The mode byte of the last pad is byte 82.
    check(82, 5, ParseError::RangeInvalid(FieldKind::PadMode, 5));
}

#[test]
fn test_pad_knob_slice_lengths() {
    assert_eq!(
        Err(ParseError::LengthMismatch { got: 10, expected: 64 }),
        MpkBankDescriptor::parse_pads(&[0u8; 10])
    );
    assert_eq!(
        Err(ParseError::LengthMismatch { got: 65, expected: 64 }),
        MpkBankDescriptor::parse_pads(&vec![0u8; 65])
    );
    assert_eq!(
        Err(ParseError::LengthMismatch { got: 5, expected: 24 }),
        MpkBankDescriptor::parse_knobs(&[0u8; 5])
    );
    assert_eq!(
        Err(ParseError::LengthMismatch { got: 23, expected: 24 }),
        MpkBankDescriptor::parse_knobs(&vec![0u8; 23])
    );
}

#[test]
fn test_parse_msg_empty_and_unaligned() {
    assert_eq!(Err(ParseError::EmptyMessage), MpkMidiMessage::parse_msg(&[]));
    assert_eq!(Err(ParseError::MsbUnset), MpkMidiMessage::parse_msg(&[0x50, 0x01]));
    assert_eq!(Err(ParseError::MsbUnset), MpkMidiMessage::parse_msg(&[0x7F]));
}

#[test]
fn test_parse_msg_malformed_sysex() {
    // Too short for a SysEx frame.
    assert_eq!(Err(ParseError::MalformedFrame), MpkMidiMessage::parse_msg(&[0xF0, 0x47]));
    // Missing the trailing end marker.
    assert_eq!(
        Err(ParseError::MalformedFrame),
        MpkMidiMessage::parse_msg(&[0xF0, 0x47, 0x00, 0x26])
    );
}

#[test]
fn test_parse_msg_non_vendor() {
    assert_eq!(
        Err(ParseError::NonVendorFrame(0x00)),
        MpkMidiMessage::parse_msg(&[0xF0, 0x00, 0xF7])
    );
}

#[test]
fn test_parse_msg_unknown_vendor_payload() {
    assert_eq!(
        Err(ParseError::UnknownVendorPayload),
        MpkMidiMessage::parse_msg(&[0xF0, 0x47, 0x01, 0x02, 0x03, 0xF7])
    );
    // The bank signature with nothing after it lacks the bank index.
    assert_eq!(
        Err(ParseError::MalformedFrame),
        MpkMidiMessage::parse_msg(&[0xF0, 0x47, 0x00, 0x26, 0x67, 0x00, 0x6D, 0xF7])
    );
    // A bank report whose descriptor is truncated.
    assert_eq!(
        Err(ParseError::LengthMismatch { got: 2, expected: 108 }),
        MpkMidiMessage::parse_msg(&[0xF0, 0x47, 0x00, 0x26, 0x67, 0x00, 0x6D, 0x01, 9, 9, 0xF7])
    );
}

#[test]
fn test_parse_channel_messages() {
    assert_eq!(
        Ok(MpkMidiMessage::NoteOn(1, 60, 100)),
        MpkMidiMessage::parse_msg(&[0x91, 60, 100])
    );
    assert_eq!(
        Ok(MpkMidiMessage::NoteOff(0, 60, 0)),
        MpkMidiMessage::parse_msg(&[0x80, 60, 0])
    );
    assert_eq!(
        Ok(MpkMidiMessage::ControlChange(3, 7, 99)),
        MpkMidiMessage::parse_msg(&[0xB3, 7, 99])
    );
    assert_eq!(
        Ok(MpkMidiMessage::ProgramChange(2, 5)),
        MpkMidiMessage::parse_msg(&[0xC2, 5])
    );
    // 14-bit pitch bend: low byte first on the wire.
    assert_eq!(
        Ok(MpkMidiMessage::PitchBend(0, 0x2000)),
        MpkMidiMessage::parse_msg(&[0xE0, 0x00, 0x40])
    );
    assert_eq!(Ok(MpkMidiMessage::Unparsed), MpkMidiMessage::parse_msg(&[0xA0, 1, 2]));
    assert_eq!(Ok(MpkMidiMessage::Unparsed), MpkMidiMessage::parse_msg(&[0xD5]));
    // A runt channel message is rejected rather than read out of bounds.
    assert_eq!(Err(ParseError::MalformedFrame), MpkMidiMessage::parse_msg(&[0x90, 60]));
    assert_eq!(Err(ParseError::MalformedFrame), MpkMidiMessage::parse_msg(&[0xC1]));
}

#[test]
fn test_parse_system_messages() {
    assert_eq!(Ok(MpkMidiMessage::Reset), MpkMidiMessage::parse_msg(&[0xFF]));
    assert_eq!(
        Ok(MpkMidiMessage::Unknown(vec![0xF1, 0x33])),
        MpkMidiMessage::parse_msg(&[0xF1, 0x33])
    );
}

#[test]
fn test_get_bank_request_bytes() {
    assert_eq!(
        vec![0xF0, 0x47, 0x00, 0x26, 0x66, 0x00, 0x01, 0x01, 0xF7],
        sysex_get_bank(1)
    );
    assert_eq!(
        vec![0xF0, 0x47, 0x00, 0x26, 0x66, 0x00, 0x01, 0x00, 0xF7],
        sysex_get_bank(0)
    );
}

#[test]
fn test_set_bank_request_bytes() {
    let desc = sample_descriptor();
    let frame = sysex_set_bank(3, desc.clone());
    assert_eq!(117, frame.len());
    assert_eq!(&[0xF0, 0x47, 0x00, 0x26, 0x64, 0x00, 0x6D, 3], &frame[..8]);
    assert_eq!(desc.into_bytes(), frame[8..116].to_vec());
    assert_eq!(0xF7, frame[116]);
}

#[test]
fn test_get_bank_end_to_end() {
    // Ask for bank 1.
    let request = sysex_get_bank(1);
    assert_eq!(vec![0xF0, 0x47, 0x00, 0x26, 0x66, 0x00, 0x01, 0x01, 0xF7], request);
    // The device answers with a bank report; the correlator delivers it.
    let desc = sample_descriptor();
    let mut reply: Vec<u8> = vec![0xF0, 0x47, 0x00, 0x26, 0x67, 0x00, 0x6D, 0x01];
    reply.extend(desc.clone().into_bytes());
    reply.push(0xF7);
    let msg = MpkMidiMessage::parse_msg(&reply);
    assert_eq!(Ok(MpkMidiMessage::Bank(1, desc.clone())), msg);
    match correlate_bank_reply(1, msg) {
        BankReplyStep::Deliver(d) => assert_eq!(desc, d),
        BankReplyStep::KeepWaiting => panic!("expected the bank report to be delivered"),
    }
}

#[test]
fn test_correlator_discards_other_traffic() {
    let desc = sample_descriptor();
    // A report for another bank is discarded, not delivered.
    let other = Ok(MpkMidiMessage::Bank(2, desc.clone()));
    assert!(matches!(correlate_bank_reply(1, other), BankReplyStep::KeepWaiting));
    // Unrelated messages and decode failures are discarded too.
    let note = Ok(MpkMidiMessage::NoteOn(0, 60, 100));
    assert!(matches!(correlate_bank_reply(1, note), BankReplyStep::KeepWaiting));
    let bad = Err(ParseError::MsbUnset);
    assert!(matches!(correlate_bank_reply(1, bad), BankReplyStep::KeepWaiting));
    // The matching report is delivered.
    let hit = Ok(MpkMidiMessage::Bank(1, desc.clone()));
    assert!(matches!(correlate_bank_reply(1, hit), BankReplyStep::Deliver(_)));
}

#[test]
fn test_check_bank_index() {
    assert_eq!(Ok(()), check_bank_index(0));
    assert_eq!(Ok(()), check_bank_index(4));
    assert_eq!(Err(ParseError::BankIndexOutOfBounds(5)), check_bank_index(5));
    assert_eq!(Err(ParseError::BankIndexOutOfBounds(255)), check_bank_index(255));
}

#[test]
fn test_display_offsets() {
    let desc = sample_descriptor();
    assert_eq!(2, desc.display_pad_channel());
    assert_eq!(3, desc.display_keybed_channel());
    assert_eq!(0, desc.display_octave());
    assert_eq!(0, desc.display_transpose());
    assert_eq!(3, desc.display_arpeggiator_octave());
}

#[test]
fn test_enum_wire_values() {
    assert_eq!(Ok(Toggle::Off), Toggle::from(0));
    assert_eq!(Ok(Toggle::On), Toggle::from(1));
    assert_eq!(Err(ParseError::RangeInvalid(FieldKind::Toggle, 7)), Toggle::from(7));
    assert_eq!(Ok(PadMode::Toggle), PadMode::from(1));
    assert_eq!(Err(ParseError::RangeInvalid(FieldKind::PadMode, 3)), PadMode::from(3));
    assert_eq!(PadMode::Momentary, PadMode::default());
    assert_eq!(Ok(ClockSource::External), ClockSource::from(1));
    assert_eq!(Ok(ArpeggiatorTimeDivision::_32T), ArpeggiatorTimeDivision::from(7));
    assert_eq!(Ok(ArpeggiatorMode::Random), ArpeggiatorMode::from(5));
    assert_eq!(Ok(Swing::_50), Swing::from(0));
    assert_eq!(Err(ParseError::RangeInvalid(FieldKind::Swing, 6)), Swing::from(6));
    assert_eq!(Ok(Joystick::Pitchbend), Joystick::from([0, 9, 9]));
    assert_eq!(Ok(Joystick::ControlChannel(9)), Joystick::from([1, 9, 9]));
    assert_eq!(
        Err(ParseError::RangeInvalid(FieldKind::JoystickMode, 3)),
        Joystick::from([3, 0, 0])
    );
    assert_eq!([2, 5, 6], Joystick::SplitControlChannels(5, 6).to_bytes());
    assert_eq!([1, 5, 0], Joystick::ControlChannel(5).to_bytes());
    assert_eq!([0, 0, 0], Joystick::Pitchbend.to_bytes());
}
