//! The MIDI message decoder: classifies a raw frame as a channel message,
//! a system message, or the device's vendor SysEx bank report, and the
//! builders for the two outbound vendor requests.

use vstd::prelude::*;

use crate::error::ParseError;
use crate::mpkbank::spec_decode_bank;
use crate::mpkbank::spec_encode_bank;
use crate::mpkbank::BankDescriptorView;
use crate::mpkbank::MpkBankDescriptor;
use vstd::slice::slice_subrange;
use vstd::slice::slice_to_vec;

verus! {

/// The mathematical shape of a decoded MIDI message.
pub enum MidiMessageView {
    NoteOff(u8, u8, u8),
    NoteOn(u8, u8, u8),
    ControlChange(u8, u8, u8),
    ProgramChange(u8, u8),
    PitchBend(u8, u16),
    Unparsed,
    Reset,
    Bank(u8, BankDescriptorView),
    Unknown(Seq<u8>),
}

/// A decoded MIDI message. Channel-message payload fields are in the order
/// channel, then the one or two data bytes of the message type.
#[derive(Clone, Debug, PartialEq)]
pub enum MpkMidiMessage {
    NoteOff(u8, u8, u8),
    NoteOn(u8, u8, u8),
    ControlChange(u8, u8, u8),
    ProgramChange(u8, u8),
    PitchBend(u8, u16),
    Unparsed,
    Reset,
    Bank(u8, MpkBankDescriptor),
    Unknown(Vec<u8>),
}

impl View for MpkMidiMessage {
    type V = MidiMessageView;

    open spec fn view(&self) -> MidiMessageView {
        match self {
            MpkMidiMessage::NoteOff(c, n, v) => MidiMessageView::NoteOff(*c, *n, *v),
            MpkMidiMessage::NoteOn(c, n, v) => MidiMessageView::NoteOn(*c, *n, *v),
            MpkMidiMessage::ControlChange(c, n, v) => MidiMessageView::ControlChange(*c, *n, *v),
            MpkMidiMessage::ProgramChange(c, p) => MidiMessageView::ProgramChange(*c, *p),
            MpkMidiMessage::PitchBend(c, v) => MidiMessageView::PitchBend(*c, *v),
            MpkMidiMessage::Unparsed => MidiMessageView::Unparsed,
            MpkMidiMessage::Reset => MidiMessageView::Reset,
            MpkMidiMessage::Bank(b, d) => MidiMessageView::Bank(*b, d@),
            MpkMidiMessage::Unknown(v) => MidiMessageView::Unknown(v@),
        }
    }
}

/// The result of a fallible message parse, at the level of views.
pub open spec fn msg_result_view(r: Result<MpkMidiMessage, ParseError>) -> Result<
    MidiMessageView,
    ParseError,
> {
    match r {
        Ok(m) => Ok(m@),
        Err(e) => Err(e),
    }
}

/// The 9-byte vendor frame that asks the device for one bank.
pub open spec fn spec_get_bank_request(bank: u8) -> Seq<u8> {
    seq![0xf0u8, 0x47u8, 0x00u8, 0x26u8, 0x66u8, 0x00u8, 0x01u8, bank, 0xf7u8]
}

/// The 117-byte vendor frame that writes one bank to the device.
pub open spec fn spec_set_bank_request(bank: u8, b: BankDescriptorView) -> Seq<u8> {
    seq![0xf0u8, 0x47u8, 0x00u8, 0x26u8, 0x64u8, 0x00u8, 0x6du8, bank] + spec_encode_bank(b)
        + seq![0xf7u8]
}

/// The 117-byte vendor frame in which the device reports one bank.
pub open spec fn spec_bank_report(bank: u8, b: BankDescriptorView) -> Seq<u8> {
    seq![0xf0u8, 0x47u8, 0x00u8, 0x26u8, 0x67u8, 0x00u8, 0x6du8, bank] + spec_encode_bank(b)
        + seq![0xf7u8]
}

/// A channel message read from a frame whose status byte is below 0xF0:
/// the low nibble is the channel, the high nibble picks the type and its
/// payload length. Pressure messages are recognized but not modelled.
pub open spec fn spec_parse_channel(s: Seq<u8>) -> Result<MidiMessageView, ParseError>
    recommends
        s.len() >= 1,
        0x80 <= s[0] < 0xf0,
{
    let status = s[0] & 0xf0;
    let channel = s[0] & 0x0f;
    if status == 0xa0 || status == 0xd0 {
        Ok(MidiMessageView::Unparsed)
    } else if status == 0xc0 {
        if s.len() < 2 {
            Err(ParseError::MalformedFrame)
        } else {
            Ok(MidiMessageView::ProgramChange(channel, s[1]))
        }
    } else if s.len() < 3 {
        Err(ParseError::MalformedFrame)
    } else if status == 0x80 {
        Ok(MidiMessageView::NoteOff(channel, s[1], s[2]))
    } else if status == 0x90 {
        Ok(MidiMessageView::NoteOn(channel, s[1], s[2]))
    } else if status == 0xb0 {
        Ok(MidiMessageView::ControlChange(channel, s[1], s[2]))
    } else {
        Ok(MidiMessageView::PitchBend(channel, (s[1] + s[2] * 128) as u16))
    }
}

/// A vendor SysEx frame: framing first, then the manufacturer byte, then
/// the device's bank-report signature, bank index, and descriptor.
pub open spec fn spec_parse_sysex(s: Seq<u8>) -> Result<MidiMessageView, ParseError>
    recommends
        s.len() >= 1,
        s[0] == 0xf0,
{
    if s.len() < 3 {
        Err(ParseError::MalformedFrame)
    } else if s[s.len() - 1] != 0xf7 {
        Err(ParseError::MalformedFrame)
    } else if s[1] != 0x47 {
        Err(ParseError::NonVendorFrame(s[1]))
    } else {
        let payload = s.subrange(2, s.len() - 1);
        if payload.len() >= 5 && payload[0] == 0x00 && payload[1] == 0x26 && payload[2] == 0x67
            && payload[3] == 0x00 && payload[4] == 0x6d {
            if payload.len() < 6 {
                Err(ParseError::MalformedFrame)
            } else {
                match spec_decode_bank(payload.skip(6)) {
                    Err(e) => Err(e),
                    Ok(b) => Ok(MidiMessageView::Bank(payload[5], b)),
                }
            }
        } else {
            Err(ParseError::UnknownVendorPayload)
        }
    }
}

/// A raw frame: empty and misaligned frames are rejected, a status byte
/// below 0xF0 is a channel message, 0xF0 opens a SysEx frame, 0xFF is a
/// reset, and any other system status is passed through unparsed.
pub open spec fn spec_parse_msg(s: Seq<u8>) -> Result<MidiMessageView, ParseError> {
    if s.len() == 0 {
        Err(ParseError::EmptyMessage)
    } else if s[0] < 0x80 {
        Err(ParseError::MsbUnset)
    } else if s[0] & 0xf0 != 0xf0 {
        spec_parse_channel(s)
    } else if s[0] == 0xf0 {
        spec_parse_sysex(s)
    } else if s[0] == 0xff {
        Ok(MidiMessageView::Reset)
    } else {
        Ok(MidiMessageView::Unknown(s))
    }
}

/// Builds the request that asks the device for bank `bank`.
pub fn sysex_get_bank(bank: u8) -> (r: Vec<u8>)
    ensures
        r@ == spec_get_bank_request(bank),
        r@.len() == 9,
{
    let mut ret: Vec<u8> = Vec::new();
    ret.push(0xf0);
    ret.push(0x47);
    ret.push(0x00);
    ret.push(0x26);
    ret.push(0x66);
    ret.push(0x00);
    ret.push(0x01);
    ret.push(bank);
    ret.push(0xf7);
    proof {
        assert(ret@ =~= spec_get_bank_request(bank));
    }
    ret
}

/// Builds the request that writes `bank_desc` to bank `bank`.
pub fn sysex_set_bank(bank: u8, bank_desc: MpkBankDescriptor) -> (r: Vec<u8>)
    requires
        bank_desc@.wf(),
    ensures
        r@ == spec_set_bank_request(bank, bank_desc@),
        r@.len() == 117,
{
    let ghost bv = bank_desc@;
    let mut ret: Vec<u8> = Vec::new();
    ret.push(0xf0);
    ret.push(0x47);
    ret.push(0x00);
    ret.push(0x26);
    ret.push(0x64);
    ret.push(0x00);
    ret.push(0x6d);
    ret.push(bank);
    let mut body = bank_desc.into_bytes();
    ret.append(&mut body);
    ret.push(0xf7);
    proof {
        crate::mpkbank::lemma_encode_pads_len(bv.pads);
        crate::mpkbank::lemma_encode_knobs_len(bv.knobs);
        assert(ret@ =~= spec_set_bank_request(bank, bv));
    }
    ret
}

impl MpkMidiMessage {
    /// Reads a vendor SysEx frame; the first byte is already known to be
    /// the SysEx start marker.
    pub fn parse_sysex(bytes: &[u8]) -> (r: Result<MpkMidiMessage, ParseError>)
        requires
            bytes@.len() >= 1,
            bytes@[0] == 0xf0,
        ensures
            msg_result_view(r) == spec_parse_sysex(bytes@),
            r matches Ok(MpkMidiMessage::Bank(b, d)) ==> d@.wf(),
    {
        let n = bytes.len();
        if n < 3 {
            return Err(ParseError::MalformedFrame);
        }
        if bytes[n - 1] != 0xf7 {
            return Err(ParseError::MalformedFrame);
        }
        if bytes[1] != 0x47 {
            return Err(ParseError::NonVendorFrame(bytes[1]));
        }
        let ghost payload = bytes@.subrange(2, bytes@.len() - 1);
        // payload length is n - 3
        if n - 3 >= 5 && bytes[2] == 0x00 && bytes[3] == 0x26 && bytes[4] == 0x67 && bytes[5]
            == 0x00 && bytes[6] == 0x6d {
            if n - 3 < 6 {
                return Err(ParseError::MalformedFrame);
            }
            proof {
                assert(payload.skip(6) =~= bytes@.subrange(8, bytes@.len() - 1));
            }
            let desc = match MpkBankDescriptor::from(slice_subrange(bytes, 8, n - 1)) {
                Ok(d) => d,
                Err(e) => {
                    return Err(e);
                },
            };
            Ok(MpkMidiMessage::Bank(bytes[7], desc))
        } else {
            Err(ParseError::UnknownVendorPayload)
        }
    }

    /// Reads a channel message; the status byte is already known to be
    /// between 0x80 and 0xEF.
    pub fn parse_channel_msg(bytes: &[u8]) -> (r: Result<MpkMidiMessage, ParseError>)
        requires
            bytes@.len() >= 1,
            0x80 <= bytes@[0] < 0xf0,
        ensures
            msg_result_view(r) == spec_parse_channel(bytes@),
    {
        let status = bytes[0] & 0xf0;
        let channel = bytes[0] & 0x0f;
        if status == 0xa0 || status == 0xd0 {
            Ok(MpkMidiMessage::Unparsed)
        } else if status == 0xc0 {
            if bytes.len() < 2 {
                Err(ParseError::MalformedFrame)
            } else {
                Ok(MpkMidiMessage::ProgramChange(channel, bytes[1]))
            }
        } else if bytes.len() < 3 {
            Err(ParseError::MalformedFrame)
        } else if status == 0x80 {
            Ok(MpkMidiMessage::NoteOff(channel, bytes[1], bytes[2]))
        } else if status == 0x90 {
            Ok(MpkMidiMessage::NoteOn(channel, bytes[1], bytes[2]))
        } else if status == 0xb0 {
            Ok(MpkMidiMessage::ControlChange(channel, bytes[1], bytes[2]))
        } else {
            let value: u16 = bytes[1] as u16 + (bytes[2] as u16) * 128;
            Ok(MpkMidiMessage::PitchBend(channel, value))
        }
    }

    /// Reads one raw frame into a decoded message, or the error that says
    /// exactly why the frame was rejected.
    pub fn parse_msg(bytes: &[u8]) -> (r: Result<MpkMidiMessage, ParseError>)
        ensures
            msg_result_view(r) == spec_parse_msg(bytes@),
            r matches Ok(MpkMidiMessage::Bank(b, d)) ==> d@.wf(),
    {
        if bytes.len() == 0 {
            return Err(ParseError::EmptyMessage);
        }
        let b0 = bytes[0];
        if b0 < 0x80 {
            return Err(ParseError::MsbUnset);
        }
        if b0 & 0xf0 != 0xf0 {
            proof {
                assert(b0 & 0xf0 != 0xf0 && b0 >= 0x80 ==> b0 < 0xf0) by (bit_vector);
            }
            return Self::parse_channel_msg(bytes);
        }
        if b0 == 0xf0 {
            Self::parse_sysex(bytes)
        } else if b0 == 0xff {
            Ok(MpkMidiMessage::Reset)
        } else {
            Ok(MpkMidiMessage::Unknown(slice_to_vec(bytes)))
        }
    }
}

/// Parsing the frame in which the device reports a bank yields exactly the
/// bank message for that index and descriptor.
pub proof fn lemma_parse_bank_report(bank: u8, b: BankDescriptorView)
    requires
        b.wf(),
    ensures
        spec_parse_msg(spec_bank_report(bank, b)) == Ok::<MidiMessageView, ParseError>(
            MidiMessageView::Bank(bank, b),
        ),
{
    let s = spec_bank_report(bank, b);
    let head = seq![0xf0u8, 0x47u8, 0x00u8, 0x26u8, 0x67u8, 0x00u8, 0x6du8, bank];
    crate::mpkbank::lemma_encode_pads_len(b.pads);
    crate::mpkbank::lemma_encode_knobs_len(b.knobs);
    assert(spec_encode_bank(b).len() == 108);
    assert(s.len() == 117);
    assert(s[0] == 0xf0 && s[1] == 0x47);
    assert(s[s.len() - 1] == 0xf7);
    let payload = s.subrange(2, s.len() - 1);
    assert(payload.len() == 114);
    assert(payload[0] == head[2] && payload[1] == head[3] && payload[2] == head[4] && payload[3]
        == head[5] && payload[4] == head[6] && payload[5] == head[7]);
    assert(payload.skip(6) =~= spec_encode_bank(b));
    crate::mpkbank::lemma_bank_decode_encode_roundtrip(b);
    assert(spec_parse_sysex(s) == Ok::<MidiMessageView, ParseError>(
        MidiMessageView::Bank(bank, b),
    ));
    assert(0xf0u8 & 0xf0 == 0xf0) by (bit_vector);
}

} // verus!
