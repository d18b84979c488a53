//! The 108-byte bank descriptor: its bounded enumerations, its fixed-width
//! sub-records (knob, pad, joystick), and the bidirectional codec between
//! raw bytes and the structured value.

use vstd::prelude::*;

use crate::error::FieldKind;
use crate::error::ParseError;
use crate::note::Note;
use crate::u14::u14_hi;
use crate::u14::u14_lo;
use crate::u14::u14_value;
use crate::u14::U14BE;

verus! {

/// A binary on/off field; wire values 0 and 1 only.
#[derive(Copy, Clone, Debug, PartialEq, Eq, Structural)]
pub enum Toggle {
    Off,
    On,
}

impl Toggle {
    /// The wire byte of this value.
    pub open spec fn wire(self) -> u8 {
        match self {
            Toggle::Off => 0,
            Toggle::On => 1,
        }
    }

    /// The value read from a wire byte, or the error it provokes.
    pub open spec fn spec_from(value: u8) -> Result<Toggle, ParseError> {
        match value {
            0 => Ok(Toggle::Off),
            1 => Ok(Toggle::On),
            _ => Err(ParseError::RangeInvalid(FieldKind::Toggle, value)),
        }
    }

    pub fn from(value: u8) -> (r: Result<Toggle, ParseError>)
        ensures
            r == Toggle::spec_from(value),
    {
        match value {
            0 => Ok(Toggle::Off),
            1 => Ok(Toggle::On),
            _ => Err(ParseError::RangeInvalid(FieldKind::Toggle, value)),
        }
    }

    pub fn to_wire(self) -> (r: u8)
        ensures
            r == self.wire(),
    {
        match self {
            Toggle::Off => 0,
            Toggle::On => 1,
        }
    }
}

/// How a pad reacts to pressure; wire values 0 and 1.
#[derive(Copy, Clone, Debug, PartialEq, Eq, Structural)]
pub enum PadMode {
    Momentary,
    Toggle,
}

impl PadMode {
    pub open spec fn wire(self) -> u8 {
        match self {
            PadMode::Momentary => 0,
            PadMode::Toggle => 1,
        }
    }

    pub open spec fn spec_from(value: u8) -> Result<PadMode, ParseError> {
        match value {
            0 => Ok(PadMode::Momentary),
            1 => Ok(PadMode::Toggle),
            _ => Err(ParseError::RangeInvalid(FieldKind::PadMode, value)),
        }
    }

    pub fn from(value: u8) -> (r: Result<PadMode, ParseError>)
        ensures
            r == PadMode::spec_from(value),
    {
        match value {
            0 => Ok(PadMode::Momentary),
            1 => Ok(PadMode::Toggle),
            _ => Err(ParseError::RangeInvalid(FieldKind::PadMode, value)),
        }
    }

    pub fn to_wire(self) -> (r: u8)
        ensures
            r == self.wire(),
    {
        match self {
            PadMode::Momentary => 0,
            PadMode::Toggle => 1,
        }
    }
}

impl Default for PadMode {
    fn default() -> (r: PadMode)
        ensures
            r == PadMode::Momentary,
    {
        PadMode::Momentary
    }
}

/// Where the arpeggiator clock comes from; wire values 0 and 1.
#[derive(Copy, Clone, Debug, PartialEq, Eq, Structural)]
pub enum ClockSource {
    Internal,
    External,
}

impl ClockSource {
    pub open spec fn wire(self) -> u8 {
        match self {
            ClockSource::Internal => 0,
            ClockSource::External => 1,
        }
    }

    pub open spec fn spec_from(value: u8) -> Result<ClockSource, ParseError> {
        match value {
            0 => Ok(ClockSource::Internal),
            1 => Ok(ClockSource::External),
            _ => Err(ParseError::RangeInvalid(FieldKind::ClockSource, value)),
        }
    }

    pub fn from(value: u8) -> (r: Result<ClockSource, ParseError>)
        ensures
            r == ClockSource::spec_from(value),
    {
        match value {
            0 => Ok(ClockSource::Internal),
            1 => Ok(ClockSource::External),
            _ => Err(ParseError::RangeInvalid(FieldKind::ClockSource, value)),
        }
    }

    pub fn to_wire(self) -> (r: u8)
        ensures
            r == self.wire(),
    {
        match self {
            ClockSource::Internal => 0,
            ClockSource::External => 1,
        }
    }
}

/// The note duration of one arpeggiator step, `1/<division>`;
/// wire values 0..=7.
#[derive(Copy, Clone, Debug, PartialEq, Eq, Structural)]
pub enum ArpeggiatorTimeDivision {
    _4,
    _4T,
    _8,
    _8T,
    _16,
    _16T,
    _32,
    _32T,
}

impl ArpeggiatorTimeDivision {
    pub open spec fn wire(self) -> u8 {
        match self {
            ArpeggiatorTimeDivision::_4 => 0,
            ArpeggiatorTimeDivision::_4T => 1,
            ArpeggiatorTimeDivision::_8 => 2,
            ArpeggiatorTimeDivision::_8T => 3,
            ArpeggiatorTimeDivision::_16 => 4,
            ArpeggiatorTimeDivision::_16T => 5,
            ArpeggiatorTimeDivision::_32 => 6,
            ArpeggiatorTimeDivision::_32T => 7,
        }
    }

    pub open spec fn spec_from(value: u8) -> Result<ArpeggiatorTimeDivision, ParseError> {
        match value {
            0 => Ok(ArpeggiatorTimeDivision::_4),
            1 => Ok(ArpeggiatorTimeDivision::_4T),
            2 => Ok(ArpeggiatorTimeDivision::_8),
            3 => Ok(ArpeggiatorTimeDivision::_8T),
            4 => Ok(ArpeggiatorTimeDivision::_16),
            5 => Ok(ArpeggiatorTimeDivision::_16T),
            6 => Ok(ArpeggiatorTimeDivision::_32),
            7 => Ok(ArpeggiatorTimeDivision::_32T),
            _ => Err(ParseError::RangeInvalid(FieldKind::ArpeggiatorTimeDivision, value)),
        }
    }

    pub fn from(value: u8) -> (r: Result<ArpeggiatorTimeDivision, ParseError>)
        ensures
            r == ArpeggiatorTimeDivision::spec_from(value),
    {
        match value {
            0 => Ok(ArpeggiatorTimeDivision::_4),
            1 => Ok(ArpeggiatorTimeDivision::_4T),
            2 => Ok(ArpeggiatorTimeDivision::_8),
            3 => Ok(ArpeggiatorTimeDivision::_8T),
            4 => Ok(ArpeggiatorTimeDivision::_16),
            5 => Ok(ArpeggiatorTimeDivision::_16T),
            6 => Ok(ArpeggiatorTimeDivision::_32),
            7 => Ok(ArpeggiatorTimeDivision::_32T),
            _ => Err(ParseError::RangeInvalid(FieldKind::ArpeggiatorTimeDivision, value)),
        }
    }

    pub fn to_wire(self) -> (r: u8)
        ensures
            r == self.wire(),
    {
        match self {
            ArpeggiatorTimeDivision::_4 => 0,
            ArpeggiatorTimeDivision::_4T => 1,
            ArpeggiatorTimeDivision::_8 => 2,
            ArpeggiatorTimeDivision::_8T => 3,
            ArpeggiatorTimeDivision::_16 => 4,
            ArpeggiatorTimeDivision::_16T => 5,
            ArpeggiatorTimeDivision::_32 => 6,
            ArpeggiatorTimeDivision::_32T => 7,
        }
    }
}

/// The order in which the arpeggiator walks held notes; wire values 0..=5.
#[derive(Copy, Clone, Debug, PartialEq, Eq, Structural)]
pub enum ArpeggiatorMode {
    Up,
    Down,
    Exclusive,
    Inclusive,
    Order,
    Random,
}

impl ArpeggiatorMode {
    pub open spec fn wire(self) -> u8 {
        match self {
            ArpeggiatorMode::Up => 0,
            ArpeggiatorMode::Down => 1,
            ArpeggiatorMode::Exclusive => 2,
            ArpeggiatorMode::Inclusive => 3,
            ArpeggiatorMode::Order => 4,
            ArpeggiatorMode::Random => 5,
        }
    }

    pub open spec fn spec_from(value: u8) -> Result<ArpeggiatorMode, ParseError> {
        match value {
            0 => Ok(ArpeggiatorMode::Up),
            1 => Ok(ArpeggiatorMode::Down),
            2 => Ok(ArpeggiatorMode::Exclusive),
            3 => Ok(ArpeggiatorMode::Inclusive),
            4 => Ok(ArpeggiatorMode::Order),
            5 => Ok(ArpeggiatorMode::Random),
            _ => Err(ParseError::RangeInvalid(FieldKind::ArpeggiatorMode, value)),
        }
    }

    pub fn from(value: u8) -> (r: Result<ArpeggiatorMode, ParseError>)
        ensures
            r == ArpeggiatorMode::spec_from(value),
    {
        match value {
            0 => Ok(ArpeggiatorMode::Up),
            1 => Ok(ArpeggiatorMode::Down),
            2 => Ok(ArpeggiatorMode::Exclusive),
            3 => Ok(ArpeggiatorMode::Inclusive),
            4 => Ok(ArpeggiatorMode::Order),
            5 => Ok(ArpeggiatorMode::Random),
            _ => Err(ParseError::RangeInvalid(FieldKind::ArpeggiatorMode, value)),
        }
    }

    pub fn to_wire(self) -> (r: u8)
        ensures
            r == self.wire(),
    {
        match self {
            ArpeggiatorMode::Up => 0,
            ArpeggiatorMode::Down => 1,
            ArpeggiatorMode::Exclusive => 2,
            ArpeggiatorMode::Inclusive => 3,
            ArpeggiatorMode::Order => 4,
            ArpeggiatorMode::Random => 5,
        }
    }
}

/// The swing percentage applied to the arpeggiator; wire values 0..=5.
#[derive(Copy, Clone, Debug, PartialEq, Eq, Structural)]
pub enum Swing {
    _50,
    _55,
    _57,
    _59,
    _61,
    _64,
}

impl Swing {
    pub open spec fn wire(self) -> u8 {
        match self {
            Swing::_50 => 0,
            Swing::_55 => 1,
            Swing::_57 => 2,
            Swing::_59 => 3,
            Swing::_61 => 4,
            Swing::_64 => 5,
        }
    }

    pub open spec fn spec_from(value: u8) -> Result<Swing, ParseError> {
        match value {
            0 => Ok(Swing::_50),
            1 => Ok(Swing::_55),
            2 => Ok(Swing::_57),
            3 => Ok(Swing::_59),
            4 => Ok(Swing::_61),
            5 => Ok(Swing::_64),
            _ => Err(ParseError::RangeInvalid(FieldKind::Swing, value)),
        }
    }

    pub fn from(value: u8) -> (r: Result<Swing, ParseError>)
        ensures
            r == Swing::spec_from(value),
    {
        match value {
            0 => Ok(Swing::_50),
            1 => Ok(Swing::_55),
            2 => Ok(Swing::_57),
            3 => Ok(Swing::_59),
            4 => Ok(Swing::_61),
            5 => Ok(Swing::_64),
            _ => Err(ParseError::RangeInvalid(FieldKind::Swing, value)),
        }
    }

    pub fn to_wire(self) -> (r: u8)
        ensures
            r == self.wire(),
    {
        match self {
            Swing::_50 => 0,
            Swing::_55 => 1,
            Swing::_57 => 2,
            Swing::_59 => 3,
            Swing::_61 => 4,
            Swing::_64 => 5,
        }
    }
}

/// One knob's assignment: control number, minimum and maximum value.
/// Wire order `[control, min, max]`, three bytes.
#[derive(Copy, Clone, Debug, PartialEq, Eq, Structural)]
pub struct Knob {
    pub control: u8,
    pub min: u8,
    pub max: u8,
}

/// The three wire bytes of a knob record.
pub open spec fn knob_wire_bytes(k: Knob) -> Seq<u8> {
    seq![k.control, k.min, k.max]
}

impl Knob {
    pub fn from(raw: [u8; 3]) -> (r: Knob)
        ensures
            r == (Knob { control: raw[0], min: raw[1], max: raw[2] }),
    {
        Knob { control: raw[0], min: raw[1], max: raw[2] }
    }

    pub fn to_bytes(&self) -> (r: [u8; 3])
        ensures
            r@ == knob_wire_bytes(*self),
    {
        let r = [self.control, self.min, self.max];
        proof {
            assert(r@ =~= knob_wire_bytes(*self));
        }
        r
    }
}

/// One pad's assignment. The wire order is `[note, program, control, mode]`:
/// the two middle bytes stand transposed against this record's field order.
#[derive(Copy, Clone, Debug, PartialEq, Eq, Structural)]
pub struct Pad {
    pub note: Note,
    pub control: u8,
    pub program: u8,
    pub mode: PadMode,
}

/// The four wire bytes of a pad record, in wire order.
pub open spec fn pad_wire_bytes(p: Pad) -> Seq<u8> {
    seq![p.note.value, p.program, p.control, p.mode.wire()]
}

/// The pad read from four wire bytes, or the error its mode byte provokes.
pub open spec fn spec_pad_from(raw: Seq<u8>) -> Result<Pad, ParseError>
    recommends
        raw.len() == 4,
{
    match PadMode::spec_from(raw[3]) {
        Ok(mode) => Ok(
            Pad { note: Note { value: raw[0] }, control: raw[2], program: raw[1], mode },
        ),
        Err(e) => Err(e),
    }
}

impl Pad {
    pub fn from(value: [u8; 4]) -> (r: Result<Pad, ParseError>)
        ensures
            r == spec_pad_from(value@),
    {
        let mode = PadMode::from(value[3])?;
        Ok(Pad { note: Note { value: value[0] }, control: value[2], program: value[1], mode })
    }

    pub fn to_bytes(&self) -> (r: [u8; 4])
        ensures
            r@ == pad_wire_bytes(*self),
    {
        let r = [self.note.value, self.program, self.control, self.mode.to_wire()];
        proof {
            assert(r@ =~= pad_wire_bytes(*self));
        }
        r
    }
}

/// A joystick axis assignment, three wire bytes: a tag 0..=2 and up to two
/// control channel bytes.
#[derive(Copy, Clone, Debug, PartialEq, Eq, Structural)]
pub enum Joystick {
    Pitchbend,
    ControlChannel(u8),
    SplitControlChannels(u8, u8),
}

/// The three wire bytes of a joystick record; unused trailing bytes are zero.
pub open spec fn joystick_wire_bytes(j: Joystick) -> Seq<u8> {
    match j {
        Joystick::Pitchbend => seq![0u8, 0u8, 0u8],
        Joystick::ControlChannel(c) => seq![1u8, c, 0u8],
        Joystick::SplitControlChannels(c1, c2) => seq![2u8, c1, c2],
    }
}

/// The joystick read from three wire bytes, or the error its tag provokes.
/// A tag of 0 or 1 ignores the bytes the variant does not carry.
pub open spec fn spec_joystick_from(raw: Seq<u8>) -> Result<Joystick, ParseError>
    recommends
        raw.len() == 3,
{
    match raw[0] {
        0 => Ok(Joystick::Pitchbend),
        1 => Ok(Joystick::ControlChannel(raw[1])),
        2 => Ok(Joystick::SplitControlChannels(raw[1], raw[2])),
        _ => Err(ParseError::RangeInvalid(FieldKind::JoystickMode, raw[0])),
    }
}

impl Joystick {
    pub fn from(bytes: [u8; 3]) -> (r: Result<Joystick, ParseError>)
        ensures
            r == spec_joystick_from(bytes@),
    {
        match bytes[0] {
            0 => Ok(Joystick::Pitchbend),
            1 => Ok(Joystick::ControlChannel(bytes[1])),
            2 => Ok(Joystick::SplitControlChannels(bytes[1], bytes[2])),
            _ => Err(ParseError::RangeInvalid(FieldKind::JoystickMode, bytes[0])),
        }
    }

    pub fn to_bytes(&self) -> (r: [u8; 3])
        ensures
            r@ == joystick_wire_bytes(*self),
    {
        let r = match *self {
            Joystick::Pitchbend => [0, 0, 0],
            Joystick::ControlChannel(c) => [1, c, 0],
            Joystick::SplitControlChannels(c1, c2) => [2, c1, c2],
        };
        proof {
            assert(r@ =~= joystick_wire_bytes(*self));
        }
        r
    }
}

/// The mathematical shape of a bank descriptor: what the contracts of the
/// codec speak about.
#[verifier::ext_equal]
pub struct BankDescriptorView {
    pub pad_midi_channel: u8,
    pub keybed_channel: u8,
    pub octave: u8,
    pub arpeggiator: Toggle,
    pub arpeggiator_mode: ArpeggiatorMode,
    pub arpeggiator_time_division: ArpeggiatorTimeDivision,
    pub clock_source: ClockSource,
    pub latch: Toggle,
    pub swing: Swing,
    pub tempo_taps: u8,
    pub tempo: u16,
    pub arpeggiator_octave: u8,
    pub joystick_x: Joystick,
    pub joystick_y: Joystick,
    pub pads: Seq<Pad>,
    pub knobs: Seq<Knob>,
    pub transpose: u8,
}

impl BankDescriptorView {
    /// A descriptor that can be put on the wire: sixteen pads, eight knobs,
    /// and a tempo that fits in 14 bits.
    pub open spec fn wf(self) -> bool {
        &&& self.pads.len() == 16
        &&& self.knobs.len() == 8
        &&& self.tempo < 0x4000
    }
}

/// The 64 wire bytes of a run of pads, four per pad in wire order.
pub open spec fn spec_encode_pads(pads: Seq<Pad>) -> Seq<u8>
    decreases pads.len(),
{
    if pads.len() == 0 {
        Seq::empty()
    } else {
        pad_wire_bytes(pads[0]) + spec_encode_pads(pads.drop_first())
    }
}

/// The 24 wire bytes of a run of knobs, three per knob.
pub open spec fn spec_encode_knobs(knobs: Seq<Knob>) -> Seq<u8>
    decreases knobs.len(),
{
    if knobs.len() == 0 {
        Seq::empty()
    } else {
        knob_wire_bytes(knobs[0]) + spec_encode_knobs(knobs.drop_first())
    }
}

/// The pads read from a run of 4-byte groups; the first bad mode byte wins.
pub open spec fn spec_decode_pads(s: Seq<u8>) -> Result<Seq<Pad>, ParseError>
    decreases s.len(),
{
    if s.len() < 4 {
        Ok(Seq::empty())
    } else {
        match spec_pad_from(s.take(4)) {
            Err(e) => Err(e),
            Ok(p) => match spec_decode_pads(s.skip(4)) {
                Err(e) => Err(e),
                Ok(rest) => Ok(seq![p] + rest),
            },
        }
    }
}

/// The knobs read from a run of 3-byte groups; every byte value is accepted.
pub open spec fn spec_decode_knobs(s: Seq<u8>) -> Seq<Knob>
    decreases s.len(),
{
    if s.len() < 3 {
        Seq::empty()
    } else {
        seq![Knob { control: s[0], min: s[1], max: s[2] }] + spec_decode_knobs(s.skip(3))
    }
}

/// The first 19 wire bytes of a descriptor: the scalar fields, the tempo
/// pair, and the two joystick records.
pub open spec fn spec_bank_head(b: BankDescriptorView) -> Seq<u8> {
    seq![
        b.pad_midi_channel,
        b.keybed_channel,
        b.octave,
        b.arpeggiator.wire(),
        b.arpeggiator_mode.wire(),
        b.arpeggiator_time_division.wire(),
        b.clock_source.wire(),
        b.latch.wire(),
        b.swing.wire(),
        b.tempo_taps,
        u14_hi(b.tempo),
        u14_lo(b.tempo),
        b.arpeggiator_octave,
    ] + joystick_wire_bytes(b.joystick_x) + joystick_wire_bytes(b.joystick_y)
}

/// The full 108-byte wire form of a descriptor.
pub open spec fn spec_encode_bank(b: BankDescriptorView) -> Seq<u8> {
    spec_bank_head(b) + spec_encode_pads(b.pads) + spec_encode_knobs(b.knobs) + seq![b.transpose]
}

/// The descriptor read from 108 wire bytes, or the first error the fixed
/// field order provokes.
pub open spec fn spec_decode_bank(s: Seq<u8>) -> Result<BankDescriptorView, ParseError> {
    if s.len() != 108 {
        Err(ParseError::LengthMismatch { got: s.len() as usize, expected: 108 })
    } else {
        match Toggle::spec_from(s[3]) {
            Err(e) => Err(e),
            Ok(arpeggiator) => match ArpeggiatorMode::spec_from(s[4]) {
                Err(e) => Err(e),
                Ok(arpeggiator_mode) => match ArpeggiatorTimeDivision::spec_from(s[5]) {
                    Err(e) => Err(e),
                    Ok(arpeggiator_time_division) => match ClockSource::spec_from(s[6]) {
                        Err(e) => Err(e),
                        Ok(clock_source) => match Toggle::spec_from(s[7]) {
                            Err(e) => Err(e),
                            Ok(latch) => match Swing::spec_from(s[8]) {
                                Err(e) => Err(e),
                                Ok(swing) => if !(s[10] < 0x80 && s[11] < 0x80) {
                                    Err(ParseError::U14MsbSet(s[10], s[11]))
                                } else {
                                    match spec_joystick_from(s.subrange(13, 16)) {
                                        Err(e) => Err(e),
                                        Ok(joystick_x) => match spec_joystick_from(
                                            s.subrange(16, 19),
                                        ) {
                                            Err(e) => Err(e),
                                            Ok(joystick_y) => match spec_decode_pads(
                                                s.subrange(19, 83),
                                            ) {
                                                Err(e) => Err(e),
                                                Ok(pads) => Ok(
                                                    BankDescriptorView {
                                                        pad_midi_channel: s[0],
                                                        keybed_channel: s[1],
                                                        octave: s[2],
                                                        arpeggiator,
                                                        arpeggiator_mode,
                                                        arpeggiator_time_division,
                                                        clock_source,
                                                        latch,
                                                        swing,
                                                        tempo_taps: s[9],
                                                        tempo: u14_value(s[10], s[11]),
                                                        arpeggiator_octave: s[12],
                                                        joystick_x,
                                                        joystick_y,
                                                        pads,
                                                        knobs: spec_decode_knobs(
                                                            s.subrange(83, 107),
                                                        ),
                                                        transpose: s[107],
                                                    },
                                                ),
                                            },
                                        },
                                    }
                                },
                            },
                        },
                    },
                },
            },
        }
    }
}

/// The structured form of one bank of device settings, 108 bytes on the
/// wire. An immutable value: editing means building a new one.
#[derive(Clone, Debug, PartialEq)]
pub struct MpkBankDescriptor {
    pub pad_midi_channel: u8,
    pub keybed_channel: u8,
    pub octave: u8,
    pub arpeggiator: Toggle,
    pub arpeggiator_mode: ArpeggiatorMode,
    pub arpeggiator_time_division: ArpeggiatorTimeDivision,
    pub clock_source: ClockSource,
    pub latch: Toggle,
    pub swing: Swing,
    pub tempo_taps: u8,
    pub tempo: U14BE,
    pub arpeggiator_octave: u8,
    pub joystick_x: Joystick,
    pub joystick_y: Joystick,
    pub pads: Vec<Pad>,
    pub knobs: Vec<Knob>,
    pub transpose: u8,
}

impl View for MpkBankDescriptor {
    type V = BankDescriptorView;

    open spec fn view(&self) -> BankDescriptorView {
        BankDescriptorView {
            pad_midi_channel: self.pad_midi_channel,
            keybed_channel: self.keybed_channel,
            octave: self.octave,
            arpeggiator: self.arpeggiator,
            arpeggiator_mode: self.arpeggiator_mode,
            arpeggiator_time_division: self.arpeggiator_time_division,
            clock_source: self.clock_source,
            latch: self.latch,
            swing: self.swing,
            tempo_taps: self.tempo_taps,
            tempo: self.tempo.host,
            arpeggiator_octave: self.arpeggiator_octave,
            joystick_x: self.joystick_x,
            joystick_y: self.joystick_y,
            pads: self.pads@,
            knobs: self.knobs@,
            transpose: self.transpose,
        }
    }
}

/// The result of a fallible pad parse, with the pads as a sequence.
pub open spec fn pads_result_view(r: Result<Vec<Pad>, ParseError>) -> Result<
    Seq<Pad>,
    ParseError,
> {
    match r {
        Ok(v) => Ok(v@),
        Err(e) => Err(e),
    }
}

/// The result of a fallible knob parse, with the knobs as a sequence.
pub open spec fn knobs_result_view(r: Result<Vec<Knob>, ParseError>) -> Result<
    Seq<Knob>,
    ParseError,
> {
    match r {
        Ok(v) => Ok(v@),
        Err(e) => Err(e),
    }
}

/// The result of a fallible descriptor parse, at the level of views.
pub open spec fn bank_result_view(r: Result<MpkBankDescriptor, ParseError>) -> Result<
    BankDescriptorView,
    ParseError,
> {
    match r {
        Ok(d) => Ok(d@),
        Err(e) => Err(e),
    }
}

impl MpkBankDescriptor {
    /// Reads the 64-byte pad region: sixteen 4-byte records.
    pub fn parse_pads(bytes: &[u8]) -> (r: Result<Vec<Pad>, ParseError>)
        ensures
            bytes@.len() != 64 ==> r == Err::<Vec<Pad>, ParseError>(
                ParseError::LengthMismatch { got: bytes@.len() as usize, expected: 64 },
            ),
            bytes@.len() == 64 ==> pads_result_view(r) == spec_decode_pads(bytes@),
            r matches Ok(v) ==> v@.len() == 16,
    {
        if bytes.len() != 64 {
            return Err(ParseError::LengthMismatch { got: bytes.len(), expected: 64 });
        }
        let mut pads: Vec<Pad> = Vec::new();
        let mut i: usize = 0;
        proof {
            assert(bytes@.skip(0) =~= bytes@);
            assert(Seq::<Pad>::empty() + spec_decode_pads(bytes@)->Ok_0 =~= spec_decode_pads(
                bytes@,
            )->Ok_0);
        }
        while i < 16
            invariant
                i <= 16,
                bytes@.len() == 64,
                pads@.len() == i,
                spec_decode_pads(bytes@) == (match spec_decode_pads(bytes@.skip(4 * i as int)) {
                    Ok(rest) => Ok::<Seq<Pad>, ParseError>(pads@ + rest),
                    Err(e) => Err::<Seq<Pad>, ParseError>(e),
                }),
            decreases 16 - i,
        {
            let raw = [bytes[4 * i], bytes[4 * i + 1], bytes[4 * i + 2], bytes[4 * i + 3]];
            proof {
                assert(raw@ =~= bytes@.skip(4 * i as int).take(4));
            }
            match Pad::from(raw) {
                Err(e) => {
                    return Err(e);
                },
                Ok(p) => {
                    proof {
                        assert(bytes@.skip(4 * i as int).skip(4) =~= bytes@.skip(
                            4 * (i + 1) as int,
                        ));
                        assert(pads@.push(p) =~= pads@ + seq![p]);
                        if spec_decode_pads(bytes@.skip(4 * (i + 1) as int)) is Ok {
                            let rest = spec_decode_pads(bytes@.skip(4 * (i + 1) as int))->Ok_0;
                            assert(pads@ + (seq![p] + rest) =~= (pads@ + seq![p]) + rest);
                        }
                    }
                    pads.push(p);
                },
            }
            i = i + 1;
        }
        proof {
            assert(bytes@.skip(64).len() == 0);
            assert(pads@ + Seq::<Pad>::empty() =~= pads@);
        }
        Ok(pads)
    }

    /// Reads the 24-byte knob region: eight 3-byte records.
    pub fn parse_knobs(bytes: &[u8]) -> (r: Result<Vec<Knob>, ParseError>)
        ensures
            bytes@.len() != 24 ==> r == Err::<Vec<Knob>, ParseError>(
                ParseError::LengthMismatch { got: bytes@.len() as usize, expected: 24 },
            ),
            bytes@.len() == 24 ==> (r matches Ok(v) && v@ == spec_decode_knobs(bytes@)),
            r matches Ok(v) ==> v@.len() == 8,
    {
        if bytes.len() != 24 {
            return Err(ParseError::LengthMismatch { got: bytes.len(), expected: 24 });
        }
        let mut knobs: Vec<Knob> = Vec::new();
        let mut i: usize = 0;
        proof {
            assert(bytes@.skip(0) =~= bytes@);
            assert(Seq::<Knob>::empty() + spec_decode_knobs(bytes@) =~= spec_decode_knobs(bytes@));
        }
        while i < 8
            invariant
                i <= 8,
                bytes@.len() == 24,
                knobs@.len() == i,
                spec_decode_knobs(bytes@) == knobs@ + spec_decode_knobs(
                    bytes@.skip(3 * i as int),
                ),
            decreases 8 - i,
        {
            let k = Knob::from([bytes[3 * i], bytes[3 * i + 1], bytes[3 * i + 2]]);
            proof {
                assert(bytes@.skip(3 * i as int).skip(3) =~= bytes@.skip(3 * (i + 1) as int));
                let rest = spec_decode_knobs(bytes@.skip(3 * (i + 1) as int));
                assert(knobs@ + (seq![k] + rest) =~= (knobs@ + seq![k]) + rest);
                assert(knobs@.push(k) =~= knobs@ + seq![k]);
            }
            knobs.push(k);
            i = i + 1;
        }
        proof {
            assert(bytes@.skip(24).len() == 0);
            assert(knobs@ + Seq::<Knob>::empty() =~= knobs@);
        }
        Ok(knobs)
    }

    /// Reads a full 108-byte descriptor, reporting the first malformed
    /// field in wire order.
    pub fn from(bytes: &[u8]) -> (r: Result<MpkBankDescriptor, ParseError>)
        ensures
            bank_result_view(r) == spec_decode_bank(bytes@),
            r matches Ok(d) ==> d@.wf(),
    {
        if bytes.len() != 108 {
            return Err(ParseError::LengthMismatch { got: bytes.len(), expected: 108 });
        }
        let arpeggiator = Toggle::from(bytes[3])?;
        let arpeggiator_mode = ArpeggiatorMode::from(bytes[4])?;
        let arpeggiator_time_division = ArpeggiatorTimeDivision::from(bytes[5])?;
        let clock_source = ClockSource::from(bytes[6])?;
        let latch = Toggle::from(bytes[7])?;
        let swing = Swing::from(bytes[8])?;
        let tempo = U14BE::from_device([bytes[10], bytes[11]])?;
        let jx_raw = [bytes[13], bytes[14], bytes[15]];
        proof {
            assert(jx_raw@ =~= bytes@.subrange(13, 16));
        }
        let joystick_x = match Joystick::from(jx_raw) {
            Ok(j) => j,
            Err(e) => {
                return Err(e);
            },
        };
        let jy_raw = [bytes[16], bytes[17], bytes[18]];
        proof {
            assert(jy_raw@ =~= bytes@.subrange(16, 19));
        }
        let joystick_y = match Joystick::from(jy_raw) {
            Ok(j) => j,
            Err(e) => {
                return Err(e);
            },
        };
        let pads = match Self::parse_pads(vstd::slice::slice_subrange(bytes, 19, 83)) {
            Ok(v) => v,
            Err(e) => {
                return Err(e);
            },
        };
        let knobs = match Self::parse_knobs(vstd::slice::slice_subrange(bytes, 83, 107)) {
            Ok(v) => v,
            Err(e) => {
                return Err(e);
            },
        };
        let d = MpkBankDescriptor {
            pad_midi_channel: bytes[0],
            keybed_channel: bytes[1],
            octave: bytes[2],
            arpeggiator,
            arpeggiator_mode,
            arpeggiator_time_division,
            clock_source,
            latch,
            swing,
            tempo_taps: bytes[9],
            tempo,
            arpeggiator_octave: bytes[12],
            joystick_x,
            joystick_y,
            pads,
            knobs,
            transpose: bytes[107],
        };
        proof {
            assert(spec_decode_bank(bytes@) is Ok);
            assert(d@ =~= spec_decode_bank(bytes@)->Ok_0);
        }
        Ok(d)
    }

    /// The pad MIDI channel as shown to the user: 1-based.
    pub fn display_pad_channel(&self) -> (r: u16)
        ensures
            r == self.pad_midi_channel + 1,
    {
        self.pad_midi_channel as u16 + 1
    }

    /// The keybed channel as shown to the user: 1-based.
    pub fn display_keybed_channel(&self) -> (r: u16)
        ensures
            r == self.keybed_channel + 1,
    {
        self.keybed_channel as u16 + 1
    }

    /// The octave shift as shown to the user: the wire byte stores it
    /// offset by four.
    pub fn display_octave(&self) -> (r: i16)
        ensures
            r == self.octave - 4,
    {
        self.octave as i16 - 4
    }

    /// The transpose shift as shown to the user: the wire byte stores it
    /// offset by twelve.
    pub fn display_transpose(&self) -> (r: i16)
        ensures
            r == self.transpose - 12,
    {
        self.transpose as i16 - 12
    }

    /// The arpeggiator octave range as shown to the user: 1-based.
    pub fn display_arpeggiator_octave(&self) -> (r: u16)
        ensures
            r == self.arpeggiator_octave + 1,
    {
        self.arpeggiator_octave as u16 + 1
    }

    /// Writes the descriptor back to its 108 wire bytes.
    pub fn into_bytes(self) -> (r: Vec<u8>)
        requires
            self@.wf(),
        ensures
            r@ == spec_encode_bank(self@),
            r@.len() == 108,
    {
        let mut ret: Vec<u8> = Vec::new();
        ret.push(self.pad_midi_channel);
        ret.push(self.keybed_channel);
        ret.push(self.octave);
        ret.push(self.arpeggiator.to_wire());
        ret.push(self.arpeggiator_mode.to_wire());
        ret.push(self.arpeggiator_time_division.to_wire());
        ret.push(self.clock_source.to_wire());
        ret.push(self.latch.to_wire());
        ret.push(self.swing.to_wire());
        ret.push(self.tempo_taps);
        let h = self.tempo.host;
        proof {
            assert(((h >> 7) & 0x7f) < 256 && (h & 0x7f) < 256) by (bit_vector);
            assert(h < 0x4000 ==> ((h >> 7) & 0x7f) == h / 128 && (h & 0x7f) == h % 128)
                by (bit_vector);
        }
        ret.push(((h >> 7) & 0x7f) as u8);
        ret.push((h & 0x7f) as u8);
        ret.push(self.arpeggiator_octave);
        let jx = self.joystick_x.to_bytes();
        ret.push(jx[0]);
        ret.push(jx[1]);
        ret.push(jx[2]);
        let jy = self.joystick_y.to_bytes();
        ret.push(jy[0]);
        ret.push(jy[1]);
        ret.push(jy[2]);
        proof {
            assert(ret@ =~= spec_bank_head(self@));
            assert(self.pads@.take(0) =~= Seq::<Pad>::empty());
            assert(ret@ + Seq::<u8>::empty() =~= ret@);
        }
        let ghost head = ret@;
        let mut i: usize = 0;
        while i < 16
            invariant
                i <= 16,
                self.pads@.len() == 16,
                ret@ == head + spec_encode_pads(self.pads@.take(i as int)),
            decreases 16 - i,
        {
            let pb = self.pads[i].to_bytes();
            proof {
                lemma_encode_pads_push(self.pads@.take(i as int), self.pads@[i as int]);
                assert(self.pads@.take(i as int).push(self.pads@[i as int]) =~= self.pads@.take(
                    i + 1,
                ));
                assert((head + spec_encode_pads(self.pads@.take(i as int))) + pad_wire_bytes(
                    self.pads@[i as int],
                ) =~= head + (spec_encode_pads(self.pads@.take(i as int)) + pad_wire_bytes(
                    self.pads@[i as int],
                )));
            }
            ret.push(pb[0]);
            ret.push(pb[1]);
            ret.push(pb[2]);
            ret.push(pb[3]);
            proof {
                assert(ret@ =~= head + spec_encode_pads(self.pads@.take(i + 1)));
            }
            i = i + 1;
        }
        proof {
            assert(self.pads@.take(16) =~= self.pads@);
            assert(self.knobs@.take(0) =~= Seq::<Knob>::empty());
            assert(ret@ + Seq::<u8>::empty() =~= ret@);
        }
        let ghost head2 = ret@;
        let mut j: usize = 0;
        while j < 8
            invariant
                j <= 8,
                self.knobs@.len() == 8,
                ret@ == head2 + spec_encode_knobs(self.knobs@.take(j as int)),
            decreases 8 - j,
        {
            let kb = self.knobs[j].to_bytes();
            proof {
                lemma_encode_knobs_push(self.knobs@.take(j as int), self.knobs@[j as int]);
                assert(self.knobs@.take(j as int).push(self.knobs@[j as int]) =~= self.knobs@.take(
                    j + 1,
                ));
                assert((head2 + spec_encode_knobs(self.knobs@.take(j as int))) + knob_wire_bytes(
                    self.knobs@[j as int],
                ) =~= head2 + (spec_encode_knobs(self.knobs@.take(j as int)) + knob_wire_bytes(
                    self.knobs@[j as int],
                )));
            }
            ret.push(kb[0]);
            ret.push(kb[1]);
            ret.push(kb[2]);
            proof {
                assert(ret@ =~= head2 + spec_encode_knobs(self.knobs@.take(j + 1)));
            }
            j = j + 1;
        }
        proof {
            assert(self.knobs@.take(8) =~= self.knobs@);
        }
        ret.push(self.transpose);
        proof {
            lemma_encode_pads_len(self.pads@);
            lemma_encode_knobs_len(self.knobs@);
            assert(ret@ =~= spec_encode_bank(self@));
        }
        ret
    }
}

/// Appending one pad appends its four wire bytes.
proof fn lemma_encode_pads_push(pads: Seq<Pad>, p: Pad)
    ensures
        spec_encode_pads(pads.push(p)) == spec_encode_pads(pads) + pad_wire_bytes(p),
    decreases pads.len(),
{
    if pads.len() == 0 {
        assert(pads.push(p)[0] == p);
        assert(pads.push(p).drop_first() =~= Seq::<Pad>::empty());
        assert(spec_encode_pads(Seq::<Pad>::empty()) == Seq::<u8>::empty());
        assert(pad_wire_bytes(p) + Seq::<u8>::empty() =~= pad_wire_bytes(p));
        assert(Seq::<u8>::empty() + pad_wire_bytes(p) =~= pad_wire_bytes(p));
    } else {
        lemma_encode_pads_push(pads.drop_first(), p);
        assert(pads.push(p)[0] == pads[0]);
        assert(pads.push(p).drop_first() =~= pads.drop_first().push(p));
        assert(pad_wire_bytes(pads[0]) + (spec_encode_pads(pads.drop_first()) + pad_wire_bytes(p))
            =~= (pad_wire_bytes(pads[0]) + spec_encode_pads(pads.drop_first())) + pad_wire_bytes(
            p,
        ));
    }
}

/// Appending one knob appends its three wire bytes.
proof fn lemma_encode_knobs_push(knobs: Seq<Knob>, k: Knob)
    ensures
        spec_encode_knobs(knobs.push(k)) == spec_encode_knobs(knobs) + knob_wire_bytes(k),
    decreases knobs.len(),
{
    if knobs.len() == 0 {
        assert(knobs.push(k)[0] == k);
        assert(knobs.push(k).drop_first() =~= Seq::<Knob>::empty());
        assert(spec_encode_knobs(Seq::<Knob>::empty()) == Seq::<u8>::empty());
        assert(knob_wire_bytes(k) + Seq::<u8>::empty() =~= knob_wire_bytes(k));
        assert(Seq::<u8>::empty() + knob_wire_bytes(k) =~= knob_wire_bytes(k));
    } else {
        lemma_encode_knobs_push(knobs.drop_first(), k);
        assert(knobs.push(k)[0] == knobs[0]);
        assert(knobs.push(k).drop_first() =~= knobs.drop_first().push(k));
        assert(knob_wire_bytes(knobs[0]) + (spec_encode_knobs(knobs.drop_first())
            + knob_wire_bytes(k)) =~= (knob_wire_bytes(knobs[0]) + spec_encode_knobs(
            knobs.drop_first(),
        )) + knob_wire_bytes(k));
    }
}

/// A run of pads encodes to four bytes per pad.
pub proof fn lemma_encode_pads_len(pads: Seq<Pad>)
    ensures
        spec_encode_pads(pads).len() == 4 * pads.len(),
    decreases pads.len(),
{
    if pads.len() > 0 {
        lemma_encode_pads_len(pads.drop_first());
    }
}

/// A run of knobs encodes to three bytes per knob.
pub proof fn lemma_encode_knobs_len(knobs: Seq<Knob>)
    ensures
        spec_encode_knobs(knobs).len() == 3 * knobs.len(),
    decreases knobs.len(),
{
    if knobs.len() > 0 {
        lemma_encode_knobs_len(knobs.drop_first());
    }
}

/// A joystick record with nothing in the bytes its tag does not use.
/// The decoder ignores those bytes, so only canonical records survive a
/// decode-then-encode trip unchanged.
pub open spec fn joystick_canonical(raw: Seq<u8>) -> bool
    recommends
        raw.len() == 3,
{
    &&& (raw[0] == 0 ==> raw[1] == 0 && raw[2] == 0)
    &&& (raw[0] == 1 ==> raw[2] == 0)
}

/// A 108-byte buffer whose two joystick records are canonical.
pub open spec fn bank_bytes_canonical(s: Seq<u8>) -> bool
    recommends
        s.len() == 108,
{
    joystick_canonical(s.subrange(13, 16)) && joystick_canonical(s.subrange(16, 19))
}

/// Decoding the wire bytes of a run of pads gives that run back.
proof fn lemma_pads_decode_encode(pads: Seq<Pad>)
    ensures
        spec_decode_pads(spec_encode_pads(pads)) == Ok::<Seq<Pad>, ParseError>(pads),
    decreases pads.len(),
{
    lemma_encode_pads_len(pads);
    if pads.len() == 0 {
        assert(pads =~= Seq::<Pad>::empty());
    } else {
        let p = pads[0];
        let s = spec_encode_pads(pads);
        lemma_encode_pads_len(pads.drop_first());
        assert(s.take(4) =~= pad_wire_bytes(p));
        assert(p.mode.wire() <= 1);
        assert(spec_pad_from(pad_wire_bytes(p)) == Ok::<Pad, ParseError>(p));
        assert(s.skip(4) =~= spec_encode_pads(pads.drop_first()));
        lemma_pads_decode_encode(pads.drop_first());
        assert(seq![p] + pads.drop_first() =~= pads);
    }
}

/// Decoding the wire bytes of a run of knobs gives that run back.
proof fn lemma_knobs_decode_encode(knobs: Seq<Knob>)
    ensures
        spec_decode_knobs(spec_encode_knobs(knobs)) == knobs,
    decreases knobs.len(),
{
    lemma_encode_knobs_len(knobs);
    if knobs.len() == 0 {
        assert(spec_decode_knobs(spec_encode_knobs(knobs)) =~= knobs);
    } else {
        let k = knobs[0];
        let s = spec_encode_knobs(knobs);
        lemma_encode_knobs_len(knobs.drop_first());
        assert(s[0] == k.control && s[1] == k.min && s[2] == k.max);
        assert(s.skip(3) =~= spec_encode_knobs(knobs.drop_first()));
        lemma_knobs_decode_encode(knobs.drop_first());
        assert(seq![k] + knobs.drop_first() =~= knobs);
    }
}

/// Re-encoding the pads decoded from a well-sized byte run reproduces it.
proof fn lemma_pads_encode_decode(s: Seq<u8>)
    requires
        s.len() % 4 == 0,
        spec_decode_pads(s) is Ok,
    ensures
        spec_encode_pads(spec_decode_pads(s)->Ok_0) == s,
    decreases s.len(),
{
    if s.len() == 0 {
        assert(spec_encode_pads(Seq::<Pad>::empty()) =~= s);
    } else {
        let p = spec_pad_from(s.take(4))->Ok_0;
        let rest = spec_decode_pads(s.skip(4))->Ok_0;
        assert(s.take(4)[3] <= 1);
        assert(pad_wire_bytes(p) =~= s.take(4));
        assert(s.skip(4).len() % 4 == 0);
        lemma_pads_encode_decode(s.skip(4));
        let whole = seq![p] + rest;
        assert(whole[0] == p);
        assert(whole.drop_first() =~= rest);
        assert(pad_wire_bytes(p) + spec_encode_pads(rest) =~= s.take(4) + s.skip(4));
        assert(s.take(4) + s.skip(4) =~= s);
    }
}

/// Re-encoding the knobs decoded from a well-sized byte run reproduces it.
proof fn lemma_knobs_encode_decode(s: Seq<u8>)
    requires
        s.len() % 3 == 0,
    ensures
        spec_encode_knobs(spec_decode_knobs(s)) == s,
    decreases s.len(),
{
    if s.len() == 0 {
        assert(spec_encode_knobs(spec_decode_knobs(s)) =~= s);
    } else {
        let k = Knob { control: s[0], min: s[1], max: s[2] };
        let rest = spec_decode_knobs(s.skip(3));
        let whole = seq![k] + rest;
        assert(whole[0] == k);
        assert(whole.drop_first() =~= rest);
        assert(s.skip(3).len() % 3 == 0);
        lemma_knobs_encode_decode(s.skip(3));
        assert(knob_wire_bytes(k) =~= s.take(3));
        assert(knob_wire_bytes(k) + spec_encode_knobs(rest) =~= s.take(3) + s.skip(3));
        assert(s.take(3) + s.skip(3) =~= s);
    }
}

/// Decoding what a well-formed descriptor encodes gives the descriptor
/// back: every constructible value survives the trip to the wire.
pub proof fn lemma_bank_decode_encode_roundtrip(b: BankDescriptorView)
    requires
        b.wf(),
    ensures
        spec_decode_bank(spec_encode_bank(b)) == Ok::<BankDescriptorView, ParseError>(b),
{
    let s = spec_encode_bank(b);
    let head = spec_bank_head(b);
    lemma_encode_pads_len(b.pads);
    lemma_encode_knobs_len(b.knobs);
    assert(joystick_wire_bytes(b.joystick_x).len() == 3);
    assert(joystick_wire_bytes(b.joystick_y).len() == 3);
    assert(head.len() == 19);
    assert(s.len() == 108);
    crate::u14::lemma_u14_roundtrip(b.tempo);
    assert(s.subrange(13, 16) =~= joystick_wire_bytes(b.joystick_x));
    assert(s.subrange(16, 19) =~= joystick_wire_bytes(b.joystick_y));
    assert(spec_joystick_from(joystick_wire_bytes(b.joystick_x)) == Ok::<Joystick, ParseError>(
        b.joystick_x,
    ));
    assert(spec_joystick_from(joystick_wire_bytes(b.joystick_y)) == Ok::<Joystick, ParseError>(
        b.joystick_y,
    ));
    assert(s.subrange(19, 83) =~= spec_encode_pads(b.pads));
    assert(s.subrange(83, 107) =~= spec_encode_knobs(b.knobs));
    lemma_pads_decode_encode(b.pads);
    lemma_knobs_decode_encode(b.knobs);
    assert(spec_decode_bank(s) is Ok);
    assert(spec_decode_bank(s)->Ok_0 =~= b);
}

/// Re-encoding a decoded buffer reproduces it byte for byte, provided the
/// buffer's joystick records carry nothing in the bytes their tag ignores.
pub proof fn lemma_bank_encode_decode_roundtrip(s: Seq<u8>)
    requires
        spec_decode_bank(s) is Ok,
        bank_bytes_canonical(s),
    ensures
        spec_encode_bank(spec_decode_bank(s)->Ok_0) == s,
{
    let b = spec_decode_bank(s)->Ok_0;
    let head = spec_bank_head(b);
    crate::u14::lemma_u14_bytes_roundtrip(s[10], s[11]);
    assert(joystick_wire_bytes(b.joystick_x) =~= s.subrange(13, 16));
    assert(joystick_wire_bytes(b.joystick_y) =~= s.subrange(16, 19));
    assert(head =~= s.subrange(0, 19));
    assert(s.subrange(19, 83).len() % 4 == 0);
    lemma_pads_encode_decode(s.subrange(19, 83));
    assert(s.subrange(83, 107).len() % 3 == 0);
    lemma_knobs_encode_decode(s.subrange(83, 107));
    assert(spec_encode_bank(b) =~= s);
}

} // verus!
