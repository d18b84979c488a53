//! Error values returned by the codecs. Every malformed input is reported
//! as a plain value; no function of this crate panics on bad input.

use vstd::prelude::*;

verus! {

/// Which bounded field of the bank descriptor held an out-of-range wire value.
#[derive(Copy, Clone, Debug, PartialEq, Eq, Structural)]
pub enum FieldKind {
    Toggle,
    PadMode,
    ClockSource,
    ArpeggiatorTimeDivision,
    ArpeggiatorMode,
    Swing,
    JoystickMode,
}

/// A malformed input, reported with the offending raw value where one exists.
#[derive(Copy, Clone, Debug, PartialEq, Eq, Structural)]
pub enum ParseError {
    /// A zero-length MIDI frame.
    EmptyMessage,
    /// A frame whose first byte is not a status byte (high bit clear).
    MsbUnset,
    /// A runt frame, a SysEx frame without its end marker, or a channel
    /// message shorter than its type's payload demands.
    MalformedFrame,
    /// A SysEx frame whose manufacturer byte is not the device vendor's.
    NonVendorFrame(u8),
    /// A vendor SysEx payload that is not the device's bank report.
    UnknownVendorPayload,
    /// A buffer of the wrong size for the record it should hold.
    LengthMismatch { got: usize, expected: usize },
    /// An out-of-range wire value for a bounded field.
    RangeInvalid(FieldKind, u8),
    /// A 14-bit wire pair with a high bit set.
    U14MsbSet(u8, u8),
    /// A host value too large for 14 bits.
    U14Overflow(u16),
    /// A note string not of the form `"<name> <octave>"`.
    NoteFormat,
    /// A note name outside the table of accepted spellings.
    NoteNameUnknown,
    /// A note octave that is not an integer, or one that puts the note
    /// outside the MIDI key range 0..=127.
    NoteOctaveInvalid,
    /// A bank index above 4.
    BankIndexOutOfBounds(u8),
    /// No matching reply arrived within the bounded wait.
    Timeout,
    /// The device's port could not be found or opened.
    TransportUnavailable,
}

} // verus!
