//! Codec library for the MPK mini MIDI controller's System-Exclusive
//! protocol: the 14-bit tempo value, the textual note codec, the 108-byte
//! bank-descriptor layout, the MIDI message decoder, and the policy that
//! pairs a bank request with its reply.

use vstd::prelude::*;

pub mod correlate;
pub mod error;
pub mod mpkbank;
pub mod mpkmidi;
pub mod note;
pub mod u14;

pub use correlate::check_bank_index;
pub use correlate::correlate_bank_reply;
pub use correlate::BankReplyStep;
pub use error::FieldKind;
pub use error::ParseError;
pub use mpkbank::ArpeggiatorMode;
pub use mpkbank::ArpeggiatorTimeDivision;
pub use mpkbank::ClockSource;
pub use mpkbank::Joystick;
pub use mpkbank::Knob;
pub use mpkbank::Pad;
pub use mpkbank::PadMode;
pub use mpkbank::Swing;
pub use mpkbank::Toggle;
pub use mpkbank::BankDescriptorView;
pub use mpkbank::MpkBankDescriptor;
pub use mpkmidi::sysex_get_bank;
pub use mpkmidi::sysex_set_bank;
pub use mpkmidi::MidiMessageView;
pub use mpkmidi::MpkMidiMessage;
pub use note::Note;
pub use u14::U14BE;

verus! {

} // verus!
