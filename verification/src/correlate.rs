//! The request/response correlation policy: which inbound frame answers an
//! outstanding get-bank request, and the bank-index bound shared by the
//! get and set operations.

use vstd::prelude::*;

use crate::error::ParseError;
use crate::mpkbank::MpkBankDescriptor;
use crate::mpkmidi::MpkMidiMessage;

verus! {

/// What to do with one inbound decode result while a get-bank request is
/// outstanding.
pub enum BankReplyStep {
    /// The reply: a bank report for the requested index.
    Deliver(MpkBankDescriptor),
    /// Anything else; the caller discards it and keeps waiting within the
    /// original bounded wait.
    KeepWaiting,
}

/// Checks a user-supplied bank index: 0 (the active RAM settings)
/// through 4 (the persisted banks).
pub fn check_bank_index(bank: u8) -> (r: Result<(), ParseError>)
    ensures
        bank <= 4 ==> r == Ok::<(), ParseError>(()),
        bank > 4 ==> r == Err::<(), ParseError>(ParseError::BankIndexOutOfBounds(bank)),
{
    if bank > 4 {
        Err(ParseError::BankIndexOutOfBounds(bank))
    } else {
        Ok(())
    }
}

/// One step of the correlation policy for a request on bank `bank`: a
/// decoded bank report for that index is delivered; every other message,
/// a report for a different index, and every decode failure is discarded,
/// and the wait goes on. Discarded messages do not re-arm the bounded
/// wait: the original deadline keeps counting down.
pub fn correlate_bank_reply(bank: u8, inbound: Result<MpkMidiMessage, ParseError>) -> (r:
    BankReplyStep)
    ensures
        r matches BankReplyStep::Deliver(d) ==> inbound == Ok::<MpkMidiMessage, ParseError>(
            MpkMidiMessage::Bank(bank, d),
        ),
        r is KeepWaiting ==> !(inbound matches Ok(MpkMidiMessage::Bank(rx, _)) && rx == bank),
{
    match inbound {
        Ok(MpkMidiMessage::Bank(rx, d)) => {
            if rx == bank {
                BankReplyStep::Deliver(d)
            } else {
                BankReplyStep::KeepWaiting
            }
        },
        _ => BankReplyStep::KeepWaiting,
    }
}

} // verus!
