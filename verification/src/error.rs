use vstd::prelude::*;
use vstd::string::*;

verus! {

/// The failure kinds the data-acquisition core can report.
///
/// Per-record parsing failures inside a scan surface as
/// `MalformedResponse` and are recovered locally by the scanners;
/// `Timeout` means a scan's wall-clock budget or page-failure threshold
/// was exceeded before the target record count was reached;
/// `DivisionUndefined` means a derived ratio or product had no defined
/// fixed-point value (a zero denominator, or a result out of range).
#[derive(Clone, Copy, Debug, PartialEq, Eq, Structural)]
pub enum BotError {
    UnknownContract,
    UnknownDex,
    MalformedResponse,
    Timeout,
    DivisionUndefined,
}

pub open spec fn error_text(e: BotError) -> Seq<char> {
    match e {
        BotError::UnknownContract => "Unexpected Error: Unknown Contract!"@,
        BotError::UnknownDex => "Error: Unknown DEX!"@,
        BotError::MalformedResponse => "Error: Invalid format."@,
        BotError::Timeout => "Unexpected Error: Timeout!"@,
        BotError::DivisionUndefined => "Error: Division undefined."@,
    }
}

impl BotError {
    /// A human-readable description, for display layers outside the library.
    pub fn describe(&self) -> (r: String)
        ensures
            r@ == error_text(*self),
    {
        match self {
            BotError::UnknownContract => String::from_str("Unexpected Error: Unknown Contract!"),
            BotError::UnknownDex => String::from_str("Error: Unknown DEX!"),
            BotError::MalformedResponse => String::from_str("Error: Invalid format."),
            BotError::Timeout => String::from_str("Unexpected Error: Timeout!"),
            BotError::DivisionUndefined => String::from_str("Error: Division undefined."),
        }
    }
}

} // verus!
