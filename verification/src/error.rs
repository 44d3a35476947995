//! The typed failures of operation handlers.

use vstd::prelude::*;

verus! {

/// Error kinds reported by operation handlers. A handler that reports one has
/// left the ledger exactly as it found it.
#[derive(Clone, Copy, Debug, PartialEq, Eq, Structural)]
pub enum Error {
    /// The key of a wallet to be created already names a wallet.
    WalletAlreadyExists,
    /// The paying or originating wallet does not exist.
    SenderNotFound,
    /// The receiving wallet does not exist.
    ReceiverNotFound,
    /// The available balance is smaller than the amount to be taken from it.
    InsufficientCurrencyAmount,
    /// The compensation window of the targeted operation has elapsed.
    Timeisup,
    /// The signer is not a member of the inspector set.
    NotInspector,
    /// The authorizing key is not a member of the issuer set.
    NotIssuer,
    /// The targeted operation is unknown, of a kind that has no inverse, or
    /// was compensated before.
    UnsupportedCompensation,
    /// No current time has been established.
    TimeUnavailable,
    /// A balance would exceed the largest representable amount.
    BalanceOverflow,
}

impl Error {
    /// The numeric code under which the error is recorded.
    pub open spec fn code_spec(self) -> u8 {
        match self {
            Error::WalletAlreadyExists => 0,
            Error::SenderNotFound => 1,
            Error::ReceiverNotFound => 2,
            Error::InsufficientCurrencyAmount => 3,
            Error::Timeisup => 4,
            Error::NotInspector => 5,
            Error::NotIssuer => 6,
            Error::UnsupportedCompensation => 7,
            Error::TimeUnavailable => 8,
            Error::BalanceOverflow => 9,
        }
    }

    /// The text shown to a user for the error.
    pub open spec fn description_spec(self) -> Seq<char> {
        match self {
            Error::WalletAlreadyExists => "Wallet already exists"@,
            Error::SenderNotFound => "Sender doesn't exist"@,
            Error::ReceiverNotFound => "Receiver doesn't exist"@,
            Error::InsufficientCurrencyAmount => "Insufficient currency amount"@,
            Error::Timeisup => "Time is up"@,
            Error::NotInspector => "Pubkey doesn`t belong to inspector"@,
            Error::NotIssuer => "Pubkey doesn`t belong to issuer"@,
            Error::UnsupportedCompensation => "Operation cannot be compensated"@,
            Error::TimeUnavailable => "Current time is not available"@,
            Error::BalanceOverflow => "Balance exceeds the representable amount"@,
        }
    }

    /// The numeric code under which the error is recorded.
    pub fn code(&self) -> (r: u8)
        ensures
            r == self.code_spec(),
    {
        match self {
            Error::WalletAlreadyExists => 0,
            Error::SenderNotFound => 1,
            Error::ReceiverNotFound => 2,
            Error::InsufficientCurrencyAmount => 3,
            Error::Timeisup => 4,
            Error::NotInspector => 5,
            Error::NotIssuer => 6,
            Error::UnsupportedCompensation => 7,
            Error::TimeUnavailable => 8,
            Error::BalanceOverflow => 9,
        }
    }

    /// The error with the given code, if there is one.
    pub fn from_code(code: u8) -> (r: Option<Error>)
        ensures
            match r {
                Some(e) => e.code_spec() == code,
                None => forall|e: Error| e.code_spec() != code,
            },
    {
        match code {
            0 => Some(Error::WalletAlreadyExists),
            1 => Some(Error::SenderNotFound),
            2 => Some(Error::ReceiverNotFound),
            3 => Some(Error::InsufficientCurrencyAmount),
            4 => Some(Error::Timeisup),
            5 => Some(Error::NotInspector),
            6 => Some(Error::NotIssuer),
            7 => Some(Error::UnsupportedCompensation),
            8 => Some(Error::TimeUnavailable),
            9 => Some(Error::BalanceOverflow),
            _ => None,
        }
    }

    /// The text shown to a user for the error.
    pub fn description(&self) -> (r: String)
        ensures
            r@ == self.description_spec(),
    {
        let text: &str = match self {
            Error::WalletAlreadyExists => "Wallet already exists",
            Error::SenderNotFound => "Sender doesn't exist",
            Error::ReceiverNotFound => "Receiver doesn't exist",
            Error::InsufficientCurrencyAmount => "Insufficient currency amount",
            Error::Timeisup => "Time is up",
            Error::NotInspector => "Pubkey doesn`t belong to inspector",
            Error::NotIssuer => "Pubkey doesn`t belong to issuer",
            Error::UnsupportedCompensation => "Operation cannot be compensated",
            Error::TimeUnavailable => "Current time is not available",
            Error::BalanceOverflow => "Balance exceeds the representable amount",
        };
        text.to_owned()
    }
}

} // verus!
