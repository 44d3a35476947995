//! The operations of the service: how each is checked before it reaches the
//! ledger, and what it does to the ledger when it is executed.

use vstd::prelude::*;
use crate::error::Error;
use crate::keys::{Key, PublicKey, TxHash};
use crate::ledger::{Ledger, LedgerState, LogEntry};
use crate::wallet::Wallet;

verus! {

/// The balance with which every wallet starts.
pub const INITIAL_BALANCE: u64 = 100;

/// The span of ledger time, counted from the moment an operation was applied,
/// during which it can be compensated.
pub const COMPENSATION_WINDOW: i64 = 100000;

/// Whether an operation applied at `recorded` can still be compensated at `now`.
pub open spec fn window_open(now: i64, recorded: i64) -> bool {
    now - recorded < COMPENSATION_WINDOW
}

/// Whether an operation applied at `recorded` can still be compensated at `now`.
pub fn within_window(now: i64, recorded: i64) -> (r: bool)
    ensures
        r == window_open(now, recorded),
{
    let elapsed: i128 = now as i128 - recorded as i128;
    elapsed < COMPENSATION_WINDOW as i128
}

/// Moves `amount` from the wallet `from` to the wallet `to`.
#[derive(Clone, Copy, Debug, PartialEq, Eq)]
pub struct Transfer {
    pub from: PublicKey,
    pub to: PublicKey,
    pub amount: u64,
    pub seed: u64,
}

/// Mints `amount` into the wallet `pub_key` on the authority of `issuer_key`.
#[derive(Clone, Copy, Debug, PartialEq, Eq)]
pub struct Issue {
    pub pub_key: PublicKey,
    pub issuer_key: PublicKey,
    pub amount: u64,
    pub seed: u64,
}

/// Creates the wallet `pub_key` with the display name `name`; `user_type`
/// selects the role granted with it.
#[derive(Clone, Debug, PartialEq, Eq)]
pub struct CreateWallet {
    pub pub_key: PublicKey,
    pub name: String,
    pub user_type: u64,
}

/// Puts `amount` of the wallet `pub_key` into escrow.
#[derive(Clone, Debug, PartialEq, Eq)]
pub struct MailPreparation {
    pub meta: String,
    pub pub_key: PublicKey,
    pub amount: u64,
    pub seed: u64,
}

/// The decision of the inspector `pub_key` on the escrow of `sender_key`.
#[derive(Clone, Copy, Debug, PartialEq, Eq)]
pub struct MailAcceptance {
    pub pub_key: PublicKey,
    pub sender_key: PublicKey,
    pub amount: u64,
    pub accept: bool,
    pub seed: u64,
}

/// The order of the inspector `pub_key` to compensate the operation
/// `tx_hash`, which concerned the wallet `sender`.
#[derive(Clone, Copy, Debug, PartialEq, Eq)]
pub struct Cancellation {
    pub pub_key: PublicKey,
    pub sender: PublicKey,
    pub tx_hash: TxHash,
}

impl Issue {
    /// An issue of `amount` to the wallet `pub_key` on the authority of `issuer_key`.
    pub fn new(pub_key: &PublicKey, issuer_key: &PublicKey, amount: u64, seed: u64) -> (r: Issue)
        ensures
            r == (Issue { pub_key: *pub_key, issuer_key: *issuer_key, amount, seed }),
    {
        Issue { pub_key: *pub_key, issuer_key: *issuer_key, amount, seed }
    }

    /// The result of executing the issue on the state `s`.
    pub open spec fn outcome(self, s: LedgerState, hash: TxHash, time: Option<i64>) -> Result<
        LedgerState,
        Error,
    > {
        if !s.issuers.contains(self.issuer_key) {
            Err(Error::NotIssuer)
        } else {
            match (s.credited(self.pub_key, self.amount, hash), time) {
                (Err(e), _) => Err(e),
                (Ok(_), None) => Err(Error::TimeUnavailable),
                (Ok(t), Some(now)) => Ok(t.recorded(hash, now, self.logged())),
            }
        }
    }

    /// What the log keeps of the issue.
    pub open spec fn logged(self) -> LogEntry {
        LogEntry::Issue { pub_key: self.pub_key, amount: self.amount }
    }

    /// What the log keeps of the issue.
    pub fn log_entry(&self) -> (r: LogEntry)
        ensures
            r == self.logged(),
    {
        LogEntry::Issue { pub_key: self.pub_key, amount: self.amount }
    }

    /// The key whose signature the issue must carry: the issuer's, not the
    /// receiving wallet's.
    pub fn signer(&self) -> (r: &PublicKey)
        ensures
            *r == self.issuer_key,
    {
        &self.issuer_key
    }

    /// Whether the issue may reach the ledger, given whether its signature
    /// is valid for `self.signer()`.
    pub fn verify(&self, signature_valid: bool) -> (r: bool)
        ensures
            r == signature_valid,
    {
        signature_valid
    }

    /// Adds `amount` to the available balance of the wallet `pub_key`, if
    /// `issuer_key` is an issuer, and logs the issue under `hash` at `time`.
    /// On an error the ledger is unchanged.
    pub fn execute(&self, ledger: &mut Ledger, hash: &TxHash, time: Option<i64>) -> (r: Result<(), Error>)
        requires
            old(ledger).wf(),
        ensures
            final(ledger).wf(),
            match self.outcome(old(ledger)@, *hash, time) {
                Ok(s) => r is Ok && final(ledger)@ == s,
                Err(e) => r == Err::<(), Error>(e) && *final(ledger) == *old(ledger),
            },
    {
        if !ledger.is_issuer(&self.issuer_key) {
            return Err(Error::NotIssuer);
        }
        let credited = match ledger.wallet(&self.pub_key) {
            Some(wallet) => match wallet.increase(self.amount, hash) {
                Ok(w) => w,
                Err(e) => {
                    return Err(e);
                },
            },
            None => {
                return Err(Error::ReceiverNotFound);
            },
        };
        let now = match time {
            Some(now) => now,
            None => {
                return Err(Error::TimeUnavailable);
            },
        };
        ledger.put_wallet(credited);
        ledger.record(hash, now, self.log_entry());
        Ok(())
    }
}

impl Transfer {
    /// A transfer of `amount` from the wallet `from` to the wallet `to`.
    pub fn new(from: &PublicKey, to: &PublicKey, amount: u64, seed: u64) -> (r: Transfer)
        ensures
            r == (Transfer { from: *from, to: *to, amount, seed }),
    {
        Transfer { from: *from, to: *to, amount, seed }
    }

    /// The result of executing the transfer on the state `s`.
    pub open spec fn outcome(self, s: LedgerState, hash: TxHash, time: Option<i64>) -> Result<
        LedgerState,
        Error,
    > {
        match (s.moved(self.from, self.to, self.amount, hash), time) {
            (Err(e), _) => Err(e),
            (Ok(_), None) => Err(Error::TimeUnavailable),
            (Ok(t), Some(now)) => Ok(t.recorded(hash, now, self.logged())),
        }
    }

    /// What the log keeps of the transfer.
    pub open spec fn logged(self) -> LogEntry {
        LogEntry::Transfer { from: self.from, to: self.to, amount: self.amount }
    }

    /// What the log keeps of the transfer.
    pub fn log_entry(&self) -> (r: LogEntry)
        ensures
            r == self.logged(),
    {
        LogEntry::Transfer { from: self.from, to: self.to, amount: self.amount }
    }

    /// The key whose signature the transfer must carry: the sender's.
    pub fn signer(&self) -> (r: &PublicKey)
        ensures
            *r == self.from,
    {
        &self.from
    }

    /// Whether the transfer may reach the ledger, given whether its
    /// signature is valid for `self.signer()`: sender and receiver must differ.
    pub fn verify(&self, signature_valid: bool) -> (r: bool)
        ensures
            r == (self.from != self.to && signature_valid),
    {
        !self.from.same(&self.to) && signature_valid
    }

    /// Moves `amount` from the available balance of `from` to that of `to`
    /// and logs the transfer under `hash` at `time`. On an error the ledger
    /// is unchanged.
    pub fn execute(&self, ledger: &mut Ledger, hash: &TxHash, time: Option<i64>) -> (r: Result<(), Error>)
        requires
            old(ledger).wf(),
        ensures
            final(ledger).wf(),
            match self.outcome(old(ledger)@, *hash, time) {
                Ok(s) => r is Ok && final(ledger)@ == s,
                Err(e) => r == Err::<(), Error>(e) && *final(ledger) == *old(ledger),
            },
    {
        let sender_balance = match ledger.wallet(&self.from) {
            Some(sender) => sender.balance(),
            None => {
                return Err(Error::SenderNotFound);
            },
        };
        let receiver_balance = match ledger.wallet(&self.to) {
            Some(receiver) => receiver.balance(),
            None => {
                return Err(Error::ReceiverNotFound);
            },
        };
        if sender_balance < self.amount {
            return Err(Error::InsufficientCurrencyAmount);
        }
        if !self.from.same(&self.to) && self.amount > u64::MAX - receiver_balance {
            return Err(Error::BalanceOverflow);
        }
        let now = match time {
            Some(now) => now,
            None => {
                return Err(Error::TimeUnavailable);
            },
        };
        match ledger.move_funds(&self.from, &self.to, self.amount, hash) {
            Ok(()) => {
                ledger.record(hash, now, self.log_entry());
                Ok(())
            },
            Err(e) => Err(e),
        }
    }
}

impl CreateWallet {
    /// The creation of the wallet `pub_key` with the display name `name`
    /// and the role that `user_type` selects.
    pub fn new(pub_key: &PublicKey, name: &str, user_type: u64) -> (r: CreateWallet)
        ensures
            r.pub_key == *pub_key,
            r.name@ == name@,
            r.user_type == user_type,
    {
        CreateWallet { pub_key: *pub_key, name: name.to_owned(), user_type }
    }

    /// The wallet that the operation creates.
    pub open spec fn created(self, hash: TxHash) -> Wallet {
        Wallet {
            pub_key: self.pub_key,
            name: self.name,
            balance: INITIAL_BALANCE,
            freezed_balance: 0,
            history_hash: hash,
        }
    }

    /// The result of executing the creation on the state `s`.
    pub open spec fn outcome(self, s: LedgerState, hash: TxHash, time: Option<i64>) -> Result<
        LedgerState,
        Error,
    > {
        if s.wallets.contains_key(self.pub_key) {
            Err(Error::WalletAlreadyExists)
        } else {
            match time {
                None => Err(Error::TimeUnavailable),
                Some(now) => Ok(
                    s.updated(self.pub_key, self.created(hash)).recorded(
                        hash,
                        now,
                        self.logged(),
                    ).with_role(self.pub_key, self.user_type),
                ),
            }
        }
    }

    /// What the log keeps of the creation.
    pub open spec fn logged(self) -> LogEntry {
        LogEntry::CreateWallet { pub_key: self.pub_key }
    }

    /// What the log keeps of the creation.
    pub fn log_entry(&self) -> (r: LogEntry)
        ensures
            r == self.logged(),
    {
        LogEntry::CreateWallet { pub_key: self.pub_key }
    }

    /// The key whose signature the creation must carry: the new wallet's.
    pub fn signer(&self) -> (r: &PublicKey)
        ensures
            *r == self.pub_key,
    {
        &self.pub_key
    }

    /// Whether the creation may reach the ledger, given whether its
    /// signature is valid for `self.signer()`.
    pub fn verify(&self, signature_valid: bool) -> (r: bool)
        ensures
            r == signature_valid,
    {
        signature_valid
    }

    /// Creates the wallet with the starting balance and nothing frozen,
    /// grants the selected role and logs the creation under `hash` at
    /// `time`. On an error the ledger is unchanged.
    pub fn execute(&self, ledger: &mut Ledger, hash: &TxHash, time: Option<i64>) -> (r: Result<(), Error>)
        requires
            old(ledger).wf(),
        ensures
            final(ledger).wf(),
            match self.outcome(old(ledger)@, *hash, time) {
                Ok(s) => r is Ok && final(ledger)@ == s,
                Err(e) => r == Err::<(), Error>(e) && *final(ledger) == *old(ledger),
            },
    {
        if ledger.wallet(&self.pub_key).is_some() {
            return Err(Error::WalletAlreadyExists);
        }
        let now = match time {
            Some(now) => now,
            None => {
                return Err(Error::TimeUnavailable);
            },
        };
        let wallet = Wallet {
            pub_key: self.pub_key,
            name: self.name.clone(),
            balance: INITIAL_BALANCE,
            freezed_balance: 0,
            history_hash: *hash,
        };
        ledger.put_wallet(wallet);
        ledger.record(hash, now, self.log_entry());
        ledger.add_role(&self.pub_key, self.user_type);
        Ok(())
    }
}

impl MailPreparation {
    /// An escrow of `amount` from the wallet `pub_key`, described by `meta`.
    pub fn new(meta: &str, pub_key: &PublicKey, amount: u64, seed: u64) -> (r: MailPreparation)
        ensures
            r.meta@ == meta@,
            r.pub_key == *pub_key,
            r.amount == amount,
            r.seed == seed,
    {
        MailPreparation { meta: meta.to_owned(), pub_key: *pub_key, amount, seed }
    }

    /// The result of executing the preparation on the state `s`.
    pub open spec fn outcome(self, s: LedgerState, hash: TxHash, time: Option<i64>) -> Result<
        LedgerState,
        Error,
    > {
        if !s.wallets.contains_key(self.pub_key) {
            Err(Error::SenderNotFound)
        } else {
            match (s.wallets[self.pub_key].freeze_spec(self.amount, hash), time) {
                (Err(e), _) => Err(e),
                (Ok(_), None) => Err(Error::TimeUnavailable),
                (Ok(w), Some(now)) => Ok(
                    s.updated(self.pub_key, w).recorded(hash, now, self.logged()),
                ),
            }
        }
    }

    /// What the log keeps of the preparation.
    pub open spec fn logged(self) -> LogEntry {
        LogEntry::MailPreparation { pub_key: self.pub_key, amount: self.amount }
    }

    /// What the log keeps of the preparation.
    pub fn log_entry(&self) -> (r: LogEntry)
        ensures
            r == self.logged(),
    {
        LogEntry::MailPreparation { pub_key: self.pub_key, amount: self.amount }
    }

    /// The key whose signature the preparation must carry: the originator's.
    pub fn signer(&self) -> (r: &PublicKey)
        ensures
            *r == self.pub_key,
    {
        &self.pub_key
    }

    /// Whether the preparation may reach the ledger, given whether its
    /// signature is valid for `self.signer()`.
    pub fn verify(&self, signature_valid: bool) -> (r: bool)
        ensures
            r == signature_valid,
    {
        signature_valid
    }

    /// Moves `amount` from the available into the frozen balance of the
    /// wallet `pub_key` and logs the preparation under `hash` at `time`. On
    /// an error the ledger is unchanged.
    pub fn execute(&self, ledger: &mut Ledger, hash: &TxHash, time: Option<i64>) -> (r: Result<(), Error>)
        requires
            old(ledger).wf(),
        ensures
            final(ledger).wf(),
            match self.outcome(old(ledger)@, *hash, time) {
                Ok(s) => r is Ok && final(ledger)@ == s,
                Err(e) => r == Err::<(), Error>(e) && *final(ledger) == *old(ledger),
            },
    {
        let frozen = match ledger.wallet(&self.pub_key) {
            Some(sender) => match sender.freeze(self.amount, hash) {
                Ok(w) => w,
                Err(e) => {
                    return Err(e);
                },
            },
            None => {
                return Err(Error::SenderNotFound);
            },
        };
        let now = match time {
            Some(now) => now,
            None => {
                return Err(Error::TimeUnavailable);
            },
        };
        ledger.put_wallet(frozen);
        ledger.record(hash, now, self.log_entry());
        Ok(())
    }
}

impl MailAcceptance {
    /// The decision `accept` of the inspector `pub_key` on the escrow of
    /// `amount` of the wallet `sender_key`.
    pub fn new(pub_key: &PublicKey, sender_key: &PublicKey, amount: u64, accept: bool, seed: u64) -> (r:
        MailAcceptance)
        ensures
            r == (MailAcceptance { pub_key: *pub_key, sender_key: *sender_key, amount, accept, seed }),
    {
        MailAcceptance { pub_key: *pub_key, sender_key: *sender_key, amount, accept, seed }
    }

    /// The wallet `w` after the decision: on acceptance its frozen balance
    /// is spent, on rejection it returns to the available balance.
    pub open spec fn settled(self, w: Wallet, hash: TxHash) -> Result<Wallet, Error> {
        if self.accept {
            Ok(w.released(hash))
        } else {
            w.restore_spec(hash)
        }
    }

    /// The result of executing the decision on the state `s`.
    pub open spec fn outcome(self, s: LedgerState, hash: TxHash, time: Option<i64>) -> Result<
        LedgerState,
        Error,
    > {
        if !s.inspectors.contains(self.pub_key) {
            Err(Error::NotInspector)
        } else if !s.wallets.contains_key(self.sender_key) {
            Err(Error::SenderNotFound)
        } else {
            match (self.settled(s.wallets[self.sender_key], hash), time) {
                (Err(e), _) => Err(e),
                (Ok(_), None) => Err(Error::TimeUnavailable),
                (Ok(w), Some(now)) => Ok(
                    s.updated(self.sender_key, w).recorded(hash, now, self.logged()),
                ),
            }
        }
    }

    /// What the log keeps of the decision.
    pub open spec fn logged(self) -> LogEntry {
        LogEntry::MailAcceptance {
            sender_key: self.sender_key,
            amount: self.amount,
            accept: self.accept,
        }
    }

    /// What the log keeps of the decision.
    pub fn log_entry(&self) -> (r: LogEntry)
        ensures
            r == self.logged(),
    {
        LogEntry::MailAcceptance { sender_key: self.sender_key, amount: self.amount, accept: self.accept }
    }

    /// The key whose signature the decision must carry: the inspector's.
    pub fn signer(&self) -> (r: &PublicKey)
        ensures
            *r == self.pub_key,
    {
        &self.pub_key
    }

    /// Whether the decision may reach the ledger, given whether its
    /// signature is valid for `self.signer()`.
    pub fn verify(&self, signature_valid: bool) -> (r: bool)
        ensures
            r == signature_valid,
    {
        signature_valid
    }

    /// Settles the escrow of the wallet `sender_key`, if `pub_key` is an
    /// inspector, and logs the decision under `hash` at `time`. An accepted
    /// escrow is spent and credited to nobody; a rejected one returns to the
    /// available balance. On an error the ledger is unchanged.
    pub fn execute(&self, ledger: &mut Ledger, hash: &TxHash, time: Option<i64>) -> (r: Result<(), Error>)
        requires
            old(ledger).wf(),
        ensures
            final(ledger).wf(),
            match self.outcome(old(ledger)@, *hash, time) {
                Ok(s) => r is Ok && final(ledger)@ == s,
                Err(e) => r == Err::<(), Error>(e) && *final(ledger) == *old(ledger),
            },
    {
        if !ledger.is_inspector(&self.pub_key) {
            return Err(Error::NotInspector);
        }
        let settled = match ledger.wallet(&self.sender_key) {
            Some(sender) => {
                if self.accept {
                    sender.release(hash)
                } else {
                    match sender.restore(hash) {
                        Ok(w) => w,
                        Err(e) => {
                            return Err(e);
                        },
                    }
                }
            },
            None => {
                return Err(Error::SenderNotFound);
            },
        };
        let now = match time {
            Some(now) => now,
            None => {
                return Err(Error::TimeUnavailable);
            },
        };
        ledger.put_wallet(settled);
        ledger.record(hash, now, self.log_entry());
        Ok(())
    }
}

/// The state after the inverse of the logged operation `entry` was applied
/// to `s`. `tx_hash` is the hash of the logged operation, `hash` that of the
/// compensation.
pub open spec fn compensated(s: LedgerState, entry: LogEntry, tx_hash: TxHash, hash: TxHash) -> Result<
    LedgerState,
    Error,
> {
    match entry {
        LogEntry::Transfer { from, to, amount } => {
            if !s.wallets.contains_key(from) {
                Err(Error::SenderNotFound)
            } else if !s.wallets.contains_key(to) {
                Err(Error::ReceiverNotFound)
            } else {
                s.moved(to, from, amount, tx_hash)
            }
        },
        LogEntry::Issue { pub_key, amount } => {
            if !s.wallets.contains_key(pub_key) {
                Err(Error::ReceiverNotFound)
            } else {
                s.debited(pub_key, amount, tx_hash)
            }
        },
        LogEntry::MailPreparation { pub_key, amount } => s.credited(pub_key, amount, hash),
        LogEntry::MailAcceptance { sender_key, amount, accept } => {
            if !accept {
                Ok(s)
            } else {
                s.credited(sender_key, amount, hash)
            }
        },
        LogEntry::CreateWallet { .. } => Err(Error::UnsupportedCompensation),
        LogEntry::Cancellation { .. } => Err(Error::UnsupportedCompensation),
    }
}

/// Applies the inverse of the logged operation `entry` to the ledger: a
/// transfer goes back from receiver to sender, an issue is taken from the
/// wallet that received it, a prepared or an accepted escrow is credited to
/// its originator; a rejected escrow needs nothing. Other kinds have no
/// inverse. On an error the ledger is unchanged.
pub fn compensate(ledger: &mut Ledger, entry: &LogEntry, tx_hash: &TxHash, hash: &TxHash) -> (r: Result<
    (),
    Error,
>)
    requires
        old(ledger).wf(),
    ensures
        final(ledger).wf(),
        match compensated(old(ledger)@, *entry, *tx_hash, *hash) {
            Ok(s) => r is Ok && final(ledger)@ == s,
            Err(e) => r == Err::<(), Error>(e) && *final(ledger) == *old(ledger),
        },
{
    match entry {
        LogEntry::Transfer { from, to, amount } => {
            if ledger.wallet(from).is_none() {
                return Err(Error::SenderNotFound);
            }
            if ledger.wallet(to).is_none() {
                return Err(Error::ReceiverNotFound);
            }
            ledger.move_funds(to, from, *amount, tx_hash)
        },
        LogEntry::Issue { pub_key, amount } => {
            if ledger.wallet(pub_key).is_none() {
                return Err(Error::ReceiverNotFound);
            }
            ledger.decrease_wallet_balance(pub_key, *amount, tx_hash)
        },
        LogEntry::MailPreparation { pub_key, amount } => {
            ledger.increase_wallet_balance(pub_key, *amount, hash)
        },
        LogEntry::MailAcceptance { sender_key, amount, accept } => {
            if !*accept {
                return Ok(());
            }
            ledger.increase_wallet_balance(sender_key, *amount, hash)
        },
        LogEntry::CreateWallet { .. } => Err(Error::UnsupportedCompensation),
        LogEntry::Cancellation { .. } => Err(Error::UnsupportedCompensation),
    }
}

impl Cancellation {
    /// The order of the inspector `pub_key` to compensate the operation
    /// `tx_hash` of the wallet `sender`.
    pub fn new(pub_key: &PublicKey, sender: &PublicKey, tx_hash: &TxHash) -> (r: Cancellation)
        ensures
            r == (Cancellation { pub_key: *pub_key, sender: *sender, tx_hash: *tx_hash }),
    {
        Cancellation { pub_key: *pub_key, sender: *sender, tx_hash: *tx_hash }
    }

    /// The result of executing the compensation on the state `s`.
    pub open spec fn outcome(self, s: LedgerState, hash: TxHash, time: Option<i64>) -> Result<
        LedgerState,
        Error,
    > {
        if !s.inspectors.contains(self.pub_key) {
            Err(Error::NotInspector)
        } else if !s.timestamps.contains_key(self.tx_hash) {
            Err(Error::UnsupportedCompensation)
        } else if time is None {
            Err(Error::TimeUnavailable)
        } else if !window_open(time->Some_0, s.timestamps[self.tx_hash]) {
            Err(Error::Timeisup)
        } else if !s.transactions.contains_key(self.tx_hash) || s.cancelled.contains(self.tx_hash) {
            Err(Error::UnsupportedCompensation)
        } else {
            match compensated(s, s.transactions[self.tx_hash], self.tx_hash, hash) {
                Err(e) => Err(e),
                Ok(t) => Ok(
                    (LedgerState { cancelled: t.cancelled.insert(self.tx_hash), ..t }).recorded(
                        hash,
                        time->Some_0,
                        self.logged(),
                    ),
                ),
            }
        }
    }

    /// What the log keeps of the compensation.
    pub open spec fn logged(self) -> LogEntry {
        LogEntry::Cancellation { tx_hash: self.tx_hash }
    }

    /// What the log keeps of the compensation.
    pub fn log_entry(&self) -> (r: LogEntry)
        ensures
            r == self.logged(),
    {
        LogEntry::Cancellation { tx_hash: self.tx_hash }
    }

    /// The key whose signature the compensation must carry: the inspector's.
    pub fn signer(&self) -> (r: &PublicKey)
        ensures
            *r == self.pub_key,
    {
        &self.pub_key
    }

    /// Whether the compensation may reach the ledger, given whether its
    /// signature is valid for `self.signer()`.
    pub fn verify(&self, signature_valid: bool) -> (r: bool)
        ensures
            r == signature_valid,
    {
        signature_valid
    }

    /// Compensates the logged operation `tx_hash`: the signer must be an
    /// inspector, the operation must have been applied less than
    /// `COMPENSATION_WINDOW` before `time`, and it must be logged, of a kind
    /// that has an inverse, and not compensated before. Its inverse is then
    /// applied to the balances as they are now, the operation is marked as
    /// compensated, and the compensation is logged under `hash` at `time`.
    /// On an error the ledger is unchanged.
    pub fn execute(&self, ledger: &mut Ledger, hash: &TxHash, time: Option<i64>) -> (r: Result<(), Error>)
        requires
            old(ledger).wf(),
        ensures
            final(ledger).wf(),
            match self.outcome(old(ledger)@, *hash, time) {
                Ok(s) => r is Ok && final(ledger)@ == s,
                Err(e) => r == Err::<(), Error>(e) && *final(ledger) == *old(ledger),
            },
    {
        if !ledger.is_inspector(&self.pub_key) {
            return Err(Error::NotInspector);
        }
        let tx_time = match ledger.timestamp(&self.tx_hash) {
            Some(t) => t,
            None => {
                return Err(Error::UnsupportedCompensation);
            },
        };
        let now = match time {
            Some(now) => now,
            None => {
                return Err(Error::TimeUnavailable);
            },
        };
        if !within_window(now, tx_time) {
            return Err(Error::Timeisup);
        }
        let entry = match ledger.transaction(&self.tx_hash) {
            Some(entry) => entry,
            None => {
                return Err(Error::UnsupportedCompensation);
            },
        };
        if ledger.is_cancelled(&self.tx_hash) {
            return Err(Error::UnsupportedCompensation);
        }
        match compensate(ledger, &entry, &self.tx_hash, hash) {
            Ok(()) => {
                ledger.mark_cancelled(&self.tx_hash);
                ledger.record(hash, now, self.log_entry());
                Ok(())
            },
            Err(e) => Err(e),
        }
    }
}

/// What became of an operation that was handed to the ledger.
#[derive(Clone, Copy, Debug, PartialEq, Eq)]
pub enum Status {
    /// The operation did not pass its check: it never reached the ledger and
    /// is not logged.
    Rejected,
    /// The operation was executed and failed: the ledger is unchanged.
    Failed(Error),
    /// The operation was executed and logged.
    Applied,
}

/// Any one operation of the service.
#[derive(Clone, Debug, PartialEq, Eq)]
pub enum WalletTransactions {
    Transfer(Transfer),
    Issue(Issue),
    CreateWallet(CreateWallet),
    MailPreparation(MailPreparation),
    MailAcceptance(MailAcceptance),
    Cancellation(Cancellation),
}

impl WalletTransactions {
    /// The key whose signature the operation must carry.
    pub open spec fn signer_spec(self) -> PublicKey {
        match self {
            WalletTransactions::Transfer(op) => op.from,
            WalletTransactions::Issue(op) => op.issuer_key,
            WalletTransactions::CreateWallet(op) => op.pub_key,
            WalletTransactions::MailPreparation(op) => op.pub_key,
            WalletTransactions::MailAcceptance(op) => op.pub_key,
            WalletTransactions::Cancellation(op) => op.pub_key,
        }
    }

    /// Whether the operation may reach the ledger, given whether its
    /// signature is valid for its signer.
    pub open spec fn verified(self, signature_valid: bool) -> bool {
        match self {
            WalletTransactions::Transfer(op) => op.from != op.to && signature_valid,
            _ => signature_valid,
        }
    }

    /// What the log keeps of the operation.
    pub open spec fn logged(self) -> LogEntry {
        match self {
            WalletTransactions::Transfer(op) => op.logged(),
            WalletTransactions::Issue(op) => op.logged(),
            WalletTransactions::CreateWallet(op) => op.logged(),
            WalletTransactions::MailPreparation(op) => op.logged(),
            WalletTransactions::MailAcceptance(op) => op.logged(),
            WalletTransactions::Cancellation(op) => op.logged(),
        }
    }

    /// The result of executing the operation on the state `s`.
    pub open spec fn outcome(self, s: LedgerState, hash: TxHash, time: Option<i64>) -> Result<
        LedgerState,
        Error,
    > {
        match self {
            WalletTransactions::Transfer(op) => op.outcome(s, hash, time),
            WalletTransactions::Issue(op) => op.outcome(s, hash, time),
            WalletTransactions::CreateWallet(op) => op.outcome(s, hash, time),
            WalletTransactions::MailPreparation(op) => op.outcome(s, hash, time),
            WalletTransactions::MailAcceptance(op) => op.outcome(s, hash, time),
            WalletTransactions::Cancellation(op) => op.outcome(s, hash, time),
        }
    }

    /// What becomes of the operation when it is handed to the state `s`.
    pub open spec fn status(self, s: LedgerState, hash: TxHash, signature_valid: bool, time: Option<i64>) -> Status {
        if !self.verified(signature_valid) {
            Status::Rejected
        } else {
            match self.outcome(s, hash, time) {
                Ok(_) => Status::Applied,
                Err(e) => Status::Failed(e),
            }
        }
    }

    /// What the log keeps of the operation.
    pub fn log_entry(&self) -> (r: LogEntry)
        ensures
            r == self.logged(),
    {
        match self {
            WalletTransactions::Transfer(op) => op.log_entry(),
            WalletTransactions::Issue(op) => op.log_entry(),
            WalletTransactions::CreateWallet(op) => op.log_entry(),
            WalletTransactions::MailPreparation(op) => op.log_entry(),
            WalletTransactions::MailAcceptance(op) => op.log_entry(),
            WalletTransactions::Cancellation(op) => op.log_entry(),
        }
    }

    /// The key whose signature the operation must carry.
    pub fn signer(&self) -> (r: &PublicKey)
        ensures
            *r == self.signer_spec(),
    {
        match self {
            WalletTransactions::Transfer(op) => op.signer(),
            WalletTransactions::Issue(op) => op.signer(),
            WalletTransactions::CreateWallet(op) => op.signer(),
            WalletTransactions::MailPreparation(op) => op.signer(),
            WalletTransactions::MailAcceptance(op) => op.signer(),
            WalletTransactions::Cancellation(op) => op.signer(),
        }
    }

    /// Whether the operation may reach the ledger, given whether its
    /// signature is valid for `self.signer()`. An operation for which this
    /// is false is never executed and never logged.
    pub fn verify(&self, signature_valid: bool) -> (r: bool)
        ensures
            r == self.verified(signature_valid),
    {
        match self {
            WalletTransactions::Transfer(op) => op.verify(signature_valid),
            WalletTransactions::Issue(op) => op.verify(signature_valid),
            WalletTransactions::CreateWallet(op) => op.verify(signature_valid),
            WalletTransactions::MailPreparation(op) => op.verify(signature_valid),
            WalletTransactions::MailAcceptance(op) => op.verify(signature_valid),
            WalletTransactions::Cancellation(op) => op.verify(signature_valid),
        }
    }

    /// Checks the operation and, if it passes, executes it: the one step that
    /// the ledger takes for each operation, in the order in which they come.
    /// The ledger changes only where the result is `Applied`.
    pub fn apply(&self, ledger: &mut Ledger, hash: &TxHash, signature_valid: bool, time: Option<i64>) -> (r:
        Status)
        requires
            old(ledger).wf(),
        ensures
            final(ledger).wf(),
            r == self.status(old(ledger)@, *hash, signature_valid, time),
            match r {
                Status::Applied => final(ledger)@ == self.outcome(old(ledger)@, *hash, time)->Ok_0,
                _ => *final(ledger) == *old(ledger),
            },
    {
        if !self.verify(signature_valid) {
            return Status::Rejected;
        }
        match self.execute(ledger, hash, time) {
            Ok(()) => Status::Applied,
            Err(e) => Status::Failed(e),
        }
    }

    /// Executes the operation, whose hash is `hash`, at the ledger time
    /// `time`. On success the ledger holds the operation's effect, its
    /// timestamp and its log entry; on an error the ledger is unchanged.
    pub fn execute(&self, ledger: &mut Ledger, hash: &TxHash, time: Option<i64>) -> (r: Result<(), Error>)
        requires
            old(ledger).wf(),
        ensures
            final(ledger).wf(),
            match self.outcome(old(ledger)@, *hash, time) {
                Ok(s) => r is Ok && final(ledger)@ == s,
                Err(e) => r == Err::<(), Error>(e) && *final(ledger) == *old(ledger),
            },
    {
        match self {
            WalletTransactions::Transfer(op) => op.execute(ledger, hash, time),
            WalletTransactions::Issue(op) => op.execute(ledger, hash, time),
            WalletTransactions::CreateWallet(op) => op.execute(ledger, hash, time),
            WalletTransactions::MailPreparation(op) => op.execute(ledger, hash, time),
            WalletTransactions::MailAcceptance(op) => op.execute(ledger, hash, time),
            WalletTransactions::Cancellation(op) => op.execute(ledger, hash, time),
        }
    }
}

} // verus!
