//! The ledger: wallets, role sets, the timestamp index and the operation log.

use vstd::prelude::*;
use crate::error::Error;
use crate::keys::{Key, PublicKey, TxHash};
use crate::table::Table;
use crate::wallet::Wallet;

verus! {

/// Role selector of a plain user.
pub const USER: u64 = 0;

/// Role selector of an inspector.
pub const INSPECTOR: u64 = 1;

/// Role selector of an issuer.
pub const ISSUER: u64 = 2;

/// What the log keeps of an executed operation: its kind, and the parties
/// and amount that its inverse needs.
#[derive(Clone, Copy, Debug, PartialEq, Eq)]
pub enum LogEntry {
    /// A transfer of `amount` from `from` to `to`.
    Transfer { from: PublicKey, to: PublicKey, amount: u64 },
    /// An issue of `amount` to `pub_key`.
    Issue { pub_key: PublicKey, amount: u64 },
    /// The creation of the wallet `pub_key`.
    CreateWallet { pub_key: PublicKey },
    /// An escrow of `amount` prepared by `pub_key`.
    MailPreparation { pub_key: PublicKey, amount: u64 },
    /// An inspector's decision on the escrow of `sender_key`.
    MailAcceptance { sender_key: PublicKey, amount: u64, accept: bool },
    /// The compensation of the operation `tx_hash`.
    Cancellation { tx_hash: TxHash },
}

impl LogEntry {
    /// The number that tells the kinds of operations apart.
    pub open spec fn message_type_spec(self) -> u16 {
        match self {
            LogEntry::Transfer { .. } => 0,
            LogEntry::Issue { .. } => 1,
            LogEntry::CreateWallet { .. } => 2,
            LogEntry::MailPreparation { .. } => 3,
            LogEntry::MailAcceptance { .. } => 4,
            LogEntry::Cancellation { .. } => 5,
        }
    }

    /// The number that tells the kinds of operations apart.
    pub fn message_type(&self) -> (r: u16)
        ensures
            r == self.message_type_spec(),
    {
        match self {
            LogEntry::Transfer { .. } => 0,
            LogEntry::Issue { .. } => 1,
            LogEntry::CreateWallet { .. } => 2,
            LogEntry::MailPreparation { .. } => 3,
            LogEntry::MailAcceptance { .. } => 4,
            LogEntry::Cancellation { .. } => 5,
        }
    }
}

/// The mathematical content of a ledger.
pub ghost struct LedgerState {
    /// The wallets by their keys.
    pub wallets: Map<PublicKey, Wallet>,
    /// The keys allowed to issue.
    pub issuers: Set<PublicKey>,
    /// The keys allowed to decide on escrows and to order compensations.
    pub inspectors: Set<PublicKey>,
    /// The time at which each logged operation was applied.
    pub timestamps: Map<TxHash, i64>,
    /// The operation log.
    pub transactions: Map<TxHash, LogEntry>,
    /// The operations that have been compensated.
    pub cancelled: Set<TxHash>,
}

impl LedgerState {
    /// The state without wallets, roles or log.
    pub open spec fn empty() -> LedgerState {
        LedgerState {
            wallets: Map::empty(),
            issuers: Set::empty(),
            inspectors: Set::empty(),
            timestamps: Map::empty(),
            transactions: Map::empty(),
            cancelled: Set::empty(),
        }
    }

    /// The state with `w` stored under its own key.
    pub open spec fn with_wallet(self, w: Wallet) -> LedgerState {
        LedgerState { wallets: self.wallets.insert(w.pub_key, w), ..self }
    }

    /// The state with `w` stored under `key`.
    pub open spec fn updated(self, key: PublicKey, w: Wallet) -> LedgerState {
        LedgerState { wallets: self.wallets.insert(key, w), ..self }
    }

    /// The state after `amount` was added to the available balance of the
    /// wallet `key`, which is the receiver.
    pub open spec fn credited(self, key: PublicKey, amount: u64, hash: TxHash) -> Result<
        LedgerState,
        Error,
    > {
        if !self.wallets.contains_key(key) {
            Err(Error::ReceiverNotFound)
        } else {
            match self.wallets[key].increase_spec(amount, hash) {
                Ok(w) => Ok(self.updated(key, w)),
                Err(e) => Err(e),
            }
        }
    }

    /// The state after `amount` was taken from the available balance of the
    /// wallet `key`, which is the sender.
    pub open spec fn debited(self, key: PublicKey, amount: u64, hash: TxHash) -> Result<
        LedgerState,
        Error,
    > {
        if !self.wallets.contains_key(key) {
            Err(Error::SenderNotFound)
        } else {
            match self.wallets[key].decrease_spec(amount, hash) {
                Ok(w) => Ok(self.updated(key, w)),
                Err(e) => Err(e),
            }
        }
    }

    /// The state after `key` was granted the role that `user_type` selects.
    pub open spec fn with_role(self, key: PublicKey, user_type: u64) -> LedgerState {
        LedgerState {
            issuers: if user_type == ISSUER {
                self.issuers.insert(key)
            } else {
                self.issuers
            },
            inspectors: if user_type == INSPECTOR {
                self.inspectors.insert(key)
            } else {
                self.inspectors
            },
            ..self
        }
    }

    /// The state after the operation `hash` was logged as applied at `time`.
    pub open spec fn recorded(self, hash: TxHash, time: i64, entry: LogEntry) -> LedgerState {
        LedgerState {
            timestamps: self.timestamps.insert(hash, time),
            transactions: self.transactions.insert(hash, entry),
            ..self
        }
    }

    /// The state after `amount` went from the available balance of the
    /// sender `payer` to that of the receiver `payee`; the debit comes first.
    pub open spec fn moved(self, payer: PublicKey, payee: PublicKey, amount: u64, hash: TxHash) -> Result<
        LedgerState,
        Error,
    > {
        if !self.wallets.contains_key(payer) {
            Err(Error::SenderNotFound)
        } else if !self.wallets.contains_key(payee) {
            Err(Error::ReceiverNotFound)
        } else if self.wallets[payer].balance < amount {
            Err(Error::InsufficientCurrencyAmount)
        } else {
            let debited = self.wallets.insert(payer, self.wallets[payer].debited(amount, hash));
            if debited[payee].balance + amount > u64::MAX {
                Err(Error::BalanceOverflow)
            } else {
                Ok(
                    LedgerState {
                        wallets: debited.insert(payee, debited[payee].credited(amount, hash)),
                        ..self
                    },
                )
            }
        }
    }

    /// The available balance of `key`; zero where there is no such wallet.
    pub open spec fn balance(self, key: PublicKey) -> int {
        if self.wallets.contains_key(key) {
            self.wallets[key].balance as int
        } else {
            0
        }
    }

    /// The frozen balance of `key`; zero where there is no such wallet.
    pub open spec fn freezed_balance(self, key: PublicKey) -> int {
        if self.wallets.contains_key(key) {
            self.wallets[key].freezed_balance as int
        } else {
            0
        }
    }
}

/// The ledger that operations read and change.
#[derive(Clone, Debug, PartialEq, Eq)]
pub struct Ledger {
    wallets: Table<PublicKey, Wallet>,
    issuers: Table<PublicKey, ()>,
    inspectors: Table<PublicKey, ()>,
    timestamps: Table<TxHash, i64>,
    transactions: Table<TxHash, LogEntry>,
    cancelled: Table<TxHash, ()>,
}

impl Ledger {
    /// The tables are well formed and every wallet is stored under its own key.
    pub closed spec fn wf(&self) -> bool {
        &&& self.wallets.wf()
        &&& self.issuers.wf()
        &&& self.inspectors.wf()
        &&& self.timestamps.wf()
        &&& self.transactions.wf()
        &&& self.cancelled.wf()
        &&& forall|k: PublicKey| #[trigger]
            self.wallets@.contains_key(k) ==> self.wallets@[k].pub_key == k
    }

    /// The content of the ledger.
    pub closed spec fn view(&self) -> LedgerState {
        LedgerState {
            wallets: self.wallets@,
            issuers: self.issuers@.dom(),
            inspectors: self.inspectors@.dom(),
            timestamps: self.timestamps@,
            transactions: self.transactions@,
            cancelled: self.cancelled@.dom(),
        }
    }

    /// An empty ledger.
    pub fn new() -> (r: Ledger)
        ensures
            r.wf(),
            r@ == LedgerState::empty(),
    {
        let r = Ledger {
            wallets: Table::new(),
            issuers: Table::new(),
            inspectors: Table::new(),
            timestamps: Table::new(),
            transactions: Table::new(),
            cancelled: Table::new(),
        };
        proof {
            assert(r.issuers@.dom() =~= Set::<PublicKey>::empty());
            assert(r.inspectors@.dom() =~= Set::<PublicKey>::empty());
            assert(r.cancelled@.dom() =~= Set::<TxHash>::empty());
        }
        r
    }

    /// The wallet of `key`, if there is one.
    pub fn wallet(&self, key: &PublicKey) -> (r: Option<&Wallet>)
        requires
            self.wf(),
        ensures
            match r {
                Some(w) => self@.wallets.contains_key(*key) && *w == self@.wallets[*key] && w.pub_key
                    == *key,
                None => !self@.wallets.contains_key(*key),
            },
    {
        self.wallets.get(key)
    }

    /// Stores `w` under its key, in place of the wallet that was there.
    pub fn put_wallet(&mut self, w: Wallet)
        requires
            old(self).wf(),
        ensures
            final(self).wf(),
            final(self)@ == old(self)@.with_wallet(w),
    {
        let key = w.pub_key;
        self.wallets.put(key, w);
    }

    /// Whether `key` may issue.
    pub fn is_issuer(&self, key: &PublicKey) -> (r: bool)
        requires
            self.wf(),
        ensures
            r == self@.issuers.contains(*key),
    {
        self.issuers.contains(key)
    }

    /// Whether `key` may decide on escrows and order compensations.
    pub fn is_inspector(&self, key: &PublicKey) -> (r: bool)
        requires
            self.wf(),
        ensures
            r == self@.inspectors.contains(*key),
    {
        self.inspectors.contains(key)
    }

    /// Grants `key` the role that `user_type` selects, if it selects one.
    pub fn add_role(&mut self, key: &PublicKey, user_type: u64)
        requires
            old(self).wf(),
        ensures
            final(self).wf(),
            final(self)@ == old(self)@.with_role(*key, user_type),
    {
        if user_type == INSPECTOR {
            self.inspectors.put(*key, ());
            proof {
                assert(self.inspectors@.dom() =~= old(self).inspectors@.dom().insert(*key));
            }
        } else if user_type == ISSUER {
            self.issuers.put(*key, ());
            proof {
                assert(self.issuers@.dom() =~= old(self).issuers@.dom().insert(*key));
            }
        }
    }

    /// The time at which the operation `hash` was applied, if it is logged.
    pub fn timestamp(&self, hash: &TxHash) -> (r: Option<i64>)
        requires
            self.wf(),
        ensures
            r == (if self@.timestamps.contains_key(*hash) {
                Some(self@.timestamps[*hash])
            } else {
                None
            }),
    {
        match self.timestamps.get(hash) {
            Some(t) => Some(*t),
            None => None,
        }
    }

    /// The log entry of the operation `hash`, if it is logged.
    pub fn transaction(&self, hash: &TxHash) -> (r: Option<LogEntry>)
        requires
            self.wf(),
        ensures
            r == (if self@.transactions.contains_key(*hash) {
                Some(self@.transactions[*hash])
            } else {
                None
            }),
    {
        match self.transactions.get(hash) {
            Some(e) => Some(*e),
            None => None,
        }
    }

    /// Logs the operation `hash` as applied at `time`.
    pub fn record(&mut self, hash: &TxHash, time: i64, entry: LogEntry)
        requires
            old(self).wf(),
        ensures
            final(self).wf(),
            final(self)@ == old(self)@.recorded(*hash, time, entry),
    {
        self.timestamps.put(*hash, time);
        self.transactions.put(*hash, entry);
    }

    /// Whether the operation `hash` has been compensated.
    pub fn is_cancelled(&self, hash: &TxHash) -> (r: bool)
        requires
            self.wf(),
        ensures
            r == self@.cancelled.contains(*hash),
    {
        self.cancelled.contains(hash)
    }

    /// Notes that the operation `hash` has been compensated.
    pub fn mark_cancelled(&mut self, hash: &TxHash)
        requires
            old(self).wf(),
        ensures
            final(self).wf(),
            final(self)@ == (LedgerState {
                cancelled: old(self)@.cancelled.insert(*hash),
                ..old(self)@
            }),
    {
        self.cancelled.put(*hash, ());
        proof {
            assert(self.cancelled@.dom() =~= old(self).cancelled@.dom().insert(*hash));
        }
    }

    /// The keys of all wallets, each once.
    pub fn wallet_keys(&self) -> (r: Vec<PublicKey>)
        requires
            self.wf(),
        ensures
            r@.no_duplicates(),
            r@.to_set() == self@.wallets.dom(),
    {
        self.wallets.keys()
    }

    /// The keys of all issuers, each once.
    pub fn issuer_keys(&self) -> (r: Vec<PublicKey>)
        requires
            self.wf(),
        ensures
            r@.no_duplicates(),
            r@.to_set() == self@.issuers,
    {
        self.issuers.keys()
    }

    /// The keys of all inspectors, each once.
    pub fn inspector_keys(&self) -> (r: Vec<PublicKey>)
        requires
            self.wf(),
        ensures
            r@.no_duplicates(),
            r@.to_set() == self@.inspectors,
    {
        self.inspectors.keys()
    }

    /// The hashes of all logged operations, each once.
    pub fn logged_hashes(&self) -> (r: Vec<TxHash>)
        requires
            self.wf(),
        ensures
            r@.no_duplicates(),
            r@.to_set() == self@.transactions.dom(),
    {
        self.transactions.keys()
    }

    /// The hashes of all compensated operations, each once.
    pub fn cancelled_hashes(&self) -> (r: Vec<TxHash>)
        requires
            self.wf(),
        ensures
            r@.no_duplicates(),
            r@.to_set() == self@.cancelled,
    {
        self.cancelled.keys()
    }

    /// Adds `amount` to the available balance of the wallet `key`, stamping
    /// it with `hash`; fails with `ReceiverNotFound` where there is no such
    /// wallet. On an error nothing changes.
    pub fn increase_wallet_balance(&mut self, key: &PublicKey, amount: u64, hash: &TxHash) -> (r: Result<
        (),
        Error,
    >)
        requires
            old(self).wf(),
        ensures
            final(self).wf(),
            match old(self)@.credited(*key, amount, *hash) {
                Ok(s) => r is Ok && final(self)@ == s,
                Err(e) => r == Err::<(), Error>(e) && *final(self) == *old(self),
            },
    {
        let credited = match self.wallets.get(key) {
            Some(w) => w.increase(amount, hash),
            None => Err(Error::ReceiverNotFound),
        };
        match credited {
            Ok(w) => {
                self.wallets.put(*key, w);
                Ok(())
            },
            Err(e) => Err(e),
        }
    }

    /// Takes `amount` from the available balance of the wallet `key`,
    /// stamping it with `hash`; fails with `SenderNotFound` where there is no
    /// such wallet. On an error nothing changes.
    pub fn decrease_wallet_balance(&mut self, key: &PublicKey, amount: u64, hash: &TxHash) -> (r: Result<
        (),
        Error,
    >)
        requires
            old(self).wf(),
        ensures
            final(self).wf(),
            match old(self)@.debited(*key, amount, *hash) {
                Ok(s) => r is Ok && final(self)@ == s,
                Err(e) => r == Err::<(), Error>(e) && *final(self) == *old(self),
            },
    {
        let debited = match self.wallets.get(key) {
            Some(w) => w.decrease(amount, hash),
            None => Err(Error::SenderNotFound),
        };
        match debited {
            Ok(w) => {
                self.wallets.put(*key, w);
                Ok(())
            },
            Err(e) => Err(e),
        }
    }

    /// Moves `amount` from the available balance of `payer` to that of
    /// `payee`, stamping both with `hash`; fails with `SenderNotFound` or
    /// `ReceiverNotFound` where one of them has no wallet. On an error
    /// nothing changes.
    pub fn move_funds(&mut self, payer: &PublicKey, payee: &PublicKey, amount: u64, hash: &TxHash) -> (r:
        Result<(), Error>)
        requires
            old(self).wf(),
        ensures
            final(self).wf(),
            match old(self)@.moved(*payer, *payee, amount, *hash) {
                Ok(s) => r is Ok && final(self)@ == s,
                Err(e) => r == Err::<(), Error>(e) && *final(self) == *old(self),
            },
    {
        let sender = match self.wallets.get(payer) {
            Some(w) => w,
            None => {
                return Err(Error::SenderNotFound);
            },
        };
        if !self.wallets.contains(payee) {
            return Err(Error::ReceiverNotFound);
        }
        let debited = match sender.decrease(amount, hash) {
            Ok(d) => d,
            Err(e) => {
                return Err(e);
            },
        };
        let credited = if payer.same(payee) {
            debited.increase(amount, hash)
        } else {
            match self.wallets.get(payee) {
                Some(w) => w.increase(amount, hash),
                None => Err(Error::ReceiverNotFound),
            }
        };
        match credited {
            Ok(c) => {
                if !payer.same(payee) {
                    self.wallets.put(*payer, debited);
                }
                self.wallets.put(*payee, c);
                proof {
                    let s = old(self)@.moved(*payer, *payee, amount, *hash)->Ok_0;
                    assert(self@.wallets =~= s.wallets);
                }
                Ok(())
            },
            Err(e) => Err(e),
        }
    }
}

} // verus!
