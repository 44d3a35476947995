//! Wallets and the primitive balance operations on them.

use vstd::prelude::*;
use crate::error::Error;
use crate::keys::{TxHash, PublicKey};

verus! {

/// A balance-holding account. Both balances are unsigned, so neither can
/// ever be negative.
#[derive(Clone, Debug, PartialEq, Eq)]
pub struct Wallet {
    /// The key that identifies the wallet.
    pub pub_key: PublicKey,
    /// Display name, fixed at creation.
    pub name: String,
    /// Funds that the owner can spend.
    pub balance: u64,
    /// Funds held in escrow until an inspector accepts or rejects them.
    pub freezed_balance: u64,
    /// TxHash of the operation that touched the wallet last.
    pub history_hash: TxHash,
}

impl Wallet {
    /// The wallet with `amount` added to its available balance.
    pub open spec fn credited(self, amount: u64, hash: TxHash) -> Wallet {
        Wallet { balance: (self.balance + amount) as u64, history_hash: hash, ..self }
    }

    /// The wallet with `amount` taken from its available balance.
    pub open spec fn debited(self, amount: u64, hash: TxHash) -> Wallet {
        Wallet { balance: (self.balance - amount) as u64, history_hash: hash, ..self }
    }

    /// The wallet with `amount` moved from its available into its frozen balance.
    pub open spec fn frozen(self, amount: u64, hash: TxHash) -> Wallet {
        Wallet {
            balance: (self.balance - amount) as u64,
            freezed_balance: (self.freezed_balance + amount) as u64,
            history_hash: hash,
            ..self
        }
    }

    /// The wallet with its frozen balance given up.
    pub open spec fn released(self, hash: TxHash) -> Wallet {
        Wallet { freezed_balance: 0, history_hash: hash, ..self }
    }

    /// The wallet with its whole frozen balance moved back to the available one.
    pub open spec fn restored(self, hash: TxHash) -> Wallet {
        Wallet {
            balance: (self.balance + self.freezed_balance) as u64,
            freezed_balance: 0,
            history_hash: hash,
            ..self
        }
    }

    /// What `increase` returns.
    pub open spec fn increase_spec(self, amount: u64, hash: TxHash) -> Result<Wallet, Error> {
        if self.balance + amount > u64::MAX {
            Err(Error::BalanceOverflow)
        } else {
            Ok(self.credited(amount, hash))
        }
    }

    /// What `decrease` returns.
    pub open spec fn decrease_spec(self, amount: u64, hash: TxHash) -> Result<Wallet, Error> {
        if self.balance < amount {
            Err(Error::InsufficientCurrencyAmount)
        } else {
            Ok(self.debited(amount, hash))
        }
    }

    /// What `freeze` returns.
    pub open spec fn freeze_spec(self, amount: u64, hash: TxHash) -> Result<Wallet, Error> {
        if self.balance < amount {
            Err(Error::InsufficientCurrencyAmount)
        } else if self.freezed_balance + amount > u64::MAX {
            Err(Error::BalanceOverflow)
        } else {
            Ok(self.frozen(amount, hash))
        }
    }

    /// What `restore` returns.
    pub open spec fn restore_spec(self, hash: TxHash) -> Result<Wallet, Error> {
        if self.balance + self.freezed_balance > u64::MAX {
            Err(Error::BalanceOverflow)
        } else {
            Ok(self.restored(hash))
        }
    }

    /// A wallet with the given available balance and nothing frozen.
    pub fn new(pub_key: &PublicKey, name: &str, balance: u64, history_hash: &TxHash) -> (r: Wallet)
        ensures
            r.pub_key == *pub_key,
            r.name@ == name@,
            r.balance == balance,
            r.freezed_balance == 0,
            r.history_hash == *history_hash,
    {
        Wallet {
            pub_key: *pub_key,
            name: name.to_owned(),
            balance,
            freezed_balance: 0,
            history_hash: *history_hash,
        }
    }

    /// The key that identifies the wallet.
    pub fn pub_key(&self) -> (r: &PublicKey)
        ensures
            *r == self.pub_key,
    {
        &self.pub_key
    }

    /// The display name.
    pub fn name(&self) -> (r: &str)
        ensures
            r@ == self.name@,
    {
        self.name.as_str()
    }

    /// The available balance.
    pub fn balance(&self) -> (r: u64)
        ensures
            r == self.balance,
    {
        self.balance
    }

    /// The frozen balance.
    pub fn freezed_balance(&self) -> (r: u64)
        ensures
            r == self.freezed_balance,
    {
        self.freezed_balance
    }

    /// TxHash of the operation that touched the wallet last.
    pub fn history_hash(&self) -> (r: &TxHash)
        ensures
            *r == self.history_hash,
    {
        &self.history_hash
    }

    /// An exact copy of the wallet.
    pub fn duplicate(&self) -> (r: Wallet)
        ensures
            r == *self,
    {
        Wallet {
            pub_key: self.pub_key,
            name: self.name.clone(),
            balance: self.balance,
            freezed_balance: self.freezed_balance,
            history_hash: self.history_hash,
        }
    }

    /// Adds `amount` to the available balance and stamps the wallet with
    /// `hash`; fails with `BalanceOverflow` exactly when the sum does not fit.
    pub fn increase(&self, amount: u64, hash: &TxHash) -> (r: Result<Wallet, Error>)
        ensures
            r == self.increase_spec(amount, *hash),
    {
        if amount > u64::MAX - self.balance {
            return Err(Error::BalanceOverflow);
        }
        Ok(
            Wallet {
                pub_key: self.pub_key,
                name: self.name.clone(),
                balance: self.balance + amount,
                freezed_balance: self.freezed_balance,
                history_hash: *hash,
            },
        )
    }

    /// Takes `amount` from the available balance and stamps the wallet with
    /// `hash`; fails with `InsufficientCurrencyAmount` exactly when the
    /// available balance is smaller than `amount`.
    pub fn decrease(&self, amount: u64, hash: &TxHash) -> (r: Result<Wallet, Error>)
        ensures
            r == self.decrease_spec(amount, *hash),
    {
        if self.balance < amount {
            return Err(Error::InsufficientCurrencyAmount);
        }
        Ok(
            Wallet {
                pub_key: self.pub_key,
                name: self.name.clone(),
                balance: self.balance - amount,
                freezed_balance: self.freezed_balance,
                history_hash: *hash,
            },
        )
    }

    /// Moves `amount` from the available balance into the frozen one.
    pub fn freeze(&self, amount: u64, hash: &TxHash) -> (r: Result<Wallet, Error>)
        ensures
            r == self.freeze_spec(amount, *hash),
    {
        if self.balance < amount {
            return Err(Error::InsufficientCurrencyAmount);
        }
        if amount > u64::MAX - self.freezed_balance {
            return Err(Error::BalanceOverflow);
        }
        Ok(
            Wallet {
                pub_key: self.pub_key,
                name: self.name.clone(),
                balance: self.balance - amount,
                freezed_balance: self.freezed_balance + amount,
                history_hash: *hash,
            },
        )
    }

    /// Gives up the frozen balance: it is spent, the available balance stays.
    pub fn release(&self, hash: &TxHash) -> (r: Wallet)
        ensures
            r == self.released(*hash),
    {
        Wallet {
            pub_key: self.pub_key,
            name: self.name.clone(),
            balance: self.balance,
            freezed_balance: 0,
            history_hash: *hash,
        }
    }

    /// Moves the whole frozen balance back into the available one.
    pub fn restore(&self, hash: &TxHash) -> (r: Result<Wallet, Error>)
        ensures
            r == self.restore_spec(*hash),
    {
        if self.freezed_balance > u64::MAX - self.balance {
            return Err(Error::BalanceOverflow);
        }
        Ok(
            Wallet {
                pub_key: self.pub_key,
                name: self.name.clone(),
                balance: self.balance + self.freezed_balance,
                freezed_balance: 0,
                history_hash: *hash,
            },
        )
    }
}

} // verus!
