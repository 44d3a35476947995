//! Laws that hold of the operations, stated over the content of the ledger.

use vstd::prelude::*;
use crate::keys::{PublicKey, TxHash};
use crate::ledger::{LedgerState, LogEntry};
use crate::transactions::{
    Cancellation, Issue, MailAcceptance, MailPreparation, Transfer, WalletTransactions,
    INITIAL_BALANCE,
};

verus! {

/// All that the wallet `key` holds: its available and its frozen balance.
pub open spec fn holdings(s: LedgerState, key: PublicKey) -> int {
    s.balance(key) + s.freezed_balance(key)
}

/// The sum of the holdings of the wallets named in `keys`.
pub open spec fn total(s: LedgerState, keys: Seq<PublicKey>) -> int
    decreases keys.len(),
{
    if keys.len() == 0 {
        0
    } else {
        total(s, keys.drop_last()) + holdings(s, keys.last())
    }
}

/// `keys` names every wallet of `s`, each key once.
pub open spec fn lists_all_wallets(s: LedgerState, keys: Seq<PublicKey>) -> bool {
    &&& keys.no_duplicates()
    &&& forall|k: PublicKey| s.wallets.contains_key(k) ==> keys.contains(k)
}

/// Where two states differ in the holdings of the one wallet `key` only, and
/// there by `delta`, the totals over a list that names `key` once differ by
/// `delta`, and those over a list without `key` are equal.
pub proof fn lemma_total_after_change(
    s: LedgerState,
    t: LedgerState,
    keys: Seq<PublicKey>,
    key: PublicKey,
    delta: int,
)
    requires
        keys.no_duplicates(),
        holdings(t, key) == holdings(s, key) + delta,
        forall|k: PublicKey| k != key ==> holdings(t, k) == holdings(s, k),
    ensures
        total(t, keys) == total(s, keys) + (if keys.contains(key) {
            delta
        } else {
            0
        }),
    decreases keys.len(),
{
    if keys.len() > 0 {
        let rest = keys.drop_last();
        let last = keys.last();
        assert(rest.no_duplicates());
        lemma_total_after_change(s, t, rest, key, delta);
        if last == key {
            assert(keys.contains(key));
            if rest.contains(key) {
                let i = choose|i: int| 0 <= i < rest.len() && rest[i] == key;
                assert(keys[i] == keys[keys.len() - 1]);
            }
        } else {
            if keys.contains(key) {
                let i = choose|i: int| 0 <= i < keys.len() && keys[i] == key;
                assert(rest[i] == key);
            } else if rest.contains(key) {
                let i = choose|i: int| 0 <= i < rest.len() && rest[i] == key;
                assert(keys[i] == key);
            }
        }
    }
}

/// No balance is ever negative: in every state, the available and the frozen
/// balance of every key are at least zero.
pub proof fn lemma_balances_never_negative(s: LedgerState, key: PublicKey)
    ensures
        s.balance(key) >= 0,
        s.freezed_balance(key) >= 0,
{
}

/// A successful transfer takes exactly `amount` from the available balance of
/// the sender, never more than was available, adds it to that of the
/// receiver, and leaves the total of all holdings as it was.
pub proof fn lemma_transfer_conserves_total(
    op: Transfer,
    s: LedgerState,
    hash: TxHash,
    time: Option<i64>,
    keys: Seq<PublicKey>,
)
    requires
        op.outcome(s, hash, time) is Ok,
        lists_all_wallets(s, keys),
    ensures
        op.amount <= s.balance(op.from),
        op.from != op.to ==> op.outcome(s, hash, time)->Ok_0.balance(op.from) == s.balance(op.from)
            - op.amount,
        op.from != op.to ==> op.outcome(s, hash, time)->Ok_0.balance(op.to) == s.balance(op.to)
            + op.amount,
        total(op.outcome(s, hash, time)->Ok_0, keys) == total(s, keys),
{
    lemma_moved_conserves_total(s, op.from, op.to, op.amount, hash, keys);
    let m = s.moved(op.from, op.to, op.amount, hash)->Ok_0;
    let t = op.outcome(s, hash, time)->Ok_0;
    assert(t.wallets == m.wallets);
    lemma_total_depends_on_wallets(m, t, keys);
}

/// The total depends on the wallets alone.
pub proof fn lemma_total_depends_on_wallets(s: LedgerState, t: LedgerState, keys: Seq<PublicKey>)
    requires
        s.wallets == t.wallets,
    ensures
        total(s, keys) == total(t, keys),
    decreases keys.len(),
{
    if keys.len() > 0 {
        lemma_total_depends_on_wallets(s, t, keys.drop_last());
    }
}

/// Moving funds between two existing wallets leaves the total as it was.
pub proof fn lemma_moved_conserves_total(
    s: LedgerState,
    payer: PublicKey,
    payee: PublicKey,
    amount: u64,
    hash: TxHash,
    keys: Seq<PublicKey>,
)
    requires
        s.moved(payer, payee, amount, hash) is Ok,
        lists_all_wallets(s, keys),
    ensures
        total(s.moved(payer, payee, amount, hash)->Ok_0, keys) == total(s, keys),
{
    let m = s.updated(payer, s.wallets[payer].debited(amount, hash));
    let t = s.moved(payer, payee, amount, hash)->Ok_0;
    lemma_total_after_change(s, m, keys, payer, -(amount as int));
    lemma_total_after_change(m, t, keys, payee, amount as int);
}

/// A successful issue adds exactly `amount` to the total of all holdings.
pub proof fn lemma_issue_adds_amount(
    op: Issue,
    s: LedgerState,
    hash: TxHash,
    time: Option<i64>,
    keys: Seq<PublicKey>,
)
    requires
        op.outcome(s, hash, time) is Ok,
        lists_all_wallets(s, keys),
    ensures
        op.outcome(s, hash, time)->Ok_0.balance(op.pub_key) == s.balance(op.pub_key) + op.amount,
        total(op.outcome(s, hash, time)->Ok_0, keys) == total(s, keys) + op.amount,
{
    let t = op.outcome(s, hash, time)->Ok_0;
    lemma_total_after_change(s, t, keys, op.pub_key, op.amount as int);
}

/// A successful preparation of an escrow moves `amount` from the available to
/// the frozen balance and leaves the total of all holdings as it was.
pub proof fn lemma_preparation_conserves_total(
    op: MailPreparation,
    s: LedgerState,
    hash: TxHash,
    time: Option<i64>,
    keys: Seq<PublicKey>,
)
    requires
        op.outcome(s, hash, time) is Ok,
        lists_all_wallets(s, keys),
    ensures
        op.outcome(s, hash, time)->Ok_0.balance(op.pub_key) == s.balance(op.pub_key) - op.amount,
        op.outcome(s, hash, time)->Ok_0.freezed_balance(op.pub_key) == s.freezed_balance(op.pub_key)
            + op.amount,
        total(op.outcome(s, hash, time)->Ok_0, keys) == total(s, keys),
{
    let t = op.outcome(s, hash, time)->Ok_0;
    lemma_total_after_change(s, t, keys, op.pub_key, 0);
}

/// A successful rejection of an escrow leaves the total of all holdings as it
/// was.
pub proof fn lemma_rejection_conserves_total(
    op: MailAcceptance,
    s: LedgerState,
    hash: TxHash,
    time: Option<i64>,
    keys: Seq<PublicKey>,
)
    requires
        !op.accept,
        op.outcome(s, hash, time) is Ok,
        lists_all_wallets(s, keys),
    ensures
        total(op.outcome(s, hash, time)->Ok_0, keys) == total(s, keys),
{
    let t = op.outcome(s, hash, time)->Ok_0;
    lemma_total_after_change(s, t, keys, op.sender_key, 0);
}

/// A successful compensation of a transfer leaves the total of all holdings
/// as it was.
pub proof fn lemma_compensated_transfer_conserves_total(
    op: Cancellation,
    s: LedgerState,
    hash: TxHash,
    time: Option<i64>,
    keys: Seq<PublicKey>,
)
    requires
        op.outcome(s, hash, time) is Ok,
        s.transactions[op.tx_hash] is Transfer,
        lists_all_wallets(s, keys),
    ensures
        total(op.outcome(s, hash, time)->Ok_0, keys) == total(s, keys),
{
    let entry = s.transactions[op.tx_hash];
    let t = op.outcome(s, hash, time)->Ok_0;
    match entry {
        LogEntry::Transfer { from, to, amount } => {
            lemma_moved_conserves_total(s, to, from, amount, op.tx_hash, keys);
            let m = s.moved(to, from, amount, op.tx_hash)->Ok_0;
            assert(t.wallets == m.wallets);
            lemma_total_depends_on_wallets(m, t, keys);
        },
        _ => {},
    }
}

/// An operation is compensated at most once: after a successful compensation
/// of an operation, every further compensation of the same operation fails,
/// whoever orders it and whenever, so nothing is credited a second time.
pub proof fn lemma_second_compensation_fails(
    first: Cancellation,
    second: Cancellation,
    s: LedgerState,
    first_hash: TxHash,
    first_time: Option<i64>,
    second_hash: TxHash,
    second_time: Option<i64>,
)
    requires
        first.outcome(s, first_hash, first_time) is Ok,
        second.tx_hash == first.tx_hash,
    ensures
        first.outcome(s, first_hash, first_time)->Ok_0.cancelled.contains(first.tx_hash),
        second.outcome(first.outcome(s, first_hash, first_time)->Ok_0, second_hash, second_time) is Err,
{
}

/// A preparation of an escrow followed by its rejection gives the originator
/// back all that was frozen: the available balance is then what it was before
/// the preparation plus what was frozen before it, and nothing stays frozen.
/// For a wallet with nothing frozen before, the available balance is exactly
/// what it was.
pub proof fn lemma_rejection_undoes_preparation(
    preparation: MailPreparation,
    rejection: MailAcceptance,
    s: LedgerState,
    preparation_hash: TxHash,
    preparation_time: Option<i64>,
    rejection_hash: TxHash,
    rejection_time: Option<i64>,
)
    requires
        rejection.sender_key == preparation.pub_key,
        !rejection.accept,
        preparation.outcome(s, preparation_hash, preparation_time) is Ok,
        rejection.outcome(
            preparation.outcome(s, preparation_hash, preparation_time)->Ok_0,
            rejection_hash,
            rejection_time,
        ) is Ok,
    ensures
        ({
            let after = rejection.outcome(
                preparation.outcome(s, preparation_hash, preparation_time)->Ok_0,
                rejection_hash,
                rejection_time,
            )->Ok_0;
            let key = preparation.pub_key;
            &&& after.balance(key) == s.balance(key) + s.freezed_balance(key)
            &&& after.freezed_balance(key) == 0
            &&& s.freezed_balance(key) == 0 ==> after.balance(key) == s.balance(key)
        }),
{
}

/// Nothing is taken back: a successful operation removes no wallet, changes
/// no display name, revokes no role, and leaves the log entry and the
/// timestamp of every other operation as they were; and it is itself logged
/// under its hash with the time at which it was applied.
pub proof fn lemma_history_only_grows(
    op: WalletTransactions,
    s: LedgerState,
    hash: TxHash,
    time: Option<i64>,
)
    requires
        op.outcome(s, hash, time) is Ok,
    ensures
        ({
            let t = op.outcome(s, hash, time)->Ok_0;
            &&& forall|k: PublicKey| #[trigger]
                s.wallets.contains_key(k) ==> t.wallets.contains_key(k) && t.wallets[k].name
                    == s.wallets[k].name
            &&& s.issuers.subset_of(t.issuers)
            &&& s.inspectors.subset_of(t.inspectors)
            &&& s.cancelled.subset_of(t.cancelled)
            &&& forall|h: TxHash| #[trigger]
                s.timestamps.contains_key(h) ==> t.timestamps.contains_key(h) && (h != hash
                    ==> t.timestamps[h] == s.timestamps[h])
            &&& forall|h: TxHash| #[trigger]
                s.transactions.contains_key(h) ==> t.transactions.contains_key(h) && (h != hash
                    ==> t.transactions[h] == s.transactions[h])
            &&& time is Some
            &&& t.timestamps.contains_key(hash) && t.timestamps[hash] == time->Some_0
            &&& t.transactions.contains_key(hash) && t.transactions[hash] == op.logged()
        }),
{
}

/// By how much the compensation of the logged operation `entry` changes the
/// total of all holdings: a compensated issue is taken out of circulation, a
/// compensated escrow is credited to its originator, a compensated transfer
/// only changes hands.
pub open spec fn compensation_delta(entry: LogEntry) -> int {
    match entry {
        LogEntry::Issue { amount, .. } => -(amount as int),
        LogEntry::MailPreparation { amount, .. } => amount as int,
        LogEntry::MailAcceptance { amount, accept, .. } => if accept {
            amount as int
        } else {
            0
        },
        _ => 0,
    }
}

/// By how much the successful operation `op` changes the total of all
/// holdings of the state `s`: transfers, preparations and rejections of an
/// escrow change nothing; an issue adds its amount and a creation the
/// starting balance; an accepted escrow is spent.
pub open spec fn value_delta(op: WalletTransactions, s: LedgerState) -> int {
    match op {
        WalletTransactions::Transfer(_) => 0,
        WalletTransactions::Issue(op) => op.amount as int,
        WalletTransactions::CreateWallet(_) => INITIAL_BALANCE as int,
        WalletTransactions::MailPreparation(_) => 0,
        WalletTransactions::MailAcceptance(op) => if op.accept {
            -s.freezed_balance(op.sender_key)
        } else {
            0
        },
        WalletTransactions::Cancellation(op) => compensation_delta(s.transactions[op.tx_hash]),
    }
}

/// The total of all holdings changes with a successful operation by exactly
/// what the kind of the operation says, and by nothing else.
pub proof fn lemma_total_changes_by_kind(
    op: WalletTransactions,
    s: LedgerState,
    hash: TxHash,
    time: Option<i64>,
    keys: Seq<PublicKey>,
)
    requires
        op.outcome(s, hash, time) is Ok,
        lists_all_wallets(op.outcome(s, hash, time)->Ok_0, keys),
    ensures
        total(op.outcome(s, hash, time)->Ok_0, keys) == total(s, keys) + value_delta(op, s),
{
    let t = op.outcome(s, hash, time)->Ok_0;
    lemma_history_only_grows(op, s, hash, time);
    assert(lists_all_wallets(s, keys));
    match op {
        WalletTransactions::Transfer(x) => {
            lemma_transfer_conserves_total(x, s, hash, time, keys);
        },
        WalletTransactions::Issue(x) => {
            lemma_issue_adds_amount(x, s, hash, time, keys);
        },
        WalletTransactions::CreateWallet(x) => {
            assert(t.wallets.contains_key(x.pub_key));
            lemma_total_after_change(s, t, keys, x.pub_key, INITIAL_BALANCE as int);
        },
        WalletTransactions::MailPreparation(x) => {
            lemma_preparation_conserves_total(x, s, hash, time, keys);
        },
        WalletTransactions::MailAcceptance(x) => {
            if x.accept {
                lemma_total_after_change(s, t, keys, x.sender_key, -s.freezed_balance(x.sender_key));
            } else {
                lemma_rejection_conserves_total(x, s, hash, time, keys);
            }
        },
        WalletTransactions::Cancellation(x) => {
            match s.transactions[x.tx_hash] {
                LogEntry::Transfer { .. } => {
                    lemma_compensated_transfer_conserves_total(x, s, hash, time, keys);
                },
                LogEntry::Issue { pub_key, amount } => {
                    lemma_total_after_change(s, t, keys, pub_key, -(amount as int));
                },
                LogEntry::MailPreparation { pub_key, amount } => {
                    lemma_total_after_change(s, t, keys, pub_key, amount as int);
                },
                LogEntry::MailAcceptance { sender_key, amount, accept } => {
                    if accept {
                        lemma_total_after_change(s, t, keys, sender_key, amount as int);
                    } else {
                        lemma_total_depends_on_wallets(s, t, keys);
                    }
                },
                _ => {},
            }
        },
    }
}

} // verus!
