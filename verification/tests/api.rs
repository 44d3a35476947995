//! Operations executed one after another against a ledger, observed through
//! wallet lookups.

use ledger_core::error::Error;
use ledger_core::keys::{PublicKey, TxHash};
use ledger_core::ledger::Ledger;
use ledger_core::transactions::{
    Cancellation, CreateWallet, Issue, MailAcceptance, MailPreparation, Transfer,
};
use ledger_core::wallet::Wallet;

const ALICE_NAME: &str = "Alice";
const BOB_NAME: &str = "Bob";
const JOHN_NAME: &str = "John";

/// The time of the first block of every test.
const START: i64 = 1_540_000_000;

/// A ledger with a clock and a source of fresh keys and hashes.
struct TestKit {
    ledger: Ledger,
    time: i64,
    keys: u8,
    hashes: u8,
}

impl TestKit {
    fn next_key(&mut self) -> PublicKey {
        self.keys += 1;
        PublicKey::new([self.keys; 32])
    }

    fn next_hash(&mut self) -> TxHash {
        self.hashes += 1;
        let mut bytes = [0xA5u8; 32];
        bytes[0] = self.hashes;
        TxHash::new(bytes)
    }

    /// Makes a wallet creation with a fresh key, without executing it.
    fn create_wallet(&mut self, name: &str, user: u64) -> (CreateWallet, TxHash) {
        let key = self.next_key();
        (CreateWallet::new(&key, name, user), self.next_hash())
    }

    /// Executes each of the creations at the current time.
    fn create_block(&mut self, txs: &[&(CreateWallet, TxHash)]) -> Vec<Result<(), Error>> {
        self.time += 1;
        let mut out = Vec::new();
        for (tx, hash) in txs.iter().map(|p| (&p.0, &p.1)) {
            assert!(tx.verify(true));
            out.push(tx.execute(&mut self.ledger, hash, Some(self.time)));
        }
        out
    }

    fn get_wallet(&self, key: &PublicKey) -> Option<Wallet> {
        self.ledger.wallet(key).cloned()
    }

    fn assert_no_wallet(&self, key: &PublicKey) {
        assert!(self.ledger.wallet(key).is_none());
    }

    fn transfer(&mut self, tx: &Transfer) -> (TxHash, Result<(), Error>) {
        self.time += 1;
        let hash = self.next_hash();
        assert!(tx.verify(true));
        let r = tx.execute(&mut self.ledger, &hash, Some(self.time));
        (hash, r)
    }

    fn issue(&mut self, tx: &Issue) -> (TxHash, Result<(), Error>) {
        self.time += 1;
        let hash = self.next_hash();
        assert!(tx.verify(true));
        let r = tx.execute(&mut self.ledger, &hash, Some(self.time));
        (hash, r)
    }

    fn preparation(&mut self, tx: &MailPreparation) -> (TxHash, Result<(), Error>) {
        self.time += 1;
        let hash = self.next_hash();
        assert!(tx.verify(true));
        let r = tx.execute(&mut self.ledger, &hash, Some(self.time));
        (hash, r)
    }

    fn acceptance(&mut self, tx: &MailAcceptance) -> (TxHash, Result<(), Error>) {
        self.time += 1;
        let hash = self.next_hash();
        assert!(tx.verify(true));
        let r = tx.execute(&mut self.ledger, &hash, Some(self.time));
        (hash, r)
    }

    fn cancellation(&mut self, tx: &Cancellation) -> (TxHash, Result<(), Error>) {
        self.time += 1;
        let hash = self.next_hash();
        assert!(tx.verify(true));
        let r = tx.execute(&mut self.ledger, &hash, Some(self.time));
        (hash, r)
    }
}

fn create_testkit() -> TestKit {
    TestKit { ledger: Ledger::new(), time: START, keys: 0, hashes: 0 }
}

fn assert_error(r: Result<(), Error>, code: u8, description: &str) {
    let e = r.unwrap_err();
    assert_eq!(e.code(), code);
    assert_eq!(e.description(), description);
}

#[test]
fn test_create_wallet() {
    let mut testkit = create_testkit();
    let user = 1;
    let tx = testkit.create_wallet(BOB_NAME, user);
    let status = testkit.create_block(&[&tx]);
    assert_eq!(status, vec![Ok(())]);

    let wallet = testkit.get_wallet(&tx.0.pub_key).unwrap();
    assert_eq!(wallet.pub_key(), &tx.0.pub_key);
    assert_eq!(wallet.name(), tx.0.name);
    assert_eq!(wallet.balance(), 100);
}

#[test]
fn test_issue() {
    let mut testkit = create_testkit();
    let tx_alice = testkit.create_wallet(ALICE_NAME, 0);
    let tx_bob = testkit.create_wallet(BOB_NAME, 2);

    let status = testkit.create_block(&[&tx_alice, &tx_bob]);
    assert_eq!(status, vec![Ok(()), Ok(())]);

    let wallet = testkit.get_wallet(&tx_alice.0.pub_key).unwrap();
    assert_eq!(wallet.balance(), 100);

    let tx = Issue::new(&tx_alice.0.pub_key, &tx_bob.0.pub_key, 11, 0);
    let (_, status) = testkit.issue(&tx);
    assert_eq!(status, Ok(()));
    let wallet = testkit.get_wallet(&tx_alice.0.pub_key).unwrap();
    assert_eq!(wallet.balance(), 111);
    let wallet = testkit.get_wallet(&tx_bob.0.pub_key).unwrap();
    assert_eq!(wallet.balance(), 100);
}

#[test]
fn test_acceptance() {
    let mut testkit = create_testkit();
    let tx_alice = testkit.create_wallet(ALICE_NAME, 0);
    let tx_bob = testkit.create_wallet(BOB_NAME, 1);
    let status = testkit.create_block(&[&tx_alice, &tx_bob]);
    assert_eq!(status, vec![Ok(()), Ok(())]);

    let wallet = testkit.get_wallet(&tx_alice.0.pub_key).unwrap();
    assert_eq!(wallet.balance(), 100);
    let wallet = testkit.get_wallet(&tx_bob.0.pub_key).unwrap();
    assert_eq!(wallet.balance(), 100);

    let meta = &String::new();
    let tx = MailPreparation::new(meta, &tx_alice.0.pub_key, 11, 0);
    let (_, status) = testkit.preparation(&tx);
    assert_eq!(status, Ok(()));
    let wallet = testkit.get_wallet(&tx_alice.0.pub_key).unwrap();
    assert_eq!(wallet.balance(), 89);
    let wallet = testkit.get_wallet(&tx_bob.0.pub_key).unwrap();
    assert_eq!(wallet.balance(), 100);

    let tx_accept = MailAcceptance::new(&tx_bob.0.pub_key, &tx_alice.0.pub_key, 11, false, 1);
    let (_, status) = testkit.acceptance(&tx_accept);
    assert_eq!(status, Ok(()));
    let wallet = testkit.get_wallet(&tx_alice.0.pub_key).unwrap();
    assert_eq!(wallet.balance(), 100);
    let wallet = testkit.get_wallet(&tx_bob.0.pub_key).unwrap();
    assert_eq!(wallet.balance(), 100);

    let meta = &String::new();
    let tx2 = MailPreparation::new(meta, &tx_alice.0.pub_key, 11, 2);
    let (_, status) = testkit.preparation(&tx2);
    assert_eq!(status, Ok(()));
    let wallet = testkit.get_wallet(&tx_alice.0.pub_key).unwrap();
    assert_eq!(wallet.balance(), 89);
    let wallet = testkit.get_wallet(&tx_bob.0.pub_key).unwrap();
    assert_eq!(wallet.balance(), 100);

    let tx3 = MailAcceptance::new(&tx_bob.0.pub_key, &tx_alice.0.pub_key, 11, true, 3);
    let (_, status) = testkit.acceptance(&tx3);
    assert_eq!(status, Ok(()));
    let wallet = testkit.get_wallet(&tx_alice.0.pub_key).unwrap();
    assert_eq!(wallet.balance(), 89);
    let wallet = testkit.get_wallet(&tx_bob.0.pub_key).unwrap();
    assert_eq!(wallet.balance(), 100);
}

#[test]
fn test_preparation() {
    let mut testkit = create_testkit();
    let tx_alice = testkit.create_wallet(ALICE_NAME, 0);
    let tx_bob = testkit.create_wallet(BOB_NAME, 0);
    let status = testkit.create_block(&[&tx_alice, &tx_bob]);
    assert_eq!(status, vec![Ok(()), Ok(())]);

    let wallet = testkit.get_wallet(&tx_alice.0.pub_key).unwrap();
    assert_eq!(wallet.balance(), 100);
    let wallet = testkit.get_wallet(&tx_bob.0.pub_key).unwrap();
    assert_eq!(wallet.balance(), 100);
    let meta = &String::new();
    let tx = MailPreparation::new(meta, &tx_alice.0.pub_key, 11, 0);

    let (_, status) = testkit.preparation(&tx);
    assert_eq!(status, Ok(()));

    let wallet = testkit.get_wallet(&tx_alice.0.pub_key).unwrap();
    assert_eq!(wallet.balance(), 89);
    let wallet = testkit.get_wallet(&tx_bob.0.pub_key).unwrap();
    assert_eq!(wallet.balance(), 100);
}

#[test]
fn test_transfer() {
    let mut testkit = create_testkit();
    let tx_alice = testkit.create_wallet(ALICE_NAME, 0);
    let tx_bob = testkit.create_wallet(BOB_NAME, 0);
    let status = testkit.create_block(&[&tx_alice, &tx_bob]);
    assert_eq!(status, vec![Ok(()), Ok(())]);

    let wallet = testkit.get_wallet(&tx_alice.0.pub_key).unwrap();
    assert_eq!(wallet.balance(), 100);
    let wallet = testkit.get_wallet(&tx_bob.0.pub_key).unwrap();
    assert_eq!(wallet.balance(), 100);

    let tx = Transfer::new(
        &tx_alice.0.pub_key,
        &tx_bob.0.pub_key,
        10, // transferred amount
        0,  // seed
    );
    let (_, status) = testkit.transfer(&tx);
    assert_eq!(status, Ok(()));

    let wallet = testkit.get_wallet(&tx_alice.0.pub_key).unwrap();
    assert_eq!(wallet.balance(), 90);
    let wallet = testkit.get_wallet(&tx_bob.0.pub_key).unwrap();
    assert_eq!(wallet.balance(), 110);
}

#[test]
fn test_transfer_from_nonexisting_wallet() {
    let mut testkit = create_testkit();

    let tx_alice = testkit.create_wallet(ALICE_NAME, 0);
    let tx_bob = testkit.create_wallet(BOB_NAME, 0);
    // Alice's creation is not executed, so her wallet does not exist when
    // the transfer occurs.
    testkit.create_block(&[&tx_bob]);

    testkit.assert_no_wallet(&tx_alice.0.pub_key);
    let wallet = testkit.get_wallet(&tx_bob.0.pub_key).unwrap();
    assert_eq!(wallet.balance(), 100);

    let tx = Transfer::new(&tx_alice.0.pub_key, &tx_bob.0.pub_key, 10, 0);
    let (_, status) = testkit.transfer(&tx);
    assert_error(status, 1, "Sender doesn't exist");

    let wallet = testkit.get_wallet(&tx_bob.0.pub_key).unwrap();
    assert_eq!(wallet.balance(), 100);
}

#[test]
fn test_transfer_to_nonexisting_wallet() {
    let mut testkit = create_testkit();

    let tx_alice = testkit.create_wallet(ALICE_NAME, 0);
    let tx_bob = testkit.create_wallet(BOB_NAME, 0);
    // Bob's creation is not executed, so his wallet does not exist when the
    // transfer occurs.
    testkit.create_block(&[&tx_alice]);

    let wallet = testkit.get_wallet(&tx_alice.0.pub_key).unwrap();
    assert_eq!(wallet.balance(), 100);
    testkit.assert_no_wallet(&tx_bob.0.pub_key);

    let tx = Transfer::new(&tx_alice.0.pub_key, &tx_bob.0.pub_key, 10, 0);
    let (_, status) = testkit.transfer(&tx);
    assert_error(status, 2, "Receiver doesn't exist");

    let wallet = testkit.get_wallet(&tx_alice.0.pub_key).unwrap();
    assert_eq!(wallet.balance(), 100);
}

#[test]
fn test_transfer_overcharge() {
    let mut testkit = create_testkit();

    let tx_alice = testkit.create_wallet(ALICE_NAME, 0);
    let tx_bob = testkit.create_wallet(BOB_NAME, 0);
    testkit.create_block(&[&tx_alice, &tx_bob]);

    // The transfer amount (110) is more than Alice has (100).
    let tx = Transfer::new(&tx_alice.0.pub_key, &tx_bob.0.pub_key, 110, 0);
    let (_, status) = testkit.transfer(&tx);
    assert_error(status, 3, "Insufficient currency amount");

    let wallet = testkit.get_wallet(&tx_alice.0.pub_key).unwrap();
    assert_eq!(wallet.balance(), 100);
    let wallet = testkit.get_wallet(&tx_bob.0.pub_key).unwrap();
    assert_eq!(wallet.balance(), 100);
}

#[test]
fn test_unknown_wallet_request() {
    let mut testkit = create_testkit();

    // The creation is made, but never executed.
    let tx = testkit.create_wallet(ALICE_NAME, 0);

    testkit.assert_no_wallet(&tx.0.pub_key);
}

#[test]
fn test_cancellation_transfer() {
    let mut testkit = create_testkit();
    let tx_alice = testkit.create_wallet(ALICE_NAME, 0);
    let tx_bob = testkit.create_wallet(BOB_NAME, 0);
    let tx_john = testkit.create_wallet(JOHN_NAME, 1);
    let status = testkit.create_block(&[&tx_alice, &tx_bob, &tx_john]);
    assert_eq!(status, vec![Ok(()), Ok(()), Ok(())]);

    let wallet = testkit.get_wallet(&tx_alice.0.pub_key).unwrap();
    assert_eq!(wallet.balance(), 100);
    let wallet = testkit.get_wallet(&tx_bob.0.pub_key).unwrap();
    assert_eq!(wallet.balance(), 100);
    let tx_transfer = Transfer::new(&tx_bob.0.pub_key, &tx_alice.0.pub_key, 60, 4);
    let (tx_hash, status) = testkit.transfer(&tx_transfer);
    assert_eq!(status, Ok(()));

    let wallet = testkit.get_wallet(&tx_alice.0.pub_key).unwrap();
    assert_eq!(wallet.balance(), 160);
    let wallet = testkit.get_wallet(&tx_bob.0.pub_key).unwrap();
    assert_eq!(wallet.balance(), 40);

    let tx = Cancellation::new(&tx_john.0.pub_key, &tx_bob.0.pub_key, &tx_hash);
    let (_, status) = testkit.cancellation(&tx);
    assert_eq!(status, Ok(()));

    let wallet = testkit.get_wallet(&tx_alice.0.pub_key).unwrap();
    assert_eq!(wallet.balance(), 100);
    let wallet = testkit.get_wallet(&tx_bob.0.pub_key).unwrap();
    assert_eq!(wallet.balance(), 100);
}

#[test]
fn test_cancellation_issue() {
    let mut testkit = create_testkit();
    let tx_alice = testkit.create_wallet(ALICE_NAME, 0);
    let tx_bob = testkit.create_wallet(BOB_NAME, 2);
    let tx_john = testkit.create_wallet(JOHN_NAME, 1);
    let status = testkit.create_block(&[&tx_alice, &tx_bob, &tx_john]);
    assert_eq!(status[0], Ok(()));
    assert_eq!(status[1], Ok(()));

    let wallet = testkit.get_wallet(&tx_alice.0.pub_key).unwrap();
    assert_eq!(wallet.balance(), 100);

    let tx_issue = Issue::new(&tx_alice.0.pub_key, &tx_bob.0.pub_key, 60, 4);
    let (tx_hash, status) = testkit.issue(&tx_issue);
    assert_eq!(status, Ok(()));

    let wallet = testkit.get_wallet(&tx_alice.0.pub_key).unwrap();
    assert_eq!(wallet.balance(), 160);

    let tx = Cancellation::new(&tx_john.0.pub_key, &tx_alice.0.pub_key, &tx_hash);
    let (_, status) = testkit.cancellation(&tx);
    assert_eq!(status, Ok(()));

    let wallet = testkit.get_wallet(&tx_alice.0.pub_key).unwrap();
    assert_eq!(wallet.balance(), 100);
    let wallet = testkit.get_wallet(&tx_bob.0.pub_key).unwrap();
    assert_eq!(wallet.balance(), 100);
}

#[test]
fn test_cancellation_mailpreparation() {
    let mut testkit = create_testkit();
    let tx_alice = testkit.create_wallet(ALICE_NAME, 0);
    let tx_bob = testkit.create_wallet(BOB_NAME, 1);
    let status = testkit.create_block(&[&tx_alice, &tx_bob]);
    assert_eq!(status, vec![Ok(()), Ok(())]);

    let wallet = testkit.get_wallet(&tx_alice.0.pub_key).unwrap();
    assert_eq!(wallet.balance(), 100);

    let meta = &String::new();
    let tx_preparation = MailPreparation::new(meta, &tx_alice.0.pub_key, 11, 0);
    let (tx_hash, status) = testkit.preparation(&tx_preparation);
    assert_eq!(status, Ok(()));

    let wallet = testkit.get_wallet(&tx_alice.0.pub_key).unwrap();
    assert_eq!(wallet.balance(), 89);

    let tx = Cancellation::new(&tx_bob.0.pub_key, &tx_alice.0.pub_key, &tx_hash);
    let (_, status) = testkit.cancellation(&tx);
    assert_eq!(status, Ok(()));

    let wallet = testkit.get_wallet(&tx_alice.0.pub_key).unwrap();
    assert_eq!(wallet.balance(), 100);
}

#[test]
fn test_cancellation_mailacceptance() {
    let mut testkit = create_testkit();
    let tx_alice = testkit.create_wallet(ALICE_NAME, 0);
    let tx_bob = testkit.create_wallet(BOB_NAME, 1);
    let status = testkit.create_block(&[&tx_alice, &tx_bob]);
    assert_eq!(status, vec![Ok(()), Ok(())]);

    let wallet = testkit.get_wallet(&tx_alice.0.pub_key).unwrap();
    assert_eq!(wallet.balance(), 100);

    let meta = &String::new();
    let tx_preparation = MailPreparation::new(meta, &tx_alice.0.pub_key, 11, 0);
    let (_, status) = testkit.preparation(&tx_preparation);
    assert_eq!(status, Ok(()));

    let wallet = testkit.get_wallet(&tx_alice.0.pub_key).unwrap();
    assert_eq!(wallet.balance(), 89);

    let tx_accept = MailAcceptance::new(&tx_bob.0.pub_key, &tx_alice.0.pub_key, 11, true, 1);
    let (tx_hash, status) = testkit.acceptance(&tx_accept);
    assert_eq!(status, Ok(()));

    let wallet = testkit.get_wallet(&tx_alice.0.pub_key).unwrap();
    assert_eq!(wallet.balance(), 89);

    let tx = Cancellation::new(&tx_bob.0.pub_key, &tx_alice.0.pub_key, &tx_hash);
    let (_, status) = testkit.cancellation(&tx);
    assert_eq!(status, Ok(()));

    let wallet = testkit.get_wallet(&tx_alice.0.pub_key).unwrap();
    assert_eq!(wallet.balance(), 100);
}
