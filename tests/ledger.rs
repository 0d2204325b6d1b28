use nostimint::client::ClientDb;
use nostimint::common::{
    fed_public_key, is_fed_account, NostimintError, NostimintInput, NostimintOutput,
    NostimintOutputOutcome,
};
use nostimint::config::{
    NostimintConfig, NostimintConfigConsensus, NostimintConfigLocal, NostimintConfigPrivate,
};
use nostimint::db::{migrate_to_v1, NostimintFundsKeyV0, NostimintFundsKeyV1, ServerDb};
use nostimint::server::Nostimint;
use nostimint::types::{Account, Amount, OutPoint, TransactionId};
use threshold_crypto::SecretKeySet;

fn module(fee: u64) -> Nostimint {
    let sks = SecretKeySet::random(1, &mut rand::thread_rng());
    let pks = sks.public_keys();
    Nostimint::new(NostimintConfig {
        local: NostimintConfigLocal { example: "example".to_string() },
        private: NostimintConfigPrivate { private_key_share: [7; 32] },
        consensus: NostimintConfigConsensus {
            threshold: 1,
            public_key_shares: (0..3usize).map(|i| pks.public_key_share(i).to_bytes()).collect(),
            public_key: pks.public_key().to_bytes(),
            tx_fee: Amount::from_msats(fee),
        },
    })
}

fn alice() -> Account {
    Account { key: [0xa1; 32] }
}

fn bob() -> Account {
    Account { key: [0xb0; 32] }
}

fn faucet() -> Account {
    fed_public_key().expect("the faucet phrase is a valid secret key")
}

fn funds(db: &ServerDb, a: Account) -> Option<u64> {
    db.funds.get(&NostimintFundsKeyV1(a)).map(|x| x.msats)
}

fn out_point(t: u8) -> OutPoint {
    OutPoint { txid: TransactionId { bytes: [t; 32] }, out_idx: 0 }
}

fn input(amount: u64, account: Account) -> NostimintInput {
    NostimintInput { amount: Amount::from_msats(amount), account }
}

fn output(amount: u64, account: Account) -> NostimintOutput {
    NostimintOutput { amount: Amount::from_msats(amount), account }
}

#[test]
fn faucet_key_is_derived_from_phrase() {
    let secp = secp256k1::Secp256k1::new();
    let pair = secp256k1::KeyPair::from_seckey_slice(&secp, b"Money printer go brrr...........")
        .unwrap();
    let expected = pair.x_only_public_key().0.serialize();
    assert_eq!(faucet().key, expected);
    assert_ne!(faucet().key, *b"Money printer go brrr...........");
    assert!(is_fed_account(&faucet()));
    assert!(!is_fed_account(&alice()));
}

#[test]
fn faucet_to_user() {
    let m = module(0);
    let mut db = ServerDb::new();
    let cache = m.build_verification_cache();
    assert!(m.process_input(&mut db, &input(100, faucet()), &cache).is_ok());
    assert_eq!(funds(&db, faucet()), Some(100));
    let r = m.process_output(&mut db, &output(60, alice()), out_point(7)).unwrap();
    assert_eq!(r.amount.msats, 60);
    assert_eq!(funds(&db, alice()), Some(60));
    assert_eq!(
        m.output_status(&db, out_point(7)),
        Some(NostimintOutputOutcome(Amount::from_msats(60), alice()))
    );
    assert_eq!(m.output_status(&db, out_point(8)), None);
}

#[test]
fn insufficient_funds() {
    let m = module(0);
    let mut db = ServerDb::new();
    let cache = m.build_verification_cache();
    m.process_output(&mut db, &output(10, alice()), out_point(1)).unwrap();
    let r = m.process_input(&mut db, &input(20, alice()), &cache);
    assert_eq!(r.err(), Some(NostimintError::NotEnoughFunds));
    assert_eq!(funds(&db, alice()), Some(10));
}

#[test]
fn spending_exact_balance_leaves_zero() {
    let m = module(0);
    let mut db = ServerDb::new();
    let cache = m.build_verification_cache();
    m.process_output(&mut db, &output(10, alice()), out_point(1)).unwrap();
    assert!(m.process_input(&mut db, &input(10, alice()), &cache).is_ok());
    assert_eq!(funds(&db, alice()), Some(0));
}

#[test]
fn spending_one_more_than_balance_fails() {
    let m = module(0);
    let mut db = ServerDb::new();
    let cache = m.build_verification_cache();
    m.process_output(&mut db, &output(10, alice()), out_point(1)).unwrap();
    let r = m.process_input(&mut db, &input(11, alice()), &cache);
    assert_eq!(r.err(), Some(NostimintError::NotEnoughFunds));
    assert_eq!(funds(&db, alice()), Some(10));
}

#[test]
fn input_from_unknown_account_fails() {
    let m = module(0);
    let mut db = ServerDb::new();
    let cache = m.build_verification_cache();
    let r = m.process_input(&mut db, &input(1, bob()), &cache);
    assert_eq!(r.err(), Some(NostimintError::NotEnoughFunds));
    assert_eq!(funds(&db, bob()), None);
    assert!(m.process_input(&mut db, &input(0, bob()), &cache).is_ok());
    assert_eq!(funds(&db, bob()), Some(0));
}

#[test]
fn input_meta_carries_fee_and_signing_key() {
    let m = module(3);
    let mut db = ServerDb::new();
    let cache = m.build_verification_cache();
    let meta = m.process_input(&mut db, &input(5, faucet()), &cache).unwrap();
    assert_eq!(meta.amount.amount.msats, 5);
    assert_eq!(meta.amount.fee.msats, 3);
    assert_eq!(meta.pub_keys, vec![faucet()]);
    let amount = m.process_output(&mut db, &output(4, alice()), out_point(2)).unwrap();
    assert_eq!(amount.fee.msats, 3);
    assert_eq!(amount.amount.msats, 4);
}

#[test]
fn user_funds_track_outputs_minus_inputs() {
    let m = module(0);
    let mut db = ServerDb::new();
    let cache = m.build_verification_cache();
    m.process_input(&mut db, &input(1000, faucet()), &cache).unwrap();
    m.process_output(&mut db, &output(300, alice()), out_point(1)).unwrap();
    m.process_output(&mut db, &output(200, bob()), out_point(2)).unwrap();
    m.process_input(&mut db, &input(120, alice()), &cache).unwrap();
    assert!(m.process_input(&mut db, &input(500, bob()), &cache).is_err());
    m.process_input(&mut db, &input(50, bob()), &cache).unwrap();
    m.process_output(&mut db, &output(7, alice()), out_point(3)).unwrap();
    let users = funds(&db, alice()).unwrap() + funds(&db, bob()).unwrap();
    assert_eq!(users, (300 + 200 + 7) - (120 + 50));
    assert_eq!(funds(&db, faucet()), Some(1000));
}

#[test]
fn output_to_faucet_leaves_user_funds_alone() {
    let m = module(0);
    let mut db = ServerDb::new();
    let cache = m.build_verification_cache();
    m.process_output(&mut db, &output(40, alice()), out_point(1)).unwrap();
    m.process_output(&mut db, &output(25, faucet()), out_point(2)).unwrap();
    m.process_input(&mut db, &input(15, alice()), &cache).unwrap();
    assert_eq!(funds(&db, alice()), Some(40 - 15));
    assert_eq!(funds(&db, faucet()), Some(25));
    assert_eq!(
        m.output_status(&db, out_point(2)),
        Some(NostimintOutputOutcome(Amount::from_msats(25), faucet()))
    );
}

#[test]
fn faucet_credit_that_would_overflow_is_refused() {
    let m = module(0);
    let mut db = ServerDb::new();
    let cache = m.build_verification_cache();
    m.process_input(&mut db, &input(u64::MAX, faucet()), &cache).unwrap();
    let r = m.process_input(&mut db, &input(1, faucet()), &cache);
    assert_eq!(r.err(), Some(NostimintError::FundsOverflow));
    assert_eq!(funds(&db, faucet()), Some(u64::MAX));
}

#[test]
fn audit_counts_faucet_as_asset_and_users_as_liability() {
    let m = module(0);
    let mut db = ServerDb::new();
    let cache = m.build_verification_cache();
    m.process_input(&mut db, &input(100, faucet()), &cache).unwrap();
    m.process_output(&mut db, &output(60, alice()), out_point(1)).unwrap();
    let items = m.audit(&db);
    assert_eq!(items.len(), 2);
    assert_eq!(items[0].account, faucet());
    assert_eq!(items[0].milli_sat, 100);
    assert_eq!(items[1].account, alice());
    assert_eq!(items[1].milli_sat, -60);
    assert_eq!(items.iter().map(|i| i.milli_sat).sum::<i128>(), 40);
}

#[test]
fn migration_moves_v0_rows_to_zero_funds() {
    let mut db = ServerDb::new();
    db.legacy_funds.insert(NostimintFundsKeyV0(alice()), ());
    db.legacy_funds.insert(NostimintFundsKeyV0(bob()), ());
    migrate_to_v1(&mut db);
    assert_eq!(funds(&db, alice()), Some(0));
    assert_eq!(funds(&db, bob()), Some(0));
    assert_eq!(db.legacy_funds.len(), 0);
    assert_eq!(db.funds.len(), 2);
}

#[test]
fn migration_twice_equals_once() {
    let m = module(0);
    let mut db = ServerDb::new();
    m.process_output(&mut db, &output(9, bob()), out_point(1)).unwrap();
    db.legacy_funds.insert(NostimintFundsKeyV0(alice()), ());
    migrate_to_v1(&mut db);
    let once: Vec<(Account, u64)> =
        (0..db.funds.len()).map(|i| (db.funds.key_at(i).0, db.funds.value_at(i).msats)).collect();
    migrate_to_v1(&mut db);
    let twice: Vec<(Account, u64)> =
        (0..db.funds.len()).map(|i| (db.funds.key_at(i).0, db.funds.value_at(i).msats)).collect();
    assert_eq!(once, twice);
    assert_eq!(funds(&db, bob()), Some(9));
    assert_eq!(funds(&db, alice()), Some(0));
}

#[test]
fn client_funds_start_at_zero_and_add_up() {
    let mut db = ClientDb::new();
    assert_eq!(db.get_funds().msats, 0);
    db.add_funds(Amount::from_msats(5));
    db.add_funds(Amount::from_msats(7));
    assert_eq!(db.get_funds().msats, 12);
    db.add_funds(Amount::from_msats(u64::MAX - 12));
    assert_eq!(db.get_funds().msats, u64::MAX);
}
