use nostimint::common::{NostimintConsensusItem, SignatureShare};
use nostimint::config::{
    check_key_share, validate_config, ConfigError, NostimintConfig, NostimintConfigConsensus,
    NostimintConfigLocal, NostimintConfigPrivate, NostimintGenParams,
};
use nostimint::db::{DbKeyPrefix, NostimintKind1Key, ServerDb};
use nostimint::event::Event;
use nostimint::server::{count_shares_of, ConsensusItemError, Nostimint, NostimintGen};
use nostimint::types::{Amount, PeerId};
use threshold_crypto::ff::{PrimeField, PrimeFieldRepr};
use threshold_crypto::poly::Poly;
use threshold_crypto::SecretKeySet;

const PEERS: usize = 4;
const THRESHOLD: usize = 2;

fn key_set() -> (Poly, SecretKeySet) {
    let poly = Poly::random(THRESHOLD, &mut rand::thread_rng());
    (poly.clone(), SecretKeySet::from(poly))
}

/// The secret key share of `peer`, as the big-endian bytes of its field element.
fn secret(poly: &Poly, peer: usize) -> [u8; 32] {
    let mut v = Vec::new();
    poly.evaluate(peer + 1).into_repr().write_be(&mut v).unwrap();
    v.try_into().unwrap()
}

fn config(poly: &Poly, sks: &SecretKeySet, peer: usize) -> NostimintConfig {
    let pks = sks.public_keys();
    NostimintConfig {
        local: NostimintConfigLocal { example: "example".to_string() },
        private: NostimintConfigPrivate { private_key_share: secret(poly, peer) },
        consensus: NostimintConfigConsensus {
            threshold: pks.threshold(),
            public_key_shares: (0..PEERS).map(|i| pks.public_key_share(i).to_bytes()).collect(),
            public_key: pks.public_key().to_bytes(),
            tx_fee: Amount::from_msats(0),
        },
    }
}

fn federation() -> (SecretKeySet, Vec<Nostimint>) {
    let (poly, sks) = key_set();
    let peers = (0..PEERS).map(|i| Nostimint::new(config(&poly, &sks, i))).collect();
    (sks, peers)
}

fn note(text: &str) -> Event {
    let secret = nostr_sdk::secp256k1::SecretKey::from_slice(&[0x42; 32]).unwrap();
    let keys = nostr_sdk::Keys::new(secret);
    let event = nostr_sdk::EventBuilder::new_text_note(text, &[]).to_event(&keys).unwrap();
    Event::from_json(event.as_json().into_bytes()).expect("a signed note parses")
}

fn share(sks: &SecretKeySet, peer: usize, e: &Event) -> SignatureShare {
    SignatureShare { bytes: sks.secret_key_share(peer).sign(e.id().bytes).to_bytes() }
}

fn item(sks: &SecretKeySet, peer: usize, e: &Event) -> NostimintConsensusItem {
    NostimintConsensusItem::Note(e.copy(), share(sks, peer, e))
}

fn event_value(db: &ServerDb, e: &Event) -> Option<Option<Vec<u8>>> {
    db.events
        .get(&NostimintKind1Key(e.copy()))
        .map(|v| v.as_ref().map(|s| s.json().clone()))
}

#[test]
fn share_aggregation_completes_after_threshold() {
    let (sks, peers) = federation();
    let m = &peers[0];
    let mut db = ServerDb::new();
    let e = note("hello federation");
    m.sign_note(&mut db, e.copy());
    for p in 0..3 {
        assert_eq!(m.process_consensus_item(&mut db, item(&sks, p, &e), PeerId { id: p as u16 }), Ok(()));
    }
    assert_eq!(event_value(&db, &e), Some(Some(e.json().clone())));
    assert_eq!(count_shares_of(&db, &e.id()), 0);
    assert_eq!(db.shares.len(), 0);
    let signed = m.signed_note(&db, &e).expect("completed");
    assert_eq!(signed.json(), e.json());
}

#[test]
fn exactly_threshold_shares_do_not_complete() {
    let (sks, peers) = federation();
    let m = &peers[1];
    let mut db = ServerDb::new();
    let e = note("boundary");
    m.sign_note(&mut db, e.copy());
    for p in 0..THRESHOLD {
        m.process_consensus_item(&mut db, item(&sks, p, &e), PeerId { id: p as u16 }).unwrap();
    }
    assert_eq!(event_value(&db, &e), Some(None));
    assert_eq!(count_shares_of(&db, &e.id()), THRESHOLD);
    assert!(m.signed_note(&db, &e).is_none());
    m.process_consensus_item(&mut db, item(&sks, 3, &e), PeerId { id: 3 }).unwrap();
    assert_eq!(event_value(&db, &e), Some(Some(e.json().clone())));
}

#[test]
fn duplicate_share_rejected() {
    let (sks, peers) = federation();
    let m = &peers[0];
    let mut db = ServerDb::new();
    let e = note("twice");
    m.sign_note(&mut db, e.copy());
    m.process_consensus_item(&mut db, item(&sks, 1, &e), PeerId { id: 1 }).unwrap();
    let r = m.process_consensus_item(&mut db, item(&sks, 1, &e), PeerId { id: 1 });
    assert_eq!(r, Err(ConsensusItemError::DuplicateShare));
    assert_eq!(db.shares.len(), 1);
    assert_eq!(event_value(&db, &e), Some(None));
}

#[test]
fn invalid_share_rejected() {
    let (sks, peers) = federation();
    let m = &peers[0];
    let mut db = ServerDb::new();
    let e = note("forged");
    m.sign_note(&mut db, e.copy());
    let r = m.process_consensus_item(&mut db, item(&sks, 3, &e), PeerId { id: 2 });
    assert_eq!(r, Err(ConsensusItemError::InvalidShare));
    assert_eq!(db.shares.len(), 0);
    let r = m.process_consensus_item(&mut db, item(&sks, 0, &e), PeerId { id: 9 });
    assert_eq!(r, Err(ConsensusItemError::InvalidShare));
    let other = note("another message");
    let wrong_message = NostimintConsensusItem::Note(e.copy(), share(&sks, 2, &other));
    let r = m.process_consensus_item(&mut db, wrong_message, PeerId { id: 2 });
    assert_eq!(r, Err(ConsensusItemError::InvalidShare));
    assert_eq!(db.shares.len(), 0);
}

#[test]
fn shares_of_other_events_are_kept_on_completion() {
    let (sks, peers) = federation();
    let m = &peers[2];
    let mut db = ServerDb::new();
    let a = note("first");
    let b = note("second");
    m.sign_note(&mut db, a.copy());
    m.sign_note(&mut db, b.copy());
    m.process_consensus_item(&mut db, item(&sks, 0, &b), PeerId { id: 0 }).unwrap();
    for p in 0..3 {
        m.process_consensus_item(&mut db, item(&sks, p, &a), PeerId { id: p as u16 }).unwrap();
    }
    assert_eq!(count_shares_of(&db, &a.id()), 0);
    assert_eq!(count_shares_of(&db, &b.id()), 1);
    assert_eq!(event_value(&db, &b), Some(None));
}

#[test]
fn sign_note_twice_keeps_first_result() {
    let (sks, peers) = federation();
    let m = &peers[0];
    let mut db = ServerDb::new();
    let e = note("idempotent");
    let first = m.sign_note(&mut db, e.copy());
    let second = m.sign_note(&mut db, e.copy());
    assert_eq!(first, second);
    assert_eq!(first, e.id());
    assert_eq!(db.events.len(), 1);
    for p in 0..3 {
        m.process_consensus_item(&mut db, item(&sks, p, &e), PeerId { id: p as u16 }).unwrap();
    }
    m.sign_note(&mut db, e.copy());
    assert_eq!(event_value(&db, &e), Some(Some(e.json().clone())));
}

#[test]
fn proposal_signs_every_pending_event() {
    let (sks, peers) = federation();
    let pks = sks.public_keys();
    let m = &peers[1];
    let mut db = ServerDb::new();
    assert!(!m.has_pending_events(&db));
    assert!(m.consensus_proposal(&db).is_empty());
    let a = note("one");
    let b = note("two");
    m.sign_note(&mut db, a.copy());
    m.sign_note(&mut db, b.copy());
    assert!(m.has_pending_events(&db));
    let items = m.consensus_proposal(&db);
    assert_eq!(items.len(), 2);
    for (it, expected) in items.iter().zip([&a, &b]) {
        let NostimintConsensusItem::Note(e, s) = it;
        assert_eq!(e.id(), expected.id());
        let sig = threshold_crypto::SignatureShare::from_bytes(s.bytes).unwrap();
        assert!(pks.public_key_share(1usize).verify(&sig, e.id().bytes));
    }
    for p in 0..3 {
        m.process_consensus_item(&mut db, item(&sks, p, &a), PeerId { id: p as u16 }).unwrap();
    }
    let items = m.consensus_proposal(&db);
    assert_eq!(items.len(), 1);
    let NostimintConsensusItem::Note(e, _) = &items[0];
    assert_eq!(e.id(), b.id());
}

#[test]
fn proposed_items_are_accepted_by_peers() {
    let (_sks, peers) = federation();
    let mut db = ServerDb::new();
    let e = note("round trip through consensus");
    peers[0].sign_note(&mut db, e.copy());
    let mut proposals: Vec<NostimintConsensusItem> = Vec::new();
    for p in 0..3 {
        proposals.extend(peers[p].consensus_proposal(&db));
    }
    for (p, it) in proposals.into_iter().enumerate() {
        peers[0].process_consensus_item(&mut db, it, PeerId { id: p as u16 }).unwrap();
    }
    assert!(peers[0].signed_note(&db, &e).is_some());
    assert!(!peers[0].has_pending_events(&db));
}

#[test]
fn validate_config_checks_key_share() {
    let (poly, sks) = key_set();
    let pks = sks.public_keys();
    let cfg = config(&poly, &sks, 1);
    assert_eq!(validate_config(PeerId { id: 1 }, &cfg), Ok(()));
    assert_eq!(validate_config(PeerId { id: 2 }, &cfg), Err(ConfigError::KeyShareMismatch));
    assert_eq!(validate_config(PeerId { id: 7 }, &cfg), Err(ConfigError::UnknownPeer));
    let derived = pks.public_key_share(3usize).to_bytes();
    assert_eq!(check_key_share(&derived, &cfg.consensus, PeerId { id: 3 }), Ok(()));
    assert_eq!(NostimintGen.validate_config(PeerId { id: 1 }, &cfg), Ok(()));
    let client = NostimintGen.get_client_config(&cfg.consensus);
    assert_eq!(client.fed_public_key, pks.public_key().to_bytes());
    assert_eq!(client.tx_fee.msats, 0);
}

#[test]
fn server_gen_describes_module() {
    let g = NostimintGen;
    assert_eq!(g.database_version(), 1);
    assert_eq!(g.versions(), vec![0]);
    let (major, minor, module) = g.supported_api_versions();
    assert_eq!((major, minor), (1, 0));
    assert_eq!(module, vec![(0, 0)]);
    let params = NostimintGenParams::default();
    assert_eq!(params.consensus.tx_fee.msats, 0);
    assert_eq!(params.local.0, "example");
}

#[test]
fn dump_selects_tables_by_name() {
    let g = NostimintGen;
    assert_eq!(
        g.dump_tables(&vec![]),
        vec![DbKeyPrefix::Funds, DbKeyPrefix::Outcome, DbKeyPrefix::SignatureShare, DbKeyPrefix::Event]
    );
    assert_eq!(
        g.dump_tables(&vec!["event".to_string(), "funds".to_string()]),
        vec![DbKeyPrefix::Funds, DbKeyPrefix::Event]
    );
    assert_eq!(g.dump_tables(&vec!["nothing".to_string()]), vec![]);
}

#[test]
fn build_config_keeps_generated_keys() {
    let (poly, sks) = key_set();
    let pks = sks.public_keys();
    let shares: Vec<[u8; 48]> = (0..PEERS).map(|i| pks.public_key_share(i).to_bytes()).collect();
    let cfg = NostimintGen.build_config(
        &NostimintGenParams::default(),
        pks.threshold(),
        shares.clone(),
        pks.public_key().to_bytes(),
        secret(&poly, 2),
    );
    assert_eq!(cfg.consensus.threshold, THRESHOLD);
    assert_eq!(cfg.consensus.public_key_shares, shares);
    assert_eq!(cfg.local.example, "example");
    assert_eq!(validate_config(PeerId { id: 2 }, &cfg), Ok(()));
}

#[test]
fn migrate_database_from_version_zero() {
    let g = NostimintGen;
    let mut db = ServerDb::new();
    let acct = nostimint::types::Account { key: [3; 32] };
    db.legacy_funds.insert(nostimint::db::NostimintFundsKeyV0(acct), ());
    assert_eq!(g.migrate_database(&mut db, 1), 1);
    assert_eq!(db.legacy_funds.len(), 1);
    assert_eq!(g.migrate_database(&mut db, 0), 1);
    assert_eq!(db.legacy_funds.len(), 0);
    assert_eq!(db.funds.get(&nostimint::db::NostimintFundsKeyV1(acct)).map(|a| a.msats), Some(0));
}

#[test]
fn secret_bytes_sign_like_the_key_set() {
    let (poly, sks) = key_set();
    let m = Nostimint::new(config(&poly, &sks, 3));
    let mut db = ServerDb::new();
    let e = note("same share");
    m.sign_note(&mut db, e.copy());
    let items = m.consensus_proposal(&db);
    let NostimintConsensusItem::Note(_, s) = &items[0];
    assert_eq!(s.bytes, share(&sks, 3, &e).bytes);
}

#[test]
fn key_share_that_is_no_field_element() {
    let (poly, sks) = key_set();
    let mut cfg = config(&poly, &sks, 0);
    cfg.private.private_key_share = [0xff; 32];
    assert_eq!(validate_config(PeerId { id: 0 }, &cfg), Err(ConfigError::InvalidKeyShare));
    let m = Nostimint::new(cfg);
    let mut db = ServerDb::new();
    m.sign_note(&mut db, note("unsigned"));
    assert!(m.consensus_proposal(&db).is_empty());
    assert!(m.has_pending_events(&db));
}
