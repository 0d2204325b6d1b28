use nostimint::codec::{decode_event_value, encode_event_value, DecodeError};
use nostimint::common::{
    NostimintConsensusItem, NostimintInput, NostimintOutput, NostimintOutputOutcome,
    SignatureShare,
};
use nostimint::db::{
    DbKeyPrefix, NostimintFundsKeyV1, NostimintFundsPrefixV1, NostimintKind1Key,
    NostimintOutcomeKey, NostimintSignatureShareKey, NostimintSignatureShareStringPrefix,
};
use nostimint::event::Event;
use nostimint::types::{Account, Amount, EventId, OutPoint, PeerId, TransactionId};

fn note(text: &str) -> Event {
    let secret = nostr_sdk::secp256k1::SecretKey::from_slice(&[0x17; 32]).unwrap();
    let keys = nostr_sdk::Keys::new(secret);
    let event = nostr_sdk::EventBuilder::new_text_note(text, &[]).to_event(&keys).unwrap();
    Event::from_json(event.as_json().into_bytes()).expect("a signed note parses")
}

fn signed_json(text: &str) -> String {
    let secret = nostr_sdk::secp256k1::SecretKey::from_slice(&[0x17; 32]).unwrap();
    let keys = nostr_sdk::Keys::new(secret);
    nostr_sdk::EventBuilder::new_text_note(text, &[]).to_event(&keys).unwrap().as_json()
}

#[test]
fn amount_is_eight_big_endian_bytes() {
    let a = Amount::from_msats(0x0102_0304_0506_0708);
    assert_eq!(a.consensus_encode(), vec![1, 2, 3, 4, 5, 6, 7, 8]);
    assert_eq!(Amount::consensus_decode(&[1, 2, 3, 4, 5, 6, 7, 8]), Ok(a));
    assert_eq!(Amount::consensus_decode(&[1, 2, 3]), Err(DecodeError::Invalid));
    assert_eq!(Amount::consensus_decode(&[0; 9]), Err(DecodeError::Invalid));
}

#[test]
fn peer_id_is_two_big_endian_bytes() {
    let p = PeerId { id: 0x0304 };
    assert_eq!(p.consensus_encode(), vec![3, 4]);
    assert_eq!(PeerId::consensus_decode(&[3, 4]), Ok(p));
}

#[test]
fn fixed_values_round_trip() {
    let acct = Account { key: [9; 32] };
    assert_eq!(Account::consensus_decode(&acct.consensus_encode()), Ok(acct));
    let op = OutPoint { txid: TransactionId { bytes: [5; 32] }, out_idx: 3 };
    let bytes = op.consensus_encode();
    assert_eq!(bytes.len(), 40);
    assert_eq!(bytes[39], 3);
    assert_eq!(OutPoint::consensus_decode(&bytes), Ok(op));
    let share = SignatureShare { bytes: [0xee; 96] };
    assert_eq!(SignatureShare::consensus_decode(&share.consensus_encode()), Ok(share));
    let outcome = NostimintOutputOutcome(Amount::from_msats(60), acct);
    assert_eq!(NostimintOutputOutcome::consensus_decode(&outcome.consensus_encode()), Ok(outcome));
    let input = NostimintInput { amount: Amount::from_msats(7), account: acct };
    assert_eq!(NostimintInput::consensus_decode(&input.consensus_encode()), Ok(input));
    let output = NostimintOutput { amount: Amount::from_msats(8), account: acct };
    assert_eq!(NostimintOutput::consensus_decode(&output.consensus_encode()), Ok(output));
}

#[test]
fn event_round_trips() {
    let e = note("round trip");
    let bytes = e.consensus_encode();
    let back = Event::consensus_decode(&bytes).unwrap();
    assert_eq!(back.json(), e.json());
    assert_eq!(back.id(), e.id());
    assert_eq!(back.consensus_encode(), bytes);
}

#[test]
fn very_long_event_has_five_byte_length() {
    let e = note(&"w".repeat(70_000));
    let json_len = e.json().len();
    assert!(json_len > 0xffff);
    let bytes = e.consensus_encode();
    assert_eq!(bytes[0], 0xfe);
    let len = u32::from_be_bytes([bytes[1], bytes[2], bytes[3], bytes[4]]) as usize;
    assert_eq!(len, json_len);
    assert_eq!(&bytes[5..], &e.json()[..]);
    assert_eq!(Event::consensus_decode(&bytes).unwrap().id(), e.id());
}

#[test]
fn long_event_has_three_byte_length() {
    let e = note(&"y".repeat(400));
    let json_len = e.json().len();
    assert!(json_len > 0xff && json_len <= 0xffff);
    let bytes = e.consensus_encode();
    assert_eq!(bytes[0], 0xfd);
    assert_eq!(((bytes[1] as usize) << 8) | bytes[2] as usize, json_len);
    assert_eq!(Event::consensus_decode(&bytes).unwrap().id(), e.id());
}

#[test]
fn equal_events_encode_equally() {
    let json = signed_json("same text").into_bytes();
    let a = Event::from_json(json.clone()).unwrap();
    let b = Event::from_json(json).unwrap();
    assert_eq!(a.consensus_encode(), b.consensus_encode());
    assert_eq!(a.copy().consensus_encode(), a.consensus_encode());
}

#[test]
fn event_id_is_the_one_the_json_carries() {
    let json = signed_json("identity");
    let parsed = nostr_sdk::Event::from_json(json.clone()).unwrap();
    let e = Event::from_json(json.into_bytes()).unwrap();
    assert_eq!(&e.id().bytes[..], parsed.id.as_bytes());
}

#[test]
fn wrong_carried_id_is_refused() {
    let json = signed_json("identity check");
    let parsed = nostr_sdk::Event::from_json(json.clone()).unwrap();
    let forged = json.replace(&parsed.id.to_hex(), &"ab".repeat(32));
    assert!(nostr_sdk::Event::from_json(forged.clone()).is_ok());
    assert!(Event::from_json(forged.clone().into_bytes()).is_none());
    let mut bytes = vec![0xfd];
    bytes.extend_from_slice(&(forged.len() as u16).to_be_bytes());
    bytes.extend_from_slice(forged.as_bytes());
    assert_eq!(Event::consensus_decode(&bytes).err(), Some(DecodeError::Invalid));
}

#[test]
fn event_keeps_canonical_json() {
    let json = signed_json("formatting");
    let value: nostr_sdk::serde_json::Value = nostr_sdk::serde_json::from_str(&json).unwrap();
    let pretty = nostr_sdk::serde_json::to_string_pretty(&value).unwrap();
    assert_ne!(pretty, json);
    let a = Event::from_json(json.clone().into_bytes()).unwrap();
    let b = Event::from_json(pretty.clone().into_bytes()).unwrap();
    assert_eq!(a.json(), &json.into_bytes());
    assert_eq!(a.consensus_encode(), b.consensus_encode());
    let mut bytes = vec![0xfd];
    bytes.extend_from_slice(&(pretty.len() as u16).to_be_bytes());
    bytes.extend_from_slice(pretty.as_bytes());
    assert_eq!(Event::consensus_decode(&bytes).err(), Some(DecodeError::Invalid));
}

#[test]
fn invalid_json_is_refused() {
    assert!(Event::from_json(b"{not json".to_vec()).is_none());
    assert!(Event::from_json(vec![0xff, 0xfe]).is_none());
    let tampered = signed_json("genuine").replace("genuine", "tampered");
    assert!(Event::from_json(tampered.into_bytes()).is_none());
    let mut bytes = vec![3u8];
    bytes.extend_from_slice(b"{}x");
    assert_eq!(Event::consensus_decode(&bytes).err(), Some(DecodeError::Invalid));
}

#[test]
fn non_minimal_length_is_refused() {
    let e = note("z");
    let json = e.json().clone();
    let mut bytes = vec![0xfd, 0, json.len() as u8];
    bytes.extend_from_slice(&json);
    assert_eq!(Event::consensus_decode(&bytes).err(), Some(DecodeError::Invalid));
}

#[test]
fn event_row_value_round_trips() {
    let e = note("row");
    assert_eq!(encode_event_value(&None), vec![0]);
    assert!(matches!(decode_event_value(&[0]), Ok(None)));
    let bytes = encode_event_value(&Some(e.copy()));
    assert_eq!(bytes[0], 1);
    let back = decode_event_value(&bytes).unwrap().unwrap();
    assert_eq!(back.json(), e.json());
    assert_eq!(decode_event_value(&[2]).err(), Some(DecodeError::Invalid));
}

#[test]
fn consensus_item_round_trips() {
    let e = note("item");
    let it = NostimintConsensusItem::Note(e.copy(), SignatureShare { bytes: [3; 96] });
    let bytes = it.consensus_encode();
    assert_eq!(bytes[0], 0);
    let NostimintConsensusItem::Note(back, share) = NostimintConsensusItem::consensus_decode(&bytes).unwrap();
    assert_eq!(back.json(), e.json());
    assert_eq!(share.bytes, [3; 96]);
    let mut longer = bytes.clone();
    longer.push(0);
    assert_eq!(NostimintConsensusItem::consensus_decode(&longer).err(), Some(DecodeError::Invalid));
}

#[test]
fn keys_start_with_their_table_prefix() {
    let acct = Account { key: [1; 32] };
    let funds = NostimintFundsKeyV1(acct).consensus_encode();
    assert_eq!(funds[0], DbKeyPrefix::Funds.byte());
    assert_eq!(NostimintFundsPrefixV1.consensus_encode(), vec![0x01]);
    assert_eq!(NostimintFundsKeyV1::consensus_decode(&funds).unwrap().0, acct);
    let op = OutPoint { txid: TransactionId { bytes: [2; 32] }, out_idx: 0 };
    let outcome = NostimintOutcomeKey(op).consensus_encode();
    assert_eq!(outcome[0], 0x02);
    assert_eq!(NostimintOutcomeKey::consensus_decode(&outcome).unwrap().0, op);
    let id = EventId { bytes: [4; 32] };
    let key = NostimintSignatureShareKey(id, PeerId { id: 3 }).consensus_encode();
    let prefix = NostimintSignatureShareStringPrefix(id).consensus_encode();
    assert!(key.starts_with(&prefix));
    assert_eq!(key.len(), 35);
    assert_eq!(NostimintSignatureShareKey::consensus_decode(&key), Ok(NostimintSignatureShareKey(id, PeerId { id: 3 })));
    let e = note("key");
    let ek = NostimintKind1Key(e.copy()).consensus_encode();
    assert_eq!(ek[0], 0x04);
    assert_eq!(NostimintKind1Key::consensus_decode(&ek).unwrap().0.id(), e.id());
    assert!(NostimintFundsKeyV1::consensus_decode(&outcome).is_err());
}
