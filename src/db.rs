//! The server's persistent tables, their keys, and the migration of the
//! funds table from database version 0 to version 1.
use vstd::prelude::*;
use crate::codec::{
    DecodeError, decoded_as, enc_event, enc_out_point, enc_u16, parse_event, parse_out_point,
    parse_raw, parse_u16, read_array32, read_as, read_event, read_u16, read_u64, whole, write_event,
    write_raw, write_u16, write_u64, lemma_event_round_trip, lemma_out_point_round_trip,
    lemma_raw_round_trip, lemma_u16_round_trip,
};
use crate::common::{NostimintOutputOutcome, SignatureShare};
use crate::event::{EventView, canonical_event_text, nostr_event_id};
use crate::event::Event;
use crate::table::{Table, TableKey, has_key, map_of_rows, lemma_lookup, lemma_has_key_take};
use crate::types::{Account, Amount, EventId, OutPoint, PeerId, TransactionId};

verus! {

/// Namespaces the keys of this module's tables.
#[derive(Clone, Copy, Debug, PartialEq, Eq, Structural, Hash)]
pub enum DbKeyPrefix {
    Funds,
    Outcome,
    SignatureShare,
    Event,
}

impl DbKeyPrefix {
    pub open spec fn spec_byte(self) -> u8 {
        match self {
            DbKeyPrefix::Funds => 0x01,
            DbKeyPrefix::Outcome => 0x02,
            DbKeyPrefix::SignatureShare => 0x03,
            DbKeyPrefix::Event => 0x04,
        }
    }

    /// The byte that starts every key of the table.
    pub fn byte(&self) -> (r: u8)
        ensures
            r == self.spec_byte(),
    {
        match self {
            DbKeyPrefix::Funds => 0x01,
            DbKeyPrefix::Outcome => 0x02,
            DbKeyPrefix::SignatureShare => 0x03,
            DbKeyPrefix::Event => 0x04,
        }
    }

    pub open spec fn spec_name(self) -> Seq<char> {
        match self {
            DbKeyPrefix::Funds => "funds"@,
            DbKeyPrefix::Outcome => "outcome"@,
            DbKeyPrefix::SignatureShare => "signatureshare"@,
            DbKeyPrefix::Event => "event"@,
        }
    }

    /// The name of the table, in lower case.
    pub fn name(&self) -> (r: &'static str)
        ensures
            r@ == self.spec_name(),
    {
        match self {
            DbKeyPrefix::Funds => "funds",
            DbKeyPrefix::Outcome => "outcome",
            DbKeyPrefix::SignatureShare => "signatureshare",
            DbKeyPrefix::Event => "event",
        }
    }
}

/// Key of a funds row as written at database version 0 (its value was `()`).
#[derive(Clone, Copy, Debug, PartialEq, Eq, Hash)]
pub struct NostimintFundsKeyV0(pub Account);

/// Selects every version 0 funds row.
#[derive(Clone, Copy, Debug)]
pub struct NostimintFundsKeyPrefixV0;

/// Key of a funds row: the account.
#[derive(Clone, Copy, Debug, PartialEq, Eq, Hash)]
pub struct NostimintFundsKeyV1(pub Account);

/// Selects every funds row.
#[derive(Clone, Copy, Debug)]
pub struct NostimintFundsPrefixV1;

/// Key of an outcome row: the output it describes.
#[derive(Clone, Copy, Debug, PartialEq, Eq, Hash)]
pub struct NostimintOutcomeKey(pub OutPoint);

/// Selects every outcome row.
#[derive(Clone, Copy, Debug)]
pub struct NostimintOutcomePrefix;

/// Key of a signature share row: the event and the peer that signed it.
#[derive(Clone, Copy, Debug, PartialEq, Eq, Hash)]
pub struct NostimintSignatureShareKey(pub EventId, pub PeerId);

/// Selects the signature share rows of one event.
#[derive(Clone, Copy, Debug, PartialEq, Eq, Hash)]
pub struct NostimintSignatureShareStringPrefix(pub EventId);

/// Selects every signature share row.
#[derive(Clone, Copy, Debug)]
pub struct NostimintSignatureSharePrefix;

/// Key of an event row. Its value is `None` while the event waits for
/// signatures and `Some` once it is completed.
#[derive(Debug)]
pub struct NostimintKind1Key(pub Event);

/// Selects every event row.
#[derive(Clone, Copy, Debug)]
pub struct NostimintKind1Prefix;

impl View for NostimintFundsKeyV0 {
    type V = Seq<u8>;

    open spec fn view(&self) -> Seq<u8> {
        self.0@
    }
}

impl View for NostimintFundsKeyV1 {
    type V = Seq<u8>;

    open spec fn view(&self) -> Seq<u8> {
        self.0@
    }
}

impl View for NostimintOutcomeKey {
    type V = (Seq<u8>, u64);

    open spec fn view(&self) -> (Seq<u8>, u64) {
        self.0@
    }
}

impl View for NostimintSignatureShareKey {
    type V = (Seq<u8>, u16);

    open spec fn view(&self) -> (Seq<u8>, u16) {
        (self.0@, self.1.id)
    }
}

impl View for NostimintKind1Key {
    type V = Seq<u8>;

    /// Events are told apart by their id.
    open spec fn view(&self) -> Seq<u8> {
        self.0@.id
    }
}

impl TableKey for NostimintFundsKeyV0 {
    fn same_key(&self, other: &Self) -> (r: bool) {
        self.0.same(&other.0)
    }
}

impl TableKey for NostimintFundsKeyV1 {
    fn same_key(&self, other: &Self) -> (r: bool) {
        self.0.same(&other.0)
    }
}

impl TableKey for NostimintOutcomeKey {
    fn same_key(&self, other: &Self) -> (r: bool) {
        self.0.same(&other.0)
    }
}

impl TableKey for NostimintSignatureShareKey {
    fn same_key(&self, other: &Self) -> (r: bool) {
        self.1.id == other.1.id && self.0.same(&other.0)
    }
}

impl TableKey for NostimintKind1Key {
    fn same_key(&self, other: &Self) -> (r: bool) {
        self.0.id().same(&other.0.id())
    }
}

/// Funds of account `a` in a funds map: 0 where it has no row.
pub open spec fn funds_of(m: Map<Seq<u8>, Amount>, a: Seq<u8>) -> u64 {
    if m.contains_key(a) {
        m[a].msats
    } else {
        0
    }
}

/// The funds map after migration: every version 0 row becomes a row of
/// amount zero.
pub open spec fn migrated_funds(funds: Map<Seq<u8>, Amount>, legacy: Map<Seq<u8>, ()>) -> Map<
    Seq<u8>,
    Amount,
> {
    Map::new(
        |k: Seq<u8>| funds.contains_key(k) || legacy.contains_key(k),
        |k: Seq<u8>|
            if legacy.contains_key(k) {
                Amount { msats: 0 }
            } else {
                funds[k]
            },
    )
}

/// The signature share map without the rows of event `id`.
pub open spec fn shares_without(
    m: Map<(Seq<u8>, u16), SignatureShare>,
    id: Seq<u8>,
) -> Map<(Seq<u8>, u16), SignatureShare> {
    m.restrict(Set::new(|k: (Seq<u8>, u16)| k.0 != id))
}

/// The module's database.
pub struct ServerDb {
    pub funds: Table<NostimintFundsKeyV1, Amount>,
    /// Funds rows as database version 0 wrote them.
    pub legacy_funds: Table<NostimintFundsKeyV0, ()>,
    pub outcomes: Table<NostimintOutcomeKey, NostimintOutputOutcome>,
    pub shares: Table<NostimintSignatureShareKey, SignatureShare>,
    pub events: Table<NostimintKind1Key, Option<Event>>,
}

impl ServerDb {
    pub open spec fn wf(&self) -> bool {
        &&& self.funds.wf()
        &&& self.legacy_funds.wf()
        &&& self.outcomes.wf()
        &&& self.shares.wf()
        &&& self.events.wf()
    }

    /// An empty database.
    pub fn new() -> (r: ServerDb)
        ensures
            r.wf(),
            r.funds.rows().len() == 0,
            r.legacy_funds.rows().len() == 0,
            r.outcomes.rows().len() == 0,
            r.shares.rows().len() == 0,
            r.events.rows().len() == 0,
    {
        ServerDb {
            funds: Table::new(),
            legacy_funds: Table::new(),
            outcomes: Table::new(),
            shares: Table::new(),
            events: Table::new(),
        }
    }

    /// Deletes every signature share row of event `id`.
    pub fn remove_shares_of(&mut self, id: &EventId)
        requires
            old(self).wf(),
        ensures
            final(self).wf(),
            final(self).shares.map() == shares_without(old(self).shares.map(), id@),
            final(self).funds == old(self).funds,
            final(self).legacy_funds == old(self).legacy_funds,
            final(self).outcomes == old(self).outcomes,
            final(self).events == old(self).events,
    {
        let mut kept: Table<NostimintSignatureShareKey, SignatureShare> = Table::new();
        let ghost rows = self.shares.rows();
        let n = self.shares.len();
        let mut i: usize = 0;
        while i < n
            invariant
                self.wf(),
                self.shares.rows() == rows,
                n == rows.len(),
                0 <= i <= n,
                kept.wf(),
                kept.map() =~= Map::new(
                    |k: (Seq<u8>, u16)| has_key(rows.take(i as int), k) && k.0 != id@,
                    |k: (Seq<u8>, u16)| map_of_rows(rows)[k],
                ),
            decreases n - i,
        {
            let key = *self.shares.key_at(i);
            let share = *self.shares.value_at(i);
            proof {
                lemma_lookup(rows, i as int);
                lemma_has_key_take(rows, i as int);
            }
            if !key.0.same(id) {
                kept.insert(key, share);
            }
            i = i + 1;
        }
        proof {
            assert(rows.take(n as int) =~= rows);
            assert(kept.map() =~= shares_without(map_of_rows(rows), id@));
        }
        self.shares = kept;
    }
}

/// Moves every version 0 funds row to version 1, with amount zero.
pub fn migrate_to_v1(db: &mut ServerDb)
    requires
        old(db).wf(),
    ensures
        final(db).wf(),
        final(db).legacy_funds.map() == Map::<Seq<u8>, ()>::empty(),
        final(db).funds.map() == migrated_funds(old(db).funds.map(), old(db).legacy_funds.map()),
        final(db).outcomes == old(db).outcomes,
        final(db).shares == old(db).shares,
        final(db).events == old(db).events,
{
    let ghost funds0 = db.funds.map();
    let ghost legacy = db.legacy_funds.rows();
    let n = db.legacy_funds.len();
    let mut i: usize = 0;
    while i < n
        invariant
            db.wf(),
            db.legacy_funds.rows() == legacy,
            n == legacy.len(),
            0 <= i <= n,
            db.funds.map() =~= migrated_funds(funds0, map_of_rows(legacy.take(i as int))),
            db.outcomes == old(db).outcomes,
            db.shares == old(db).shares,
            db.events == old(db).events,
        decreases n - i,
    {
        let key = db.legacy_funds.key_at(i).0;
        proof {
            lemma_has_key_take(legacy, i as int);
        }
        db.funds.insert(NostimintFundsKeyV1(key), Amount::zero());
        i = i + 1;
        proof {
            assert(db.funds.map() =~= migrated_funds(funds0, map_of_rows(legacy.take(i as int))));
        }
    }
    proof {
        assert(legacy.take(n as int) =~= legacy);
    }
    db.legacy_funds = Table::new();
    proof {
        assert(db.legacy_funds.map() =~= Map::<Seq<u8>, ()>::empty());
    }
}

/// Running the migration on its own result changes nothing: after one run
/// no version 0 row is left, and an empty set of version 0 rows leaves the
/// funds as they are.
pub proof fn lemma_migration_idempotent(funds: Map<Seq<u8>, Amount>, legacy: Map<Seq<u8>, ()>)
    ensures
        migrated_funds(migrated_funds(funds, legacy), Map::empty()) == migrated_funds(
            funds,
            legacy,
        ),
{
    assert(migrated_funds(migrated_funds(funds, legacy), Map::empty()) =~= migrated_funds(
        funds,
        legacy,
    ));
}


// ---------------------------------------------------------------------------
// Key encodings: the table's prefix byte, then the key's fields.

pub open spec fn enc_funds_key(account: Seq<u8>) -> Seq<u8> {
    seq![0x01u8] + account
}

pub open spec fn enc_outcome_key(out_point: (Seq<u8>, u64)) -> Seq<u8> {
    seq![0x02u8] + enc_out_point(out_point)
}

pub open spec fn enc_share_prefix(id: Seq<u8>) -> Seq<u8> {
    seq![0x03u8] + id
}

pub open spec fn enc_share_key(id: Seq<u8>, peer: u16) -> Seq<u8> {
    enc_share_prefix(id) + enc_u16(peer)
}

pub open spec fn enc_event_key(e: EventView) -> Seq<u8> {
    seq![0x04u8] + enc_event(e)
}

/// Reads the key of a table: its prefix byte, then what `parse` reads of the
/// rest.
pub open spec fn parse_funds_key(s: Seq<u8>) -> Option<(Seq<u8>, nat)> {
    if s.len() < 1 || s[0] != 0x01 {
        None
    } else {
        match parse_raw(s.skip(1), 32) {
            Some((a, n)) => Some((a, n + 1)),
            None => None,
        }
    }
}

pub open spec fn parse_outcome_key(s: Seq<u8>) -> Option<((Seq<u8>, u64), nat)> {
    if s.len() < 1 || s[0] != 0x02 {
        None
    } else {
        match parse_out_point(s.skip(1)) {
            Some((p, n)) => Some((p, n + 1)),
            None => None,
        }
    }
}

pub open spec fn parse_share_key(s: Seq<u8>) -> Option<((Seq<u8>, u16), nat)> {
    if s.len() < 1 || s[0] != 0x03 {
        None
    } else {
        match parse_raw(s.skip(1), 32) {
            Some((id, n)) => match parse_u16(s.skip(1 + n as int)) {
                Some((p, m)) => Some(((id, p), 1 + n + m)),
                None => None,
            },
            None => None,
        }
    }
}

pub open spec fn parse_event_key(s: Seq<u8>) -> Option<(EventView, nat)> {
    if s.len() < 1 || s[0] != 0x04 {
        None
    } else {
        match parse_event(s.skip(1)) {
            Some((e, n)) => Some((e, n + 1)),
            None => None,
        }
    }
}

/// Prefix queries find what they ask for: every key of a table starts with
/// the table's prefix byte, and a signature share key starts with the
/// encoding of the prefix that selects its event's shares.
pub proof fn lemma_key_prefixes(
    account: Seq<u8>,
    out_point: (Seq<u8>, u64),
    id: Seq<u8>,
    peer: u16,
    e: EventView,
)
    requires
        id.len() == 32,
    ensures
        enc_funds_key(account)[0] == DbKeyPrefix::Funds.spec_byte(),
        enc_outcome_key(out_point)[0] == DbKeyPrefix::Outcome.spec_byte(),
        enc_share_key(id, peer)[0] == DbKeyPrefix::SignatureShare.spec_byte(),
        enc_event_key(e)[0] == DbKeyPrefix::Event.spec_byte(),
        enc_share_key(id, peer).take(33) == enc_share_prefix(id),
{
    assert(enc_share_key(id, peer).take(33) =~= enc_share_prefix(id));
}

/// Encode-then-decode gives back every key of the module's tables.
pub proof fn lemma_key_round_trip(account: Seq<u8>, out_point: (Seq<u8>, u64), id: Seq<u8>, peer: u16, e: EventView)
    requires
        account.len() == 32,
        out_point.0.len() == 32,
        id.len() == 32,
        canonical_event_text(e.json),
        nostr_event_id(e.json) == Some(e.id),
        e.json.len() <= u64::MAX,
    ensures
        whole(parse_funds_key(enc_funds_key(account)), 33) == Some(account),
        whole(parse_outcome_key(enc_outcome_key(out_point)), 41) == Some(out_point),
        whole(parse_share_key(enc_share_key(id, peer)), 35) == Some((id, peer)),
        whole(parse_event_key(enc_event_key(e)), enc_event_key(e).len()) == Some(e),
{
    let empty = Seq::<u8>::empty();
    assert(enc_funds_key(account).skip(1) =~= account + empty);
    lemma_raw_round_trip(account, empty);
    assert(enc_outcome_key(out_point).skip(1) =~= enc_out_point(out_point) + empty);
    lemma_out_point_round_trip(out_point, empty);
    let k = enc_share_key(id, peer);
    assert(k.skip(1) =~= id + enc_u16(peer));
    lemma_raw_round_trip(id, enc_u16(peer));
    assert(k.skip(33) =~= enc_u16(peer) + empty);
    lemma_u16_round_trip(peer, empty);
    assert(enc_event_key(e).skip(1) =~= enc_event(e) + empty);
    lemma_event_round_trip(e, empty);
}

impl DbKeyPrefix {
    /// The encoding of a query for every row of the table.
    pub fn prefix_bytes(&self) -> (r: Vec<u8>)
        ensures
            r@ == seq![self.spec_byte()],
    {
        let mut out: Vec<u8> = Vec::new();
        out.push(self.byte());
        assert(out@ =~= seq![self.spec_byte()]);
        out
    }
}

impl NostimintFundsKeyPrefixV0 {
    pub fn consensus_encode(&self) -> (r: Vec<u8>)
        ensures
            r@ == seq![0x01u8],
    {
        DbKeyPrefix::Funds.prefix_bytes()
    }
}

impl NostimintFundsPrefixV1 {
    pub fn consensus_encode(&self) -> (r: Vec<u8>)
        ensures
            r@ == seq![0x01u8],
    {
        DbKeyPrefix::Funds.prefix_bytes()
    }
}

impl NostimintOutcomePrefix {
    pub fn consensus_encode(&self) -> (r: Vec<u8>)
        ensures
            r@ == seq![0x02u8],
    {
        DbKeyPrefix::Outcome.prefix_bytes()
    }
}

impl NostimintSignatureSharePrefix {
    pub fn consensus_encode(&self) -> (r: Vec<u8>)
        ensures
            r@ == seq![0x03u8],
    {
        DbKeyPrefix::SignatureShare.prefix_bytes()
    }
}

impl NostimintKind1Prefix {
    pub fn consensus_encode(&self) -> (r: Vec<u8>)
        ensures
            r@ == seq![0x04u8],
    {
        DbKeyPrefix::Event.prefix_bytes()
    }
}

impl NostimintSignatureShareStringPrefix {
    pub fn consensus_encode(&self) -> (r: Vec<u8>)
        ensures
            r@ == enc_share_prefix(self.0@),
    {
        let mut out: Vec<u8> = Vec::new();
        out.push(0x03);
        write_raw(&mut out, &self.0.bytes);
        assert(out@ =~= enc_share_prefix(self.0@));
        out
    }
}

impl NostimintFundsKeyV0 {
    pub fn consensus_encode(&self) -> (r: Vec<u8>)
        ensures
            r@ == enc_funds_key(self.0@),
    {
        let mut out: Vec<u8> = Vec::new();
        out.push(0x01);
        write_raw(&mut out, &self.0.key);
        assert(out@ =~= enc_funds_key(self.0@));
        out
    }
}

impl NostimintFundsKeyV1 {
    pub fn consensus_encode(&self) -> (r: Vec<u8>)
        ensures
            r@ == enc_funds_key(self.0@),
    {
        let mut out: Vec<u8> = Vec::new();
        out.push(0x01);
        write_raw(&mut out, &self.0.key);
        assert(out@ =~= enc_funds_key(self.0@));
        out
    }

    pub fn consensus_decode(b: &[u8]) -> (r: Result<NostimintFundsKeyV1, DecodeError>)
        ensures
            decoded_as(r, b@, parse_funds_key(b@), |v: NostimintFundsKeyV1| v@),
    {
        if b.len() < 1 || b[0] != 0x01 {
            return Err(DecodeError::Invalid);
        }
        match read_array32(b, 1) {
            Some((key, p)) => if p == b.len() {
                Ok(NostimintFundsKeyV1(Account { key }))
            } else {
                Err(DecodeError::Invalid)
            },
            None => Err(DecodeError::Invalid),
        }
    }
}

impl NostimintOutcomeKey {
    pub fn consensus_encode(&self) -> (r: Vec<u8>)
        ensures
            r@ == enc_outcome_key(self@),
    {
        let mut out: Vec<u8> = Vec::new();
        out.push(0x02);
        write_raw(&mut out, &self.0.txid.bytes);
        write_u64(&mut out, self.0.out_idx);
        assert(out@ =~= enc_outcome_key(self@));
        out
    }

    pub fn consensus_decode(b: &[u8]) -> (r: Result<NostimintOutcomeKey, DecodeError>)
        ensures
            decoded_as(r, b@, parse_outcome_key(b@), |v: NostimintOutcomeKey| v@),
    {
        if b.len() < 1 || b[0] != 0x02 {
            return Err(DecodeError::Invalid);
        }
        match read_array32(b, 1) {
            Some((t, p)) => {
                assert(b@.skip(1).skip(32) =~= b@.skip(p as int));
                match read_u64(b, p) {
                    Some((i, q)) => if q == b.len() {
                        Ok(NostimintOutcomeKey(OutPoint { txid: TransactionId { bytes: t }, out_idx: i }))
                    } else {
                        Err(DecodeError::Invalid)
                    },
                    None => Err(DecodeError::Invalid),
                }
            },
            None => Err(DecodeError::Invalid),
        }
    }
}

impl NostimintSignatureShareKey {
    pub fn consensus_encode(&self) -> (r: Vec<u8>)
        ensures
            r@ == enc_share_key(self.0@, self.1.id),
    {
        let mut out: Vec<u8> = Vec::new();
        out.push(0x03);
        write_raw(&mut out, &self.0.bytes);
        write_u16(&mut out, self.1.id);
        assert(out@ =~= enc_share_key(self.0@, self.1.id));
        out
    }

    pub fn consensus_decode(b: &[u8]) -> (r: Result<NostimintSignatureShareKey, DecodeError>)
        ensures
            decoded_as(r, b@, parse_share_key(b@), |v: NostimintSignatureShareKey| v@),
    {
        if b.len() < 1 || b[0] != 0x03 {
            return Err(DecodeError::Invalid);
        }
        match read_array32(b, 1) {
            Some((id, p)) => {
                assert(b@.skip(1).skip(32) =~= b@.skip(p as int));
                match read_u16(b, p) {
                    Some((peer, q)) => if q == b.len() {
                        Ok(NostimintSignatureShareKey(EventId { bytes: id }, PeerId { id: peer }))
                    } else {
                        Err(DecodeError::Invalid)
                    },
                    None => Err(DecodeError::Invalid),
                }
            },
            None => Err(DecodeError::Invalid),
        }
    }
}

impl NostimintKind1Key {
    pub fn consensus_encode(&self) -> (r: Vec<u8>)
        ensures
            r@ == enc_event_key(self.0@),
    {
        let mut out: Vec<u8> = Vec::new();
        out.push(0x04);
        write_event(&mut out, &self.0);
        assert(out@ =~= enc_event_key(self.0@));
        out
    }

    pub fn consensus_decode(b: &[u8]) -> (r: Result<NostimintKind1Key, DecodeError>)
        ensures
            decoded_as(r, b@, parse_event_key(b@), |v: NostimintKind1Key| v.0@),
    {
        if b.len() < 1 || b[0] != 0x04 {
            return Err(DecodeError::Invalid);
        }
        match read_event(b, 1) {
            Some((e, p)) => if p == b.len() {
                Ok(NostimintKind1Key(e))
            } else {
                Err(DecodeError::Invalid)
            },
            None => Err(DecodeError::Invalid),
        }
    }
}

} // verus!
