//! The server side of the module: the transaction processor, the consensus
//! engine that collects signature shares, and the API endpoints.
use vstd::prelude::*;
use crate::common::{
    NostimintConsensusItem, NostimintError, NostimintInput, NostimintOutput,
    NostimintOutputOutcome, SignatureShare, fed_public_key, is_faucet,
};
use crate::common::CONSENSUS_VERSION;
use crate::config::{
    ConfigError, NostimintClientConfig, NostimintConfig, NostimintConfigConsensus,
    NostimintConfigLocal, NostimintConfigPrivate, NostimintGenParams, get_client_config,
    key_share_matches, validate_config,
};
use crate::db::{DbKeyPrefix, migrate_to_v1, migrated_funds};
use crate::table::keys_unique;
use crate::crypto::{bls_public_share_of, bls_share_valid, bls_sign_share_of, sign_share, verify_share};
use crate::db::{
    NostimintFundsKeyV1, NostimintKind1Key, NostimintOutcomeKey, NostimintSignatureShareKey,
    ServerDb, funds_of, shares_without,
};
use crate::event::{Event, EventView};
use crate::ledger::{funds_after_input, input_accepted, input_step, output_step};
use crate::types::{Account, Amount, EventId, OutPoint, PeerId};

verus! {

/// The amount and fee of one transaction item.
#[derive(Clone, Copy, Debug, PartialEq, Eq, Structural, Hash)]
pub struct TransactionItemAmount {
    pub amount: Amount,
    pub fee: Amount,
}

/// What processing an input tells the host.
pub struct InputMeta {
    pub amount: TransactionItemAmount,
    /// Keys that must sign the transaction that holds the input.
    pub pub_keys: Vec<Account>,
}

/// An in-memory cache for faster validation of inputs; this module needs none.
#[derive(Clone, Copy, Debug)]
pub struct NostimintVerificationCache;

/// One account's line in the federation's audit, in milli-satoshis: the
/// faucet's funds count as an asset, every other account's as a liability.
#[derive(Clone, Copy, Debug, PartialEq, Eq, Hash)]
pub struct AuditItem {
    pub account: Account,
    pub milli_sat: i128,
}

/// Why a consensus item was rejected.
#[derive(Clone, Copy, Debug, PartialEq, Eq, Structural, Hash)]
pub enum ConsensusItemError {
    /// The peer's share for this event is already recorded.
    DuplicateShare,
    /// The share does not verify under the peer's public key share.
    InvalidShare,
}

/// Whether `share` is peer `peer`'s valid share over event id `id`.
pub open spec fn share_valid(
    cfg: &NostimintConfigConsensus,
    peer: u16,
    share: SignatureShare,
    id: Seq<u8>,
) -> bool {
    &&& peer < cfg.public_key_shares@.len()
    &&& bls_share_valid(cfg.public_key_shares@[peer as int]@, share.bytes@, id)
}

/// Every recorded share verifies under its peer's public key share.
pub open spec fn shares_valid(db: &ServerDb, cfg: &NostimintConfigConsensus) -> bool {
    forall|k: (Seq<u8>, u16)| #[trigger]
        db.shares.map().contains_key(k) ==> share_valid(cfg, k.1, db.shares.map()[k], k.0)
}

/// The number of share rows of event `id`.
pub open spec fn count_shares(rows: Seq<((Seq<u8>, u16), SignatureShare)>, id: Seq<u8>) -> nat
    decreases rows.len(),
{
    if rows.len() == 0 {
        0
    } else {
        count_shares(rows.drop_last(), id) + if rows.last().0.0 == id {
            1nat
        } else {
            0nat
        }
    }
}

/// The events still waiting for signatures, in table order.
pub open spec fn pending_events(entries: Seq<(NostimintKind1Key, Option<Event>)>) -> Seq<EventView>
    decreases entries.len(),
{
    if entries.len() == 0 {
        Seq::empty()
    } else if entries.last().1 is None {
        pending_events(entries.drop_last()).push(entries.last().0.0@)
    } else {
        pending_events(entries.drop_last())
    }
}

/// The event map after a sign request for event `id`: a new event waits for
/// signatures, a known one keeps its row.
pub open spec fn requested(m: Map<Seq<u8>, Option<Event>>, id: Seq<u8>) -> Map<
    Seq<u8>,
    Option<Event>,
> {
    if m.contains_key(id) {
        m
    } else {
        m.insert(id, None)
    }
}

/// A second sign request for the same event changes nothing that the first
/// left: in particular it does not erase a completed signature.
pub proof fn lemma_sign_request_idempotent(m: Map<Seq<u8>, Option<Event>>, id: Seq<u8>)
    ensures
        requested(requested(m, id), id) == requested(m, id),
        m.contains_key(id) ==> requested(m, id)[id] == m[id],
{
}

/// At most one share row exists for each event and peer: every operation
/// keeps the database well formed, and a well-formed share table has no two
/// rows with the same event and peer.
pub proof fn lemma_one_share_per_peer(db: &ServerDb, i: int, j: int)
    requires
        db.wf(),
        0 <= i < db.shares.rows().len(),
        0 <= j < db.shares.rows().len(),
        db.shares.rows()[i].0 == db.shares.rows()[j].0,
    ensures
        i == j,
{
    assert(keys_unique(db.shares.rows()));
}

/// The module at one peer.
pub struct Nostimint {
    pub cfg: NostimintConfig,
}

impl Nostimint {
    pub fn new(cfg: NostimintConfig) -> (r: Nostimint)
        ensures
            r.cfg == cfg,
    {
        Nostimint { cfg }
    }

    pub fn build_verification_cache(&self) -> (r: NostimintVerificationCache) {
        NostimintVerificationCache
    }

    /// Spends `input.amount` from its account, or mints it where the account
    /// is the faucet.
    pub fn process_input(
        &self,
        db: &mut ServerDb,
        input: &NostimintInput,
        _cache: &NostimintVerificationCache,
    ) -> (r: Result<InputMeta, NostimintError>)
        requires
            old(db).wf(),
        ensures
            final(db).wf(),
            r is Ok <==> input_accepted(old(db).funds.map(), *input) && funds_after_input(
                old(db).funds.map(),
                *input,
            ) <= u64::MAX,
            !input_accepted(old(db).funds.map(), *input) ==> r matches Err(
                NostimintError::NotEnoughFunds,
            ),
            input_accepted(old(db).funds.map(), *input) && funds_after_input(
                old(db).funds.map(),
                *input,
            ) > u64::MAX ==> r matches Err(NostimintError::FundsOverflow),
            r is Err ==> *final(db) == *old(db),
            r matches Ok(meta) ==> {
                &&& input_step(old(db).funds.rows(), *input, final(db).funds.rows())
                &&& final(db).funds.map() == old(db).funds.map().insert(
                    input.account@,
                    Amount { msats: funds_after_input(old(db).funds.map(), *input) as u64 },
                )
                &&& meta.amount.amount == input.amount
                &&& meta.amount.fee == self.cfg.consensus.tx_fee
                &&& meta.pub_keys@ == seq![input.account]
            },
            final(db).legacy_funds == old(db).legacy_funds,
            final(db).outcomes == old(db).outcomes,
            final(db).shares == old(db).shares,
            final(db).events == old(db).events,
    {
        let key = NostimintFundsKeyV1(input.account);
        let current: u64 = match db.funds.get(&key) {
            Some(a) => a.msats,
            None => 0,
        };
        let fed = crate::common::is_fed_account(&input.account);
        if input.amount.msats > current && !fed {
            return Err(NostimintError::NotEnoughFunds);
        }
        let updated: u64 = if fed {
            if current > u64::MAX - input.amount.msats {
                return Err(NostimintError::FundsOverflow);
            }
            current + input.amount.msats
        } else {
            current - input.amount.msats
        };
        db.funds.insert(key, Amount { msats: updated });
        let mut pub_keys: Vec<Account> = Vec::new();
        pub_keys.push(input.account);
        proof {
            assert(pub_keys@ =~= seq![input.account]);
        }
        Ok(
            InputMeta {
                amount: TransactionItemAmount {
                    amount: input.amount,
                    fee: self.cfg.consensus.tx_fee,
                },
                pub_keys,
            },
        )
    }

    /// Pays `output.amount` to its account and records the account's new
    /// funds as the outcome of `out_point`. The new funds must fit in an
    /// amount.
    pub fn process_output(&self, db: &mut ServerDb, output: &NostimintOutput, out_point: OutPoint) -> (r:
        Result<TransactionItemAmount, NostimintError>)
        requires
            old(db).wf(),
            funds_of(old(db).funds.map(), output.account@) + output.amount.msats <= u64::MAX,
        ensures
            final(db).wf(),
            r matches Ok(amount) && amount.amount == output.amount && amount.fee == self.cfg.consensus.tx_fee,
            ({
                let updated = Amount {
                    msats: (funds_of(old(db).funds.map(), output.account@)
                        + output.amount.msats) as u64,
                };
                &&& output_step(old(db).funds.rows(), *output, final(db).funds.rows())
                &&& final(db).funds.map() == old(db).funds.map().insert(output.account@, updated)
                &&& final(db).outcomes.map() == old(db).outcomes.map().insert(
                    out_point@,
                    NostimintOutputOutcome(updated, output.account),
                )
            }),
            final(db).legacy_funds == old(db).legacy_funds,
            final(db).shares == old(db).shares,
            final(db).events == old(db).events,
    {
        let key = NostimintFundsKeyV1(output.account);
        let current: u64 = match db.funds.get(&key) {
            Some(a) => a.msats,
            None => 0,
        };
        let updated = Amount { msats: current + output.amount.msats };
        db.funds.insert(key, updated);
        db.outcomes.insert(NostimintOutcomeKey(out_point), NostimintOutputOutcome(updated, output.account));
        Ok(TransactionItemAmount { amount: output.amount, fee: self.cfg.consensus.tx_fee })
    }

    /// The outcome of an output, once it is processed.
    pub fn output_status(&self, db: &ServerDb, out_point: OutPoint) -> (r: Option<NostimintOutputOutcome>)
        requires
            db.wf(),
        ensures
            match r {
                Some(o) => db.outcomes.map().contains_key(out_point@) && db.outcomes.map()[out_point@] == o,
                None => !db.outcomes.map().contains_key(out_point@),
            },
    {
        match db.outcomes.get(&NostimintOutcomeKey(out_point)) {
            Some(o) => Some(*o),
            None => None,
        }
    }

    /// One audit line per funds row, in table order.
    pub fn audit(&self, db: &ServerDb) -> (r: Vec<AuditItem>)
        ensures
            r@.len() == db.funds.rows().len(),
            forall|i: int| 0 <= i < r@.len() ==> {
                let row = #[trigger] db.funds.rows()[i];
                &&& r@[i].account@ == row.0
                &&& r@[i].milli_sat == if is_faucet(row.0) {
                    row.1.msats as int
                } else {
                    -(row.1.msats as int)
                }
            },
    {
        let fed = fed_public_key();
        let mut items: Vec<AuditItem> = Vec::new();
        let n = db.funds.len();
        let mut i: usize = 0;
        while i < n
            invariant
                n == db.funds.rows().len(),
                0 <= i <= n,
                items@.len() == i,
                match fed {
                    Some(a) => crate::common::faucet_key() == Some(a@),
                    None => crate::common::faucet_key() is None,
                },
                forall|j: int| 0 <= j < i ==> {
                    let row = #[trigger] db.funds.rows()[j];
                    &&& items@[j].account@ == row.0
                    &&& items@[j].milli_sat == if is_faucet(row.0) {
                        row.1.msats as int
                    } else {
                        -(row.1.msats as int)
                    }
                },
            decreases n - i,
        {
            let account = db.funds.key_at(i).0;
            let msats = db.funds.value_at(i).msats;
            let is_fed = match &fed {
                Some(f) => f.same(&account),
                None => false,
            };
            let milli_sat: i128 = if is_fed {
                msats as i128
            } else {
                -(msats as i128)
            };
            items.push(AuditItem { account, milli_sat });
            i = i + 1;
        }
        items
    }

    /// Records a sign request for `event` where none is recorded, and returns
    /// the event's id.
    pub fn sign_note(&self, db: &mut ServerDb, event: Event) -> (r: EventId)
        requires
            old(db).wf(),
        ensures
            final(db).wf(),
            r@ == event@.id,
            final(db).events.map() == requested(old(db).events.map(), event@.id),
            !old(db).events.map().contains_key(event@.id) ==> final(db).events.rows()
                == old(db).events.rows().push((event@.id, None::<Event>)),
            old(db).events.map().contains_key(event@.id) ==> *final(db) == *old(db),
            final(db).funds == old(db).funds,
            final(db).legacy_funds == old(db).legacy_funds,
            final(db).outcomes == old(db).outcomes,
            final(db).shares == old(db).shares,
    {
        let id = event.id();
        let key = NostimintKind1Key(event);
        if db.events.find(&key).is_none() {
            db.events.insert(key, None);
        }
        id
    }

    /// The completed event, once the federation has signed it.
    pub fn signed_note(&self, db: &ServerDb, event: &Event) -> (r: Option<Event>)
        requires
            db.wf(),
        ensures
            match r {
                Some(e) => db.events.map().contains_key(event@.id) && (db.events.map()[event@.id] matches Some(
                    s,
                ) && e@ == s@),
                None => !(db.events.map().contains_key(event@.id) && db.events.map()[event@.id] is Some),
            },
    {
        match db.events.get(&NostimintKind1Key(event.copy())) {
            Some(Some(e)) => Some(e.copy()),
            _ => None,
        }
    }

    /// Whether some event waits for signatures, so that a proposal is due.
    pub fn has_pending_events(&self, db: &ServerDb) -> (r: bool)
        ensures
            r == (pending_events(db.events.entries()).len() > 0),
    {
        let ghost entries = db.events.entries();
        let n = db.events.len();
        let mut i: usize = 0;
        while i < n
            invariant
                n == entries.len(),
                n == db.events.rows().len(),
                entries == db.events.entries(),
                0 <= i <= n,
                pending_events(entries.take(i as int)).len() == 0,
            decreases n - i,
        {
            assert(entries.take(i as int + 1).drop_last() =~= entries.take(i as int));
            if db.events.value_at(i).is_none() {
                assert(pending_events(entries.take(i as int + 1)).len() > 0);
                assert(pending_events(entries.take(i as int + 1)).len() <= pending_events(entries).len()) by {
                    lemma_pending_prefix(entries, i as int + 1);
                }
                return true;
            }
            i = i + 1;
        }
        assert(entries.take(n as int) =~= entries);
        false
    }

    /// This peer's proposal: for every event that waits for signatures, the
    /// event with this peer's signature share over its id. A secret key share
    /// whose bytes are no field element signs nothing.
    pub fn consensus_proposal(&self, db: &ServerDb) -> (r: Vec<NostimintConsensusItem>)
        ensures
            ({
                let secret = self.cfg.private.private_key_share@;
                &&& bls_public_share_of(secret) is None ==> r@.len() == 0
                &&& bls_public_share_of(secret) is Some ==> r@.len() == pending_events(
                    db.events.entries(),
                ).len()
                &&& forall|i: int| 0 <= i < r@.len() ==> (match #[trigger] r@[i] {
                    NostimintConsensusItem::Note(e, s) => {
                        &&& e@ == pending_events(db.events.entries())[i]
                        &&& s.bytes@ == bls_sign_share_of(secret, e@.id)
                        &&& bls_share_valid(bls_public_share_of(secret)->0, s.bytes@, e@.id)
                    },
                })
            }),
            forall|i: int, p: u16|
                #![trigger r@[i], key_share_matches(&self.cfg, PeerId { id: p })]
                0 <= i < r@.len() && key_share_matches(&self.cfg, PeerId { id: p }) ==> (match r@[i] {
                    NostimintConsensusItem::Note(e, s) => share_valid(&self.cfg.consensus, p, s, e@.id),
                }),
    {
        let ghost secret = self.cfg.private.private_key_share@;
        let ghost entries = db.events.entries();
        let n = db.events.len();
        let mut items: Vec<NostimintConsensusItem> = Vec::new();
        let mut i: usize = 0;
        while i < n
            invariant
                n == entries.len(),
                n == db.events.rows().len(),
                entries == db.events.entries(),
                secret == self.cfg.private.private_key_share@,
                0 <= i <= n,
                bls_public_share_of(secret) is None ==> items@.len() == 0,
                bls_public_share_of(secret) is Some ==> items@.len() == pending_events(
                    entries.take(i as int),
                ).len(),
                forall|j: int| 0 <= j < items@.len() ==> (match #[trigger] items@[j] {
                    NostimintConsensusItem::Note(e, s) => {
                        &&& e@ == pending_events(entries.take(i as int))[j]
                        &&& s.bytes@ == bls_sign_share_of(secret, e@.id)
                        &&& bls_share_valid(bls_public_share_of(secret)->0, s.bytes@, e@.id)
                    },
                }),
            decreases n - i,
        {
            assert(entries.take(i as int + 1).drop_last() =~= entries.take(i as int));
            if db.events.value_at(i).is_none() {
                let event = db.events.key_at(i).0.copy();
                let id = event.id();
                if let Some(share) = sign_share(&self.cfg.private.private_key_share, &id.bytes) {
                    items.push(NostimintConsensusItem::Note(event, share));
                }
            }
            i = i + 1;
        }
        assert(entries.take(n as int) =~= entries);
        items
    }

    /// Handles a share that peer `peer` broadcast for an event: rejects a
    /// duplicate or an invalid share, records a valid one, and completes the
    /// event once more than `threshold` shares are recorded for it.
    pub fn process_consensus_item(
        &self,
        db: &mut ServerDb,
        item: NostimintConsensusItem,
        peer: PeerId,
    ) -> (r: Result<(), ConsensusItemError>)
        requires
            old(db).wf(),
        ensures
            final(db).wf(),
            shares_valid(&*old(db), &self.cfg.consensus) ==> shares_valid(&*final(db), &self.cfg.consensus),
            final(db).funds == old(db).funds,
            final(db).legacy_funds == old(db).legacy_funds,
            final(db).outcomes == old(db).outcomes,
            match item {
                NostimintConsensusItem::Note(e, s) => {
                    let key = (e@.id, peer.id);
                    let count = count_shares(old(db).shares.rows(), e@.id) + 1;
                    let threshold = self.cfg.consensus.threshold;
                    &&& old(db).shares.map().contains_key(key) ==> (r matches Err(
                        ConsensusItemError::DuplicateShare,
                    )) && *final(db) == *old(db)
                    &&& !old(db).shares.map().contains_key(key) && !share_valid(
                        &self.cfg.consensus,
                        peer.id,
                        s,
                        e@.id,
                    ) ==> (r matches Err(ConsensusItemError::InvalidShare)) && *final(db) == *old(db)
                    &&& r is Ok <==> !old(db).shares.map().contains_key(key) && share_valid(
                        &self.cfg.consensus,
                        peer.id,
                        s,
                        e@.id,
                    )
                    &&& r is Ok && count <= threshold ==> {
                        &&& final(db).shares.map() == old(db).shares.map().insert(key, s)
                        &&& final(db).events == old(db).events
                    }
                    &&& r is Ok && count > threshold ==> {
                        &&& final(db).shares.map() == shares_without(old(db).shares.map(), e@.id)
                        &&& final(db).events.map() == old(db).events.map().insert(e@.id, Some(e))
                    }
                    &&& (final(db).events.map().contains_key(e@.id) && final(db).events.map()[e@.id] is Some
                        && !(old(db).events.map().contains_key(e@.id) && old(db).events.map()[e@.id] is Some))
                        ==> count > threshold
                },
            },
    {
        let NostimintConsensusItem::Note(event, share) = item;
        let id = event.id();
        let key = NostimintSignatureShareKey(id, peer);
        if db.shares.find(&key).is_some() {
            return Err(ConsensusItemError::DuplicateShare);
        }
        let p = peer.id as usize;
        if p >= self.cfg.consensus.public_key_shares.len() {
            return Err(ConsensusItemError::InvalidShare);
        }
        if !verify_share(&self.cfg.consensus.public_key_shares[p], &share, &id.bytes) {
            return Err(ConsensusItemError::InvalidShare);
        }
        let ghost old_rows = db.shares.rows();
        db.shares.insert(key, share);
        proof {
            assert(db.shares.rows() == old_rows.push((key@, share)));
            assert(db.shares.rows().drop_last() =~= old_rows);
        }
        let count = count_shares_of(db, &id);
        if count <= self.cfg.consensus.threshold {
            return Ok(());
        }
        db.remove_shares_of(&id);
        proof {
            assert(shares_without(old(db).shares.map().insert(key@, share), id@) =~= shares_without(
                old(db).shares.map(),
                id@,
            ));
        }
        db.events.insert(NostimintKind1Key(event.copy()), Some(event));
        Ok(())
    }
}

/// The number of share rows of event `id`.
pub fn count_shares_of(db: &ServerDb, id: &EventId) -> (r: usize)
    ensures
        r == count_shares(db.shares.rows(), id@),
{
    let ghost rows = db.shares.rows();
    let n = db.shares.len();
    let mut count: usize = 0;
    let mut i: usize = 0;
    while i < n
        invariant
            n == rows.len(),
            rows == db.shares.rows(),
            0 <= i <= n,
            count == count_shares(rows.take(i as int), id@),
            count <= i,
        decreases n - i,
    {
        assert(rows.take(i as int + 1).drop_last() =~= rows.take(i as int));
        if db.shares.key_at(i).0.same(id) {
            count = count + 1;
        }
        i = i + 1;
    }
    assert(rows.take(n as int) =~= rows);
    count
}

proof fn lemma_pending_prefix(entries: Seq<(NostimintKind1Key, Option<Event>)>, i: int)
    requires
        0 <= i <= entries.len(),
    ensures
        pending_events(entries.take(i)).len() <= pending_events(entries).len(),
    decreases entries.len(),
{
    if i < entries.len() {
        assert(entries.drop_last().take(i) =~= entries.take(i));
        lemma_pending_prefix(entries.drop_last(), i);
    } else {
        assert(entries.take(i) =~= entries);
    }
}


/// Whether a dump of the database that asks for `names` covers `table`:
/// asking for no name covers every table.
pub open spec fn dump_selects(names: Seq<String>, table: DbKeyPrefix) -> bool {
    names.len() == 0 || exists|i: int| 0 <= i < names.len() && #[trigger] names[i]@ == table.spec_name()
}

pub open spec fn selected_table(names: Seq<String>, table: DbKeyPrefix) -> Seq<DbKeyPrefix> {
    if dump_selects(names, table) {
        seq![table]
    } else {
        Seq::empty()
    }
}

fn selects(names: &Vec<String>, table: DbKeyPrefix) -> (r: bool)
    ensures
        r == dump_selects(names@, table),
{
    if names.len() == 0 {
        return true;
    }
    let name = String::from_str(table.name());
    let mut i: usize = 0;
    while i < names.len()
        invariant
            0 <= i <= names@.len(),
            name@ == table.spec_name(),
            forall|j: int| 0 <= j < i ==> names@[j]@ != table.spec_name(),
        decreases names@.len() - i,
    {
        if names[i] == name {
            return true;
        }
        i = i + 1;
    }
    false
}

/// Generates the server module and describes it to the host.
#[derive(Clone, Copy, Debug)]
pub struct NostimintGen;

impl NostimintGen {
    /// The version of the module's database layout.
    pub fn database_version(&self) -> (r: u32)
        ensures
            r == 1,
    {
        1
    }

    /// The consensus versions the module runs.
    pub fn versions(&self) -> (r: Vec<u32>)
        ensures
            r@ == seq![CONSENSUS_VERSION],
    {
        let mut v: Vec<u32> = Vec::new();
        v.push(CONSENSUS_VERSION);
        assert(v@ =~= seq![CONSENSUS_VERSION]);
        v
    }

    /// The core API version (major, minor) and the module API versions.
    pub fn supported_api_versions(&self) -> (r: (u32, u32, Vec<(u32, u32)>))
        ensures
            r.0 == 1,
            r.1 == 0,
            r.2@ == seq![(0u32, 0u32)],
    {
        let mut v: Vec<(u32, u32)> = Vec::new();
        v.push((0, 0));
        assert(v@ =~= seq![(0u32, 0u32)]);
        (1, 0, v)
    }

    /// The configuration of one peer, from the generation parameters and the
    /// keys that distributed key generation gave it.
    pub fn build_config(
        &self,
        params: &NostimintGenParams,
        threshold: usize,
        public_key_shares: Vec<[u8; 48]>,
        public_key: [u8; 48],
        private_key_share: [u8; 32],
    ) -> (r: NostimintConfig)
        ensures
            r.local.example@ == params.local.0@,
            r.consensus.threshold == threshold,
            r.consensus.public_key_shares@ == public_key_shares@,
            r.consensus.public_key@ == public_key@,
            r.consensus.tx_fee == params.consensus.tx_fee,
            r.private.private_key_share == private_key_share,
    {
        NostimintConfig {
            local: NostimintConfigLocal { example: params.local.0.clone() },
            private: NostimintConfigPrivate { private_key_share },
            consensus: NostimintConfigConsensus {
                threshold,
                public_key_shares,
                public_key,
                tx_fee: params.consensus.tx_fee,
            },
        }
    }

    /// Brings a database written at `version` to the current version and
    /// returns that version: version 0 runs the funds migration, later
    /// versions are left as they are.
    pub fn migrate_database(&self, db: &mut ServerDb, version: u32) -> (r: u32)
        requires
            old(db).wf(),
        ensures
            final(db).wf(),
            r == 1,
            version == 0 ==> final(db).funds.map() == migrated_funds(
                old(db).funds.map(),
                old(db).legacy_funds.map(),
            ) && final(db).legacy_funds.map().is_empty(),
            version != 0 ==> *final(db) == *old(db),
    {
        if version == 0 {
            migrate_to_v1(db);
        }
        1
    }

    pub fn init(&self, cfg: NostimintConfig) -> (r: Nostimint)
        ensures
            r.cfg == cfg,
    {
        Nostimint::new(cfg)
    }

    pub fn get_client_config(&self, config: &NostimintConfigConsensus) -> (r: NostimintClientConfig)
        ensures
            r.tx_fee == config.tx_fee,
            r.fed_public_key@ == config.public_key@,
    {
        get_client_config(config)
    }

    pub fn validate_config(&self, identity: PeerId, config: &NostimintConfig) -> (r: Result<(), ConfigError>)
        ensures
            r is Ok <==> key_share_matches(config, identity),
    {
        validate_config(identity, config)
    }

    /// The tables that a dump asking for `prefix_names` covers, in prefix
    /// order.
    pub fn dump_tables(&self, prefix_names: &Vec<String>) -> (r: Vec<DbKeyPrefix>)
        ensures
            r@ == selected_table(prefix_names@, DbKeyPrefix::Funds) + selected_table(
                prefix_names@,
                DbKeyPrefix::Outcome,
            ) + selected_table(prefix_names@, DbKeyPrefix::SignatureShare) + selected_table(
                prefix_names@,
                DbKeyPrefix::Event,
            ),
    {
        let mut tables: Vec<DbKeyPrefix> = Vec::new();
        if selects(prefix_names, DbKeyPrefix::Funds) {
            tables.push(DbKeyPrefix::Funds);
        }
        if selects(prefix_names, DbKeyPrefix::Outcome) {
            tables.push(DbKeyPrefix::Outcome);
        }
        if selects(prefix_names, DbKeyPrefix::SignatureShare) {
            tables.push(DbKeyPrefix::SignatureShare);
        }
        if selects(prefix_names, DbKeyPrefix::Event) {
            tables.push(DbKeyPrefix::Event);
        }
        assert(tables@ =~= selected_table(prefix_names@, DbKeyPrefix::Funds) + selected_table(
            prefix_names@,
            DbKeyPrefix::Outcome,
        ) + selected_table(prefix_names@, DbKeyPrefix::SignatureShare) + selected_table(
            prefix_names@,
            DbKeyPrefix::Event,
        ));
        tables
    }
}

} // verus!
