//! Plain value types shared by the client and the server.
use vstd::prelude::*;

verus! {

/// Compares two 32-byte strings.
pub fn bytes32_eq(a: &[u8; 32], b: &[u8; 32]) -> (r: bool)
    ensures
        r == (a@ == b@),
{
    let mut i: usize = 0;
    while i < 32
        invariant
            0 <= i <= 32,
            a@.len() == 32,
            b@.len() == 32,
            forall|j: int| 0 <= j < i ==> a@[j] == b@[j],
        decreases 32 - i,
    {
        if a[i] != b[i] {
            return false;
        }
        i = i + 1;
    }
    assert(a@ =~= b@);
    true
}

/// Compares two byte strings.
pub fn bytes_eq(a: &[u8], b: &[u8]) -> (r: bool)
    ensures
        r == (a@ == b@),
{
    if a.len() != b.len() {
        return false;
    }
    let mut i: usize = 0;
    while i < a.len()
        invariant
            0 <= i <= a@.len(),
            a@.len() == b@.len(),
            forall|j: int| 0 <= j < i ==> a@[j] == b@[j],
        decreases a@.len() - i,
    {
        if a[i] != b[i] {
            return false;
        }
        i = i + 1;
    }
    assert(a@ =~= b@);
    true
}

/// Compares two 48-byte strings.
pub fn bytes48_eq(a: &[u8; 48], b: &[u8; 48]) -> (r: bool)
    ensures
        r == (a@ == b@),
{
    let mut i: usize = 0;
    while i < 48
        invariant
            0 <= i <= 48,
            a@.len() == 48,
            b@.len() == 48,
            forall|j: int| 0 <= j < i ==> a@[j] == b@[j],
        decreases 48 - i,
    {
        if a[i] != b[i] {
            return false;
        }
        i = i + 1;
    }
    assert(a@ =~= b@);
    true
}

/// A non-negative quantity in minor monetary units (milli-satoshis).
#[derive(Clone, Copy, Debug, PartialEq, Eq, Structural, Hash)]
pub struct Amount {
    pub msats: u64,
}

impl Amount {
    pub fn zero() -> (r: Amount)
        ensures
            r.msats == 0,
    {
        Amount { msats: 0 }
    }

    pub fn from_msats(msats: u64) -> (r: Amount)
        ensures
            r.msats == msats,
    {
        Amount { msats }
    }
}

/// An account: the 32 bytes of an x-only public key.
#[derive(Clone, Copy, Debug, PartialEq, Eq, Hash)]
pub struct Account {
    pub key: [u8; 32],
}

impl View for Account {
    type V = Seq<u8>;

    open spec fn view(&self) -> Seq<u8> {
        self.key@
    }
}

impl Account {
    pub fn same(&self, other: &Account) -> (r: bool)
        ensures
            r == (self@ == other@),
    {
        bytes32_eq(&self.key, &other.key)
    }
}

/// The content-derived identifier of an event.
#[derive(Clone, Copy, Debug, PartialEq, Eq, Hash)]
pub struct EventId {
    pub bytes: [u8; 32],
}

impl View for EventId {
    type V = Seq<u8>;

    open spec fn view(&self) -> Seq<u8> {
        self.bytes@
    }
}

impl EventId {
    pub fn same(&self, other: &EventId) -> (r: bool)
        ensures
            r == (self@ == other@),
    {
        bytes32_eq(&self.bytes, &other.bytes)
    }
}

/// Identifies a member of the federation.
#[derive(Clone, Copy, Debug, PartialEq, Eq, Structural, Hash)]
pub struct PeerId {
    pub id: u16,
}

/// Identifies a federation transaction.
#[derive(Clone, Copy, Debug, PartialEq, Eq, Hash)]
pub struct TransactionId {
    pub bytes: [u8; 32],
}

impl View for TransactionId {
    type V = Seq<u8>;

    open spec fn view(&self) -> Seq<u8> {
        self.bytes@
    }
}

/// Groups the client states that belong to one user operation.
#[derive(Clone, Copy, Debug, PartialEq, Eq, Hash)]
pub struct OperationId {
    pub bytes: [u8; 32],
}

/// A specific output of a federation transaction.
#[derive(Clone, Copy, Debug, PartialEq, Eq, Hash)]
pub struct OutPoint {
    pub txid: TransactionId,
    pub out_idx: u64,
}

impl View for OutPoint {
    type V = (Seq<u8>, u64);

    open spec fn view(&self) -> (Seq<u8>, u64) {
        (self.txid@, self.out_idx)
    }
}

impl OutPoint {
    pub fn same(&self, other: &OutPoint) -> (r: bool)
        ensures
            r == (self@ == other@),
    {
        self.out_idx == other.out_idx && bytes32_eq(&self.txid.bytes, &other.txid.bytes)
    }
}

/// The key of a signature share row: one event, one peer.
#[derive(Clone, Copy, Debug, PartialEq, Eq, Hash)]
pub struct ShareKey {
    pub event: EventId,
    pub peer: PeerId,
}

impl View for ShareKey {
    type V = (Seq<u8>, u16);

    open spec fn view(&self) -> (Seq<u8>, u16) {
        (self.event@, self.peer.id)
    }
}

impl ShareKey {
    pub fn same(&self, other: &ShareKey) -> (r: bool)
        ensures
            r == (self@ == other@),
    {
        self.peer.id == other.peer.id && self.event.same(&other.event)
    }
}

} // verus!
