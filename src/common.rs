//! Wire types shared by the client and the server, and the faucet account.
use vstd::prelude::*;
use vstd::string::StringSliceAdditionalSpecFns;
use crate::event::Event;
use crate::types::{Account, Amount};

verus! {

/// Unique name of this module.
pub const KIND: &'static str = "nostimint";

/// Modules are not compatible with older consensus versions.
pub const CONSENSUS_VERSION: u32 = 0;

/// One peer's partial signature over an event id.
#[derive(Clone, Copy, Debug, PartialEq, Eq, Hash)]
pub struct SignatureShare {
    pub bytes: [u8; 96],
}

/// A nonce for a future signing round.
#[derive(Clone, Copy, Debug, PartialEq, Eq, Structural, Hash)]
pub struct Nonce {
    pub value: u64,
}

/// Items that peers submit to consensus outside of transactions.
#[derive(Debug)]
pub enum NostimintConsensusItem {
    /// A sign request for an event, with the share of the peer that proposes it.
    Note(Event, SignatureShare),
}

/// Input of a federation transaction: spends `amount` from `account`.
#[derive(Clone, Copy, Debug, PartialEq, Eq, Hash)]
pub struct NostimintInput {
    pub amount: Amount,
    pub account: Account,
}

/// Output of a federation transaction: pays `amount` to `account`.
#[derive(Clone, Copy, Debug, PartialEq, Eq, Hash)]
pub struct NostimintOutput {
    pub amount: Amount,
    pub account: Account,
}

/// What a client learns of a processed output: the account's new balance.
#[derive(Clone, Copy, Debug, PartialEq, Eq, Hash)]
pub struct NostimintOutputOutcome(pub Amount, pub Account);

/// Errors that the server returns on transaction items.
#[derive(Clone, Copy, Debug, PartialEq, Eq, Structural, Hash)]
pub enum NostimintError {
    /// The paying account holds less than the input spends.
    NotEnoughFunds,
    /// The account's new balance would not fit in an amount.
    FundsOverflow,
}

impl NostimintError {
    pub fn message(&self) -> (r: String)
        ensures
            *self == NostimintError::NotEnoughFunds ==> r@ == "Not enough funds"@,
            *self == NostimintError::FundsOverflow ==> r@ == "Funds overflow"@,
    {
        match self {
            NostimintError::NotEnoughFunds => String::from_str("Not enough funds"),
            NostimintError::FundsOverflow => String::from_str("Funds overflow"),
        }
    }
}

/// Ties the module's wire types together.
pub struct NostimintModuleTypes;

/// What the client and the server share of the module's set-up.
pub struct NostimintCommonGen;

impl NostimintCommonGen {
    pub fn kind() -> (r: &'static str)
        ensures
            r@ == KIND@,
    {
        KIND
    }

    pub fn consensus_version() -> (r: u32)
        ensures
            r == CONSENSUS_VERSION,
    {
        CONSENSUS_VERSION
    }
}

/// The secret key of the faucet account, the 32 ASCII bytes of a fixed phrase.
pub const FED_SECRET_PHRASE: &'static str = "Money printer go brrr...........";

/// The x-only public key of a secp256k1 secret key, or `None` where the bytes
/// are no valid secret key.
pub uninterp spec fn secp_xonly_key_of(secret: Seq<u8>) -> Option<Seq<u8>>;

/// Relies on `secp256k1::KeyPair::from_seckey_slice`, which accepts 32 bytes
/// that encode a valid secret key, and on the x-only public key of that pair.
#[verifier::external_body]
fn xonly_public_key(secret: &[u8]) -> (r: Option<[u8; 32]>)
    ensures
        match r {
            Some(k) => secp_xonly_key_of(secret@) == Some(k@),
            None => secp_xonly_key_of(secret@) is None,
        },
{
    let secp = secp256k1::Secp256k1::new();
    let pair = secp256k1::KeyPair::from_seckey_slice(&secp, secret).ok()?;
    Some(pair.x_only_public_key().0.serialize())
}

/// The faucet account: inputs from it mint funds.
pub open spec fn faucet_key() -> Option<Seq<u8>> {
    secp_xonly_key_of(FED_SECRET_PHRASE.spec_bytes())
}

pub open spec fn is_faucet(a: Seq<u8>) -> bool {
    faucet_key() == Some(a)
}

/// The faucet account, derived from its fixed secret phrase.
pub fn fed_public_key() -> (r: Option<Account>)
    ensures
        match r {
            Some(a) => faucet_key() == Some(a@),
            None => faucet_key() is None,
        },
{
    match xonly_public_key(FED_SECRET_PHRASE.as_bytes()) {
        Some(key) => Some(Account { key }),
        None => None,
    }
}

/// Whether `account` is the faucet account.
pub fn is_fed_account(account: &Account) -> (r: bool)
    ensures
        r == is_faucet(account@),
{
    match fed_public_key() {
        Some(fed) => fed.same(account),
        None => false,
    }
}

} // verus!
