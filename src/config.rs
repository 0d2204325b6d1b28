//! Configuration of the module: generation parameters, the server's
//! configuration and what clients are given of it.
use vstd::prelude::*;
use crate::crypto::{bls_public_share_of, public_key_share_of};
use crate::types::{Amount, PeerId, bytes48_eq};

verus! {

/// Local parameters for config generation.
pub struct NostimintGenParamsLocal(pub String);

/// Consensus parameters for config generation.
pub struct NostimintGenParamsConsensus {
    pub tx_fee: Amount,
}

/// Parameters needed to generate this module's configuration.
pub struct NostimintGenParams {
    pub local: NostimintGenParamsLocal,
    pub consensus: NostimintGenParamsConsensus,
}

impl Default for NostimintGenParams {
    fn default() -> (r: Self)
        ensures
            r.consensus.tx_fee.msats == 0,
            r.local.0@ == "example"@,
    {
        NostimintGenParams {
            local: NostimintGenParamsLocal(String::from_str("example")),
            consensus: NostimintGenParamsConsensus { tx_fee: Amount::zero() },
        }
    }
}

/// Local configuration, unique to each peer.
pub struct NostimintConfigLocal {
    pub example: String,
}

/// Configuration that is the same at every peer.
pub struct NostimintConfigConsensus {
    /// Completing a signature takes more than this many valid shares.
    pub threshold: usize,
    /// The public key share of each peer, indexed by peer id.
    pub public_key_shares: Vec<[u8; 48]>,
    /// The federation's public key.
    pub public_key: [u8; 48],
    /// Fee charged on each input and output.
    pub tx_fee: Amount,
}

/// Configuration that is not shared: key material.
pub struct NostimintConfigPrivate {
    /// This peer's secret key share, as the big-endian bytes of its field
    /// element.
    pub private_key_share: [u8; 32],
}

/// The whole configuration of one peer.
pub struct NostimintConfig {
    pub local: NostimintConfigLocal,
    pub private: NostimintConfigPrivate,
    pub consensus: NostimintConfigConsensus,
}

/// The configuration that clients see.
#[derive(Clone, Copy, Debug, PartialEq, Eq, Hash)]
pub struct NostimintClientConfig {
    pub tx_fee: Amount,
    pub fed_public_key: [u8; 48],
}

/// The configuration of a peer does not hold together.
#[derive(Clone, Copy, Debug, PartialEq, Eq, Structural, Hash)]
pub enum ConfigError {
    /// The peer id has no public key share in the configuration.
    UnknownPeer,
    /// The private key share does not match the peer's public key share.
    KeyShareMismatch,
    /// The private key share's bytes are no field element.
    InvalidKeyShare,
}

/// What clients are given of the consensus configuration.
pub fn get_client_config(config: &NostimintConfigConsensus) -> (r: NostimintClientConfig)
    ensures
        r.tx_fee == config.tx_fee,
        r.fed_public_key@ == config.public_key@,
{
    NostimintClientConfig { tx_fee: config.tx_fee, fed_public_key: config.public_key }
}

/// Checks that `derived`, the public key share derived from a peer's private
/// key share, is the share that the configuration lists for that peer.
pub fn check_key_share(derived: &[u8; 48], config: &NostimintConfigConsensus, identity: PeerId) -> (r:
    Result<(), ConfigError>)
    ensures
        identity.id >= config.public_key_shares@.len() ==> r == Err::<(), ConfigError>(
            ConfigError::UnknownPeer,
        ),
        identity.id < config.public_key_shares@.len() ==> (r is Ok <==> derived@
            == config.public_key_shares@[identity.id as int]@),
        identity.id < config.public_key_shares@.len() && r is Err ==> r == Err::<(), ConfigError>(
            ConfigError::KeyShareMismatch,
        ),
{
    let i = identity.id as usize;
    if i >= config.public_key_shares.len() {
        return Err(ConfigError::UnknownPeer);
    }
    if bytes48_eq(derived, &config.public_key_shares[i]) {
        Ok(())
    } else {
        Err(ConfigError::KeyShareMismatch)
    }
}

/// Whether peer `identity`'s private key share matches the public key share
/// that the configuration lists for it.
pub open spec fn key_share_matches(config: &NostimintConfig, identity: PeerId) -> bool {
    &&& identity.id < config.consensus.public_key_shares@.len()
    &&& bls_public_share_of(config.private.private_key_share@) == Some(
        config.consensus.public_key_shares@[identity.id as int]@,
    )
}

/// Checks that a peer's private key share matches its public key share.
pub fn validate_config(identity: PeerId, config: &NostimintConfig) -> (r: Result<(), ConfigError>)
    ensures
        r is Ok <==> key_share_matches(config, identity),
        bls_public_share_of(config.private.private_key_share@) is None ==> r == Err::<
            (),
            ConfigError,
        >(ConfigError::InvalidKeyShare),
        bls_public_share_of(config.private.private_key_share@) is Some && identity.id
            >= config.consensus.public_key_shares@.len() ==> r == Err::<(), ConfigError>(
            ConfigError::UnknownPeer,
        ),
        bls_public_share_of(config.private.private_key_share@) is Some && identity.id
            < config.consensus.public_key_shares@.len() && r is Err ==> r == Err::<(), ConfigError>(
            ConfigError::KeyShareMismatch,
        ),
{
    match public_key_share_of(&config.private.private_key_share) {
        Some(derived) => check_key_share(&derived, &config.consensus, identity),
        None => Err(ConfigError::InvalidKeyShare),
    }
}

} // verus!
