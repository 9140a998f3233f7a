//! Error types shared by the relay engines.

use vstd::prelude::*;

verus! {

/// Hash of an Ethereum transaction the redeem service acted on.
#[derive(Clone, Debug, PartialEq, Eq)]
pub struct EthereumTransactionHash(pub Vec<u8>);

/// Business-rule failures surfaced by the affirm/redeem services.
#[derive(Clone, Debug, PartialEq, Eq)]
pub enum BizError {
    Bridger(String),
    /// Scanning ethereum too fast: scanned from, latest block number.
    ScanningEthereumTooFast(u64, u64),
    /// The affirming target block is less than the last confirmed block.
    AffirmingBlockLessThanLastConfirmed(u64, u64),
    /// The affirming target block is still pending.
    AffirmingBlockInPending(u64),
    /// The affirming target block is already played in the relayer game.
    AffirmingBlockInGame(u64),
    /// The shadow service returned an empty parcel for the block.
    ParcelFromShadowIsEmpty(u64),
    /// The redeeming block is newer than the last confirmed block.
    RedeemingBlockLargeThanLastConfirmed(EthereumTransactionHash, u64, u64),
    /// The transaction has already been redeemed.
    TxRedeemed(EthereumTransactionHash),
    /// The MMR root for the ethereum block is not filled yet.
    BlankEthereumMmrRoot(usize),
}

/// Failures of a relay iteration.  Any of these aborts the iteration and is
/// handed to the supervisor for backoff and retry.
#[derive(Clone, Debug, PartialEq, Eq)]
pub enum RelayError {
    /// Free-form failure carried up from a collaborator.
    Custom(String),
    /// A window of `expected` messages produced `actual` entries: a protocol
    /// invariant violation, never silently truncated.
    WindowSizeMismatch { expected: u64, actual: u64 },
    /// A chain read broke a lane invariant: the lower mark overtook the
    /// upper one.
    InvalidLaneState { lower: u64, upper: u64 },
    /// A proof piece that must carry at least one storage entry was empty.
    EmptyStorageProof,
    /// An accepted-message event for the nonce could not be found.
    MissingEvent { nonce: u64 },
    /// The signing key was rejected by the signer.
    InvalidSecretKey,
    /// The committee-update proof for the requested period is unavailable.
    UpdateUnavailable,
    /// The committee-update proof had an unsupported shape.
    UnsupportedProof,
    /// A hexadecimal string could not be decoded.
    InvalidHex,
    /// An upstream gas oracle refused the request.
    GasOracle(String),
}

} // verus!
