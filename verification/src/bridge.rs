//! The bridge to the ledger node: what is decided before the blocking call
//! is handed to an isolated worker, and what is made of the worker's report.
//!
//! The call itself runs with the caller, off the request-accepting
//! scheduler. Here an address is validated first, so that a malformed one
//! never reaches the network, and every way the call can end is translated
//! into a snapshot or a typed failure.

use crate::address::is_valid_address;
use crate::address::parse_address;
use crate::address::pubkey_decoding;
use crate::address::Address;
use vstd::prelude::*;

verus! {

/// Why an account lookup produced no snapshot.
#[derive(Clone, Copy, Debug, PartialEq, Eq, Structural)]
pub enum BridgeError {
    /// The address is malformed; nothing was sent.
    InvalidAddress,
    /// The network or the remote node failed, or the worker itself did.
    RpcUnavailable,
    /// The time allowed for the call ran out.
    RpcTimeout,
}

/// How the isolated worker's run of the blocking call ended.
#[derive(Debug, PartialEq, Eq)]
pub enum WorkerReport<S> {
    /// The node answered with the account's state.
    Snapshot(S),
    /// The call returned a failure.
    Failed,
    /// The call was abandoned after the time allowed for it.
    TimedOut,
    /// The worker ended without a result.
    Lost,
}

/// What the bridge makes of a worker's report.
pub open spec fn settled<S>(report: WorkerReport<S>) -> Result<S, BridgeError> {
    match report {
        WorkerReport::Snapshot(snapshot) => Ok(snapshot),
        WorkerReport::Failed => Err(BridgeError::RpcUnavailable),
        WorkerReport::TimedOut => Err(BridgeError::RpcTimeout),
        WorkerReport::Lost => Err(BridgeError::RpcUnavailable),
    }
}

/// Validates an address before anything is dispatched. A lookup goes ahead
/// exactly for a well-formed address, with the key that the text encodes.
pub fn check_address(account_id: &str) -> (checked: Result<Address, BridgeError>)
    ensures
        match checked {
            Ok(address) => pubkey_decoding(account_id@) == Some(address@),
            Err(failure) => failure == BridgeError::InvalidAddress && !is_valid_address(
                account_id@,
            ),
        },
        account_id@.len() > crate::address::MAX_ADDRESS_TEXT_LEN ==> checked == Err::<
            Address,
            BridgeError,
        >(BridgeError::InvalidAddress),
{
    match parse_address(account_id) {
        Some(address) => Ok(address),
        None => Err(BridgeError::InvalidAddress),
    }
}

/// Translates the worker's report: the snapshot passes through untouched,
/// and a worker that ended without a result counts as an unavailable node.
pub fn settle<S>(report: WorkerReport<S>) -> (outcome: Result<S, BridgeError>)
    ensures
        outcome == settled(report),
{
    match report {
        WorkerReport::Snapshot(snapshot) => Ok(snapshot),
        WorkerReport::Failed => Err(BridgeError::RpcUnavailable),
        WorkerReport::TimedOut => Err(BridgeError::RpcTimeout),
        WorkerReport::Lost => Err(BridgeError::RpcUnavailable),
    }
}

} // verus!
