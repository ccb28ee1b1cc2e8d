//! The two request handlers, as the decisions they take between their pieces
//! of outside work.
//!
//! An account lookup is two steps around the blocking call: the address is
//! checked, and the worker's report becomes a response. A transaction search
//! is two steps around the store: once a connection was asked for, the query
//! is built or the pool's failure is reported, and the query's outcome
//! becomes a response. The caller performs the outside work between the
//! steps. Failure messages are fixed texts: no detail of a failure reaches
//! the client.

use crate::address::is_valid_address;
use crate::address::pubkey_decoding;
use crate::address::Address;
use crate::address::MAX_ADDRESS_TEXT_LEN;
use crate::bridge::check_address;
use crate::bridge::settle;
use crate::bridge::settled;
use crate::bridge::BridgeError;
use crate::bridge::WorkerReport;
use crate::filters::values_view;
use crate::filters::Transaction;
use crate::filters::TransactionFilters;
use crate::predicate::bound_values;
use crate::predicate::build_query;
use crate::predicate::query_template;
use crate::predicate::Query;
use crate::response::is_client_error;
use crate::response::is_server_error;
use crate::response::Response;
use crate::response::STATUS_BAD_REQUEST;
use crate::response::STATUS_INTERNAL_SERVER_ERROR;
use crate::response::STATUS_OK;
use vstd::prelude::*;

verus! {

/// The message for a malformed account address.
pub open spec fn invalid_address_message() -> Seq<char> {
    "Invalid account address"@
}

/// The message for an account lookup that the ledger node did not answer.
pub open spec fn account_failure_message() -> Seq<char> {
    "Failed to get account data"@
}

/// The message for a connection that the pool could not lend.
pub open spec fn pool_failure_message() -> Seq<char> {
    "DB pool error"@
}

/// The message for a query that the store did not answer.
pub open spec fn query_failure_message() -> Seq<char> {
    "Query failed"@
}

/// The status under which a failed account lookup is reported.
pub open spec fn bridge_error_status(failure: BridgeError) -> u16 {
    match failure {
        BridgeError::InvalidAddress => STATUS_BAD_REQUEST,
        BridgeError::RpcUnavailable => STATUS_INTERNAL_SERVER_ERROR,
        BridgeError::RpcTimeout => STATUS_INTERNAL_SERVER_ERROR,
    }
}

/// The message with which a failed account lookup is reported.
pub open spec fn bridge_error_message(failure: BridgeError) -> Seq<char> {
    match failure {
        BridgeError::InvalidAddress => invalid_address_message(),
        BridgeError::RpcUnavailable => account_failure_message(),
        BridgeError::RpcTimeout => account_failure_message(),
    }
}

/// Whether a response is the one owed for the outcome of an account lookup.
pub open spec fn answers_lookup<S>(response: Response<S>, outcome: Result<S, BridgeError>) -> bool {
    match outcome {
        Ok(snapshot) => response.is_json(STATUS_OK, snapshot),
        Err(failure) => response.is_text(
            bridge_error_status(failure),
            bridge_error_message(failure),
        ),
    }
}

/// Turns the outcome of an account lookup into a response: the snapshot is
/// carried as it came, a malformed address is the client's error, and any
/// other failure is a server error with a generic message.
pub fn account_response<S>(outcome: Result<S, BridgeError>) -> (response: Response<S>)
    ensures
        answers_lookup(response, outcome),
{
    match outcome {
        Ok(snapshot) => Response::ok(snapshot),
        Err(BridgeError::InvalidAddress) => Response::text(
            STATUS_BAD_REQUEST,
            "Invalid account address",
        ),
        Err(BridgeError::RpcUnavailable) => Response::text(
            STATUS_INTERNAL_SERVER_ERROR,
            "Failed to get account data",
        ),
        Err(BridgeError::RpcTimeout) => Response::text(
            STATUS_INTERNAL_SERVER_ERROR,
            "Failed to get account data",
        ),
    }
}

/// What an account request asks of the caller next.
#[derive(Debug, PartialEq, Eq)]
pub enum AccountStep<S> {
    /// Run the lookup for this address on an isolated worker.
    Lookup(Address),
    /// Answer at once; nothing is sent to the ledger node.
    Respond(Response<S>),
}

/// First step of `GET /account/{account_id}`: the lookup is dispatched
/// exactly when the address is well-formed. A malformed address is answered
/// at once with a client error.
pub fn begin_account_request<S>(account_id: &str) -> (step: AccountStep<S>)
    ensures
        match step {
            AccountStep::Lookup(address) => pubkey_decoding(account_id@) == Some(address@),
            AccountStep::Respond(response) => {
                &&& !is_valid_address(account_id@)
                &&& response.is_text(STATUS_BAD_REQUEST, invalid_address_message())
            },
        },
        account_id@.len() > MAX_ADDRESS_TEXT_LEN ==> step is Respond,
{
    match check_address(account_id) {
        Ok(address) => AccountStep::Lookup(address),
        Err(failure) => AccountStep::Respond(account_response(Err(failure))),
    }
}

/// Last step of `GET /account/{account_id}`: the worker's report becomes the
/// response.
pub fn finish_account_request<S>(report: WorkerReport<S>) -> (response: Response<S>)
    ensures
        answers_lookup(response, settled(report)),
{
    account_response(settle(report))
}

/// Why the pool lent no connection.
#[derive(Clone, Copy, Debug, PartialEq, Eq, Structural)]
pub enum PoolError {
    /// Every connection stayed leased for the whole of the bounded wait.
    PoolExhausted,
    /// The store could not be reached.
    StoreUnavailable,
}

/// The store did not answer the query.
#[derive(Clone, Copy, Debug, PartialEq, Eq, Structural)]
pub struct QueryFailed;

/// What a search request asks of the caller next.
#[derive(Debug, PartialEq, Eq)]
pub enum SearchStep {
    /// Run this query on the leased connection.
    Execute(Query),
    /// Answer at once.
    Respond(Response<Vec<Transaction>>),
}

/// First step of `GET /transactions`, taken when the pool has answered.
/// With a connection in hand the query for the filter set is built; without
/// one the request ends in a server error and no query is built.
pub fn begin_search(connection: Result<(), PoolError>, filters: &TransactionFilters) -> (step:
    SearchStep)
    ensures
        match step {
            SearchStep::Execute(query) => {
                &&& connection is Ok
                &&& query.sql@ == query_template(filters@)
                &&& values_view(query.params@) == bound_values(filters@)
            },
            SearchStep::Respond(response) => {
                &&& connection is Err
                &&& response.is_text(STATUS_INTERNAL_SERVER_ERROR, pool_failure_message())
            },
        },
{
    match connection {
        Ok(_) => SearchStep::Execute(build_query(filters)),
        Err(_) => SearchStep::Respond(
            Response::text(STATUS_INTERNAL_SERVER_ERROR, "DB pool error"),
        ),
    }
}

/// Last step of `GET /transactions`: the records go out in the order in
/// which the store returned them, and a failed query is a server error.
pub fn finish_search(outcome: Result<Vec<Transaction>, QueryFailed>) -> (response: Response<
    Vec<Transaction>,
>)
    ensures
        match outcome {
            Ok(records) => response.is_json(STATUS_OK, records),
            Err(_) => response.is_text(STATUS_INTERNAL_SERVER_ERROR, query_failure_message()),
        },
{
    match outcome {
        Ok(records) => Response::ok(records),
        Err(_) => Response::text(STATUS_INTERNAL_SERVER_ERROR, "Query failed"),
    }
}

/// Every failure of an account lookup is answered with a client or server
/// error and a plain-text message; only a malformed address is the client's.
pub proof fn lemma_lookup_failures_are_errors<S>(response: Response<S>, failure: BridgeError)
    requires
        answers_lookup(response, Err::<S, BridgeError>(failure)),
    ensures
        response.is_failure(),
        is_client_error(response.status) <==> failure == BridgeError::InvalidAddress,
        is_server_error(response.status) <==> failure != BridgeError::InvalidAddress,
{
}

} // verus!
