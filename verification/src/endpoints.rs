//! Where the client finds what it needs on the Aptos node, and how it reads
//! the epoch that the node reports.

use vstd::prelude::*;
use vstd::string::StringExecFns;

use crate::error::ClientError;
use crate::text::{decimal, parse_decimal, parse_u64, push_decimal};

verus! {

/// The account whose inclusion the client proves unless told otherwise.
pub const ACCOUNT: &'static str =
    "0x2d91309b5b07a8be428ccd75d0443e81542ffcd059d0ab380cefc552229b1a";

/// The path of the latest ledger info, below the base URL of the node.
pub const APTOS_LEDGER_INFO_ENDPOINT: &'static str = "/ledger_info";

/// The path of the witness of an epoch change, below the base URL of the node.
pub const APTOS_EPOCH_CHANGE_PROOF_ENDPOINT: &'static str = "/epoch_change_proof";

/// The path below which the inclusion witness of each account is found.
pub const APTOS_ACCOUNT_INCLUSION_ENDPOINT: &'static str = "/account_inclusion/";

/// The query that asks for the epoch change to one epoch.
pub const EPOCH_NUMBER_QUERY: &'static str = "?epoch_number=";

/// The media type that the client accepts from the node.
pub const ACCEPT_BCS: &'static str = "application/x-bcs";

/// The query that selects an epoch, or nothing where any epoch will do.
pub open spec fn epoch_query(specific_epoch: Option<u64>) -> Seq<char> {
    match specific_epoch {
        Some(epoch_number) => EPOCH_NUMBER_QUERY@ + decimal(epoch_number as nat),
        None => Seq::<char>::empty(),
    }
}

/// The path of the inclusion witness of `account`.
pub fn aptos_inclusion_proof_endpoint(account: &str) -> (path: String)
    ensures
        path@ == APTOS_ACCOUNT_INCLUSION_ENDPOINT@ + account@,
{
    let mut path = String::from_str(APTOS_ACCOUNT_INCLUSION_ENDPOINT);
    path.append(account);
    path
}

/// The address of the latest ledger info on the node at `aptos_node_url`.
pub fn ledger_info_url(aptos_node_url: &str) -> (url: String)
    ensures
        url@ == aptos_node_url@ + APTOS_LEDGER_INFO_ENDPOINT@,
{
    let mut url = String::from_str(aptos_node_url);
    url.append(APTOS_LEDGER_INFO_ENDPOINT);
    url
}

/// The address of the witness of an epoch change on the node at
/// `aptos_node_url`: of the change to `specific_epoch` where one is given, of
/// the latest change otherwise.
pub fn epoch_change_proof_url(aptos_node_url: &str, specific_epoch: Option<u64>) -> (url: String)
    ensures
        url@ == aptos_node_url@ + APTOS_EPOCH_CHANGE_PROOF_ENDPOINT@ + epoch_query(specific_epoch),
{
    let mut url = String::from_str(aptos_node_url);
    url.append(APTOS_EPOCH_CHANGE_PROOF_ENDPOINT);
    match specific_epoch {
        Some(epoch_number) => {
            url.append(EPOCH_NUMBER_QUERY);
            push_decimal(&mut url, epoch_number);
            assert(url@ =~= aptos_node_url@ + APTOS_EPOCH_CHANGE_PROOF_ENDPOINT@ + epoch_query(
                specific_epoch,
            ));
        },
        None => {
            assert(url@ =~= aptos_node_url@ + APTOS_EPOCH_CHANGE_PROOF_ENDPOINT@ + epoch_query(
                specific_epoch,
            ));
        },
    }
    url
}

/// The address of the inclusion witness of `account` on the node at
/// `aptos_node_url`.
pub fn inclusion_proof_url(aptos_node_url: &str, account: &str) -> (url: String)
    ensures
        url@ == aptos_node_url@ + APTOS_ACCOUNT_INCLUSION_ENDPOINT@ + account@,
{
    let mut url = String::from_str(aptos_node_url);
    url.append(APTOS_ACCOUNT_INCLUSION_ENDPOINT);
    url.append(account);
    url
}

/// Reads the epoch that the node reports, which it sends as decimal text.
/// Text that is no number of 64 bits fails with `Decode`.
pub fn node_epoch(text: &str) -> (result: Result<u64, ClientError>)
    ensures
        match result {
            Ok(epoch) => parse_decimal(text@) == Some(epoch as nat),
            Err(error) => {
                &&& error == ClientError::Decode
                &&& (parse_decimal(text@) is None || parse_decimal(text@).unwrap() > u64::MAX)
            },
        },
{
    match parse_u64(text) {
        Some(epoch) => Ok(epoch),
        None => Err(ClientError::Decode),
    }
}

} // verus!
