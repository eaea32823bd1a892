//! The Protocol Buffers encoding of what goes to a chain and comes from it.
//!
//! The encoding itself is the work of `cosmrs::proto`, whose message types are generated for
//! `prost`. Nothing of it is proved here. Each function below encodes or decodes one message type,
//! and its contract claims one thing: that the outcome is determined by the values handed in. A
//! failed decoding gives the text of the error that `prost` reports.
use crate::error::text_outcome;
use crate::message::{
    access_view, bytes_view, coins_view, messages_view, optional_message, reported_view, texts_view,
    AccessConfig, AccountView, Any, BaseAccount, Coin, InstantiateContractResponse, ReportedCoin,
    StoreCodeResponse,
};
use cosmrs::proto::cosmos::auth::v1beta1 as auth;
use cosmrs::proto::cosmos::bank::v1beta1 as bank;
use cosmrs::proto::cosmos::base::abci::v1beta1 as abci;
use cosmrs::proto::cosmos::base::v1beta1 as base;
use cosmrs::proto::cosmos::staking::v1beta1 as staking;
use cosmrs::proto::cosmos::tx::v1beta1 as tx;
use cosmrs::proto::cosmwasm::wasm::v1 as wasm;
use cosmrs::proto::traits::Message;
use vstd::prelude::*;

verus! {

/// The encoding of a `MsgStoreCode` message.
pub uninterp spec fn store_code_encoding(
    sender: Seq<char>,
    code: Seq<u8>,
    permission: Option<(i32, Seq<Seq<char>>)>,
) -> Seq<u8>;

/// Encodes a `MsgStoreCode` message with `prost::Message::encode_to_vec`. Claims that the bytes are
/// determined by the sender, the code and the permission.
#[verifier::external_body]
pub(crate) fn encode_store_code(
    sender: &str,
    code: &[u8],
    permission: &Option<AccessConfig>,
) -> (bytes: Vec<u8>)
    ensures
        bytes@ == store_code_encoding(sender@, code@, access_view(*permission)),
{
    wasm::MsgStoreCode {
        sender: sender.to_string(),
        wasm_byte_code: code.to_vec(),
        instantiate_permission: permission.as_ref().map(
            |access|
                wasm::AccessConfig {
                    permission: access.permission,
                    addresses: access.addresses.clone(),
                },
        ),
    }.encode_to_vec()
}

/// The encoding of a `MsgInstantiateContract`.
pub uninterp spec fn instantiate_encoding(
    sender: Seq<char>,
    admin: Seq<char>,
    code_id: u64,
    label: Seq<char>,
    msg: Seq<u8>,
    funds: Seq<(Seq<char>, u128)>,
) -> Seq<u8>;

/// Encodes a `MsgInstantiateContract` with `prost::Message::encode_to_vec`. Claims that the bytes
/// are determined by the values handed in.
#[verifier::external_body]
pub(crate) fn encode_instantiate(
    sender: &str,
    admin: &str,
    code_id: u64,
    label: &str,
    msg: &[u8],
    funds: &Vec<Coin>,
) -> (bytes: Vec<u8>)
    ensures
        bytes@ == instantiate_encoding(sender@, admin@, code_id, label@, msg@, coins_view(funds@)),
{
    wasm::MsgInstantiateContract {
        sender: sender.to_string(),
        admin: admin.to_string(),
        code_id,
        label: label.to_string(),
        msg: msg.to_vec(),
        funds: funds.iter().map(
            |coin|
                base::Coin {
                    denom: coin.denom.as_str().to_string(),
                    amount: coin.amount.to_string(),
                },
        ).collect(),
    }.encode_to_vec()
}

/// The encoding of a `MsgExecuteContract`.
pub uninterp spec fn execute_encoding(
    sender: Seq<char>,
    contract: Seq<char>,
    msg: Seq<u8>,
    funds: Seq<(Seq<char>, u128)>,
) -> Seq<u8>;

/// Encodes a `MsgExecuteContract` with `prost::Message::encode_to_vec`. Claims that the bytes are
/// determined by the values handed in.
#[verifier::external_body]
pub(crate) fn encode_execute(
    sender: &str,
    contract: &str,
    msg: &[u8],
    funds: &Vec<Coin>,
) -> (bytes: Vec<u8>)
    ensures
        bytes@ == execute_encoding(sender@, contract@, msg@, coins_view(funds@)),
{
    wasm::MsgExecuteContract {
        sender: sender.to_string(),
        contract: contract.to_string(),
        msg: msg.to_vec(),
        funds: funds.iter().map(
            |coin|
                base::Coin {
                    denom: coin.denom.as_str().to_string(),
                    amount: coin.amount.to_string(),
                },
        ).collect(),
    }.encode_to_vec()
}

/// The encoding of a `QuerySmartContractStateRequest`.
pub uninterp spec fn contract_query_encoding(address: Seq<char>, query_data: Seq<u8>) -> Seq<u8>;

/// Encodes a `QuerySmartContractStateRequest` with `prost::Message::encode_to_vec`. Claims that the
/// bytes are determined by the values handed in.
#[verifier::external_body]
pub(crate) fn encode_contract_query(address: &str, query_data: &[u8]) -> (bytes: Vec<u8>)
    ensures
        bytes@ == contract_query_encoding(address@, query_data@),
{
    wasm::QuerySmartContractStateRequest {
        address: address.to_string(),
        query_data: query_data.to_vec(),
    }.encode_to_vec()
}

/// The encoding of a `QueryBalanceRequest`.
pub uninterp spec fn balance_query_encoding(address: Seq<char>, denom: Seq<char>) -> Seq<u8>;

/// Encodes a `QueryBalanceRequest` with `prost::Message::encode_to_vec`. Claims that the bytes are
/// determined by the values handed in.
#[verifier::external_body]
pub(crate) fn encode_balance_query(address: &str, denom: &str) -> (bytes: Vec<u8>)
    ensures
        bytes@ == balance_query_encoding(address@, denom@),
{
    bank::QueryBalanceRequest {
        address: address.to_string(),
        denom: denom.to_string(),
    }.encode_to_vec()
}

/// The encoding of a `QueryValidatorsRequest` for the validators of a status. No pagination is
/// asked for.
pub uninterp spec fn validators_query_encoding(status: Seq<char>) -> Seq<u8>;

/// Encodes a `QueryValidatorsRequest` without a pagination, with `prost::Message::encode_to_vec`.
/// Claims that the bytes are determined by the status.
#[verifier::external_body]
pub(crate) fn encode_validators_query(status: &str) -> (bytes: Vec<u8>)
    ensures
        bytes@ == validators_query_encoding(status@),
{
    staking::QueryValidatorsRequest {
        status: status.to_string(),
        pagination: None,
    }.encode_to_vec()
}

/// The encoding of a `QueryAccountRequest`.
pub uninterp spec fn account_query_encoding(address: Seq<char>) -> Seq<u8>;

/// Encodes a `QueryAccountRequest` with `prost::Message::encode_to_vec`. Claims that the bytes are
/// determined by the values handed in.
#[verifier::external_body]
pub(crate) fn encode_account_query(address: &str) -> (bytes: Vec<u8>)
    ensures
        bytes@ == account_query_encoding(address@),
{
    auth::QueryAccountRequest { address: address.to_string() }.encode_to_vec()
}

/// The encoding of a `SimulateRequest`.
pub uninterp spec fn simulation_encoding(tx_bytes: Seq<u8>) -> Seq<u8>;

/// Encodes a `SimulateRequest` with `prost::Message::encode_to_vec`. Claims that the bytes are
/// determined by the values handed in.
#[verifier::external_body]
pub(crate) fn encode_simulation(tx_bytes: &[u8]) -> (bytes: Vec<u8>)
    ensures
        bytes@ == simulation_encoding(tx_bytes@),
{
    #[allow(deprecated)]
    let request = tx::SimulateRequest { tx: None, tx_bytes: tx_bytes.to_vec() };
    request.encode_to_vec()
}

/// The encoding of a `TxRaw`.
pub uninterp spec fn transaction_encoding(
    body: Seq<u8>,
    auth_info: Seq<u8>,
    signatures: Seq<Seq<u8>>,
) -> Seq<u8>;

/// Encodes a `TxRaw` with `prost::Message::encode_to_vec`. Claims that the bytes are determined by
/// the values handed in.
#[verifier::external_body]
pub(crate) fn encode_transaction(
    body: &[u8],
    auth_info: &[u8],
    signatures: &Vec<Vec<u8>>,
) -> (bytes: Vec<u8>)
    ensures
        bytes@ == transaction_encoding(body@, auth_info@, bytes_view(signatures@)),
{
    tx::TxRaw {
        body_bytes: body.to_vec(),
        auth_info_bytes: auth_info.to_vec(),
        signatures: signatures.clone(),
    }.encode_to_vec()
}

/// The message responses that the bytes hold as a `TxMsgData`, or why they hold none.
pub uninterp spec fn decoded_message_responses(bytes: Seq<u8>) -> Result<
    Seq<(Seq<char>, Seq<u8>)>,
    Seq<char>,
>;

/// Decodes a `TxMsgData` with `prost::Message::decode`. Claims that what comes out, and the text of
/// the error where nothing does, is determined by the bytes.
#[verifier::external_body]
pub(crate) fn decode_message_responses(bytes: &[u8]) -> (result: Result<Vec<Any>, String>)
    ensures
        (match result {
            Ok(value) => Ok(messages_view(value@)),
            Err(text) => Err(text@),
        }) == decoded_message_responses(bytes@),
{
    match abci::TxMsgData::decode(bytes) {
        Ok(data) => Ok(
            data.msg_responses.into_iter().map(
                |any| Any { type_url: any.type_url, value: any.value },
            ).collect(),
        ),
        Err(error) => Err(error.to_string()),
    }
}

/// The answer that the bytes hold as a `MsgStoreCodeResponse`, or why they hold none.
pub uninterp spec fn decoded_store_code_response(bytes: Seq<u8>) -> Result<
    (u64, Seq<u8>),
    Seq<char>,
>;

/// Decodes a `MsgStoreCodeResponse` with `prost::Message::decode`. Claims that what comes out, and
/// the text of the error where nothing does, is determined by the bytes.
#[verifier::external_body]
pub(crate) fn decode_store_code_response(bytes: &[u8]) -> (result: Result<
    StoreCodeResponse,
    String,
>)
    ensures
        text_outcome(result) == decoded_store_code_response(bytes@),
{
    match wasm::MsgStoreCodeResponse::decode(bytes) {
        Ok(response) => Ok(
            StoreCodeResponse { code_id: response.code_id, checksum: response.checksum },
        ),
        Err(error) => Err(error.to_string()),
    }
}

/// The answer that the bytes hold as a `MsgInstantiateContractResponse`, or why they hold none.
pub uninterp spec fn decoded_instantiate_response(bytes: Seq<u8>) -> Result<
    (Seq<char>, Seq<u8>),
    Seq<char>,
>;

/// Decodes a `MsgInstantiateContractResponse` with `prost::Message::decode`. Claims that what comes
/// out, and the text of the error where nothing does, is determined by the bytes.
#[verifier::external_body]
pub(crate) fn decode_instantiate_response(bytes: &[u8]) -> (result: Result<
    InstantiateContractResponse,
    String,
>)
    ensures
        text_outcome(result) == decoded_instantiate_response(bytes@),
{
    match wasm::MsgInstantiateContractResponse::decode(bytes) {
        Ok(response) => Ok(
            InstantiateContractResponse { address: response.address, data: response.data },
        ),
        Err(error) => Err(error.to_string()),
    }
}

/// The data that the bytes hold as a `QuerySmartContractStateResponse`, or why they hold none.
pub uninterp spec fn decoded_contract_answer(bytes: Seq<u8>) -> Result<Seq<u8>, Seq<char>>;

/// Decodes a `QuerySmartContractStateResponse` with `prost::Message::decode`. Claims that what
/// comes out, and the text of the error where nothing does, is determined by the bytes.
#[verifier::external_body]
pub(crate) fn decode_contract_answer(bytes: &[u8]) -> (result: Result<Vec<u8>, String>)
    ensures
        text_outcome(result) == decoded_contract_answer(bytes@),
{
    match wasm::QuerySmartContractStateResponse::decode(bytes) {
        Ok(response) => Ok(response.data),
        Err(error) => Err(error.to_string()),
    }
}

/// The balance, if one is there, that the bytes hold as a `QueryBalanceResponse`, or why they hold
/// none.
pub uninterp spec fn decoded_balance(bytes: Seq<u8>) -> Result<
    Option<(Seq<char>, Seq<char>)>,
    Seq<char>,
>;

/// Decodes a `QueryBalanceResponse` with `prost::Message::decode`. Claims that what comes out, and
/// the text of the error where nothing does, is determined by the bytes.
#[verifier::external_body]
pub(crate) fn decode_balance(bytes: &[u8]) -> (result: Result<Option<ReportedCoin>, String>)
    ensures
        (match result {
            Ok(value) => Ok(reported_view(value)),
            Err(text) => Err(text@),
        }) == decoded_balance(bytes@),
{
    match bank::QueryBalanceResponse::decode(bytes) {
        Ok(response) => Ok(
            response.balance.map(|coin| ReportedCoin { denom: coin.denom, amount: coin.amount }),
        ),
        Err(error) => Err(error.to_string()),
    }
}

/// The operator addresses of the validators that the bytes hold as a `QueryValidatorsResponse`, or
/// why they hold none.
pub uninterp spec fn decoded_validators(bytes: Seq<u8>) -> Result<Seq<Seq<char>>, Seq<char>>;

/// Decodes a `QueryValidatorsResponse` with `prost::Message::decode`. Claims that what comes out,
/// and the text of the error where nothing does, is determined by the bytes.
#[verifier::external_body]
pub(crate) fn decode_validators(bytes: &[u8]) -> (result: Result<Vec<String>, String>)
    ensures
        (match result {
            Ok(value) => Ok(texts_view(value@)),
            Err(text) => Err(text@),
        }) == decoded_validators(bytes@),
{
    match staking::QueryValidatorsResponse::decode(bytes) {
        Ok(response) => Ok(
            response.validators.into_iter().map(|validator| validator.operator_address).collect(),
        ),
        Err(error) => Err(error.to_string()),
    }
}

/// The account, if one is there, that the bytes hold as a `QueryAccountResponse`, or why they hold
/// none.
pub uninterp spec fn decoded_account(bytes: Seq<u8>) -> Result<
    Option<(Seq<char>, Seq<u8>)>,
    Seq<char>,
>;

/// Decodes a `QueryAccountResponse` with `prost::Message::decode`. Claims that what comes out, and
/// the text of the error where nothing does, is determined by the bytes.
#[verifier::external_body]
pub(crate) fn decode_account(bytes: &[u8]) -> (result: Result<Option<Any>, String>)
    ensures
        (match result {
            Ok(value) => Ok(optional_message(value)),
            Err(text) => Err(text@),
        }) == decoded_account(bytes@),
{
    match auth::QueryAccountResponse::decode(bytes) {
        Ok(response) => Ok(
            response.account.map(|any| Any { type_url: any.type_url, value: any.value }),
        ),
        Err(error) => Err(error.to_string()),
    }
}

/// The account that the bytes hold as a `BaseAccount`, or why they hold none.
pub uninterp spec fn decoded_base_account(bytes: Seq<u8>) -> Result<AccountView, Seq<char>>;

/// Decodes a `BaseAccount` with `prost::Message::decode`. Claims that what comes out, and the text
/// of the error where nothing does, is determined by the bytes.
#[verifier::external_body]
pub(crate) fn decode_base_account(bytes: &[u8]) -> (result: Result<BaseAccount, String>)
    ensures
        text_outcome(result) == decoded_base_account(bytes@),
{
    match auth::BaseAccount::decode(bytes) {
        Ok(account) => Ok(
            BaseAccount {
                address: account.address,
                pub_key: account.pub_key.map(
                    |any| Any { type_url: any.type_url, value: any.value },
                ),
                account_number: account.account_number,
                sequence: account.sequence,
            },
        ),
        Err(error) => Err(error.to_string()),
    }
}

/// The gas that the simulation used, if it is there, that the bytes hold as a `SimulateResponse`,
/// or why they hold none.
pub uninterp spec fn decoded_simulated_gas(bytes: Seq<u8>) -> Result<Option<u64>, Seq<char>>;

/// Decodes a `SimulateResponse` with `prost::Message::decode`. Claims that what comes out, and the
/// text of the error where nothing does, is determined by the bytes.
#[verifier::external_body]
pub(crate) fn decode_simulated_gas(bytes: &[u8]) -> (result: Result<Option<u64>, String>)
    ensures
        (match result {
            Ok(value) => Ok(value),
            Err(text) => Err(text@),
        }) == decoded_simulated_gas(bytes@),
{
    match tx::SimulateResponse::decode(bytes) {
        Ok(response) => Ok(response.gas_info.map(|gas| gas.gas_used)),
        Err(error) => Err(error.to_string()),
    }
}

} // verus!
