//! The client: what it asks of a chain on behalf of its user, and what it keeps of the answers.
//!
//! Each operation comes in parts. The first part decides what to send and refuses what cannot be
//! sent; the last part takes what came of it, and enters it in the registry and the report. What
//! lies between them, a transaction or a query, is performed by whoever drives the client.
use crate::config::{config_fault, reports_fault, ChainConfigView, Config, DeployInfoView};
use crate::digest::{digest, same_bytes, sha256};
use crate::error::{outcome, plain_outcome, protocol, text_outcome, ErrorView, ProcessError};
use crate::gas::{entry_of, record, recorded, report_view, GasReport, GasReportView};
use crate::identifiers::{address_parsing, is_endpoint, parse_address, Address};
use crate::message::{access_view, coins_view, texts_view, AccessConfig, Any, Coin};
use crate::names::NameMap;
use crate::poll::{BlockPoll, BlockPollView, PollRequest, PollRequestView, TimePoll, TimePollView};
use crate::receipt::{instantiate_response_of, store_response_of, Receipt, ReceiptView};
use crate::registry::{address_of, code_id_of, with_address, with_code_id, ContractMap};
use crate::rpc::{queried, Answer, QueryReply, QueryReplyView, Rpc};
use crate::text::{decimal, digits, is_numeral, numeral_error, parse_number, same_text};
use crate::wire::{
    balance_query_encoding, contract_query_encoding, decode_balance, decode_contract_answer,
    decode_validators, decoded_balance, decoded_contract_answer, decoded_validators,
    encode_balance_query, encode_contract_query, encode_execute, encode_instantiate,
    encode_store_code, encode_validators_query, execute_encoding, instantiate_encoding,
    store_code_encoding, validators_query_encoding,
};
use vstd::prelude::*;

verus! {

/// The type of a message that stores code.
pub const STORE_CODE: &'static str = "/cosmwasm.wasm.v1.MsgStoreCode";

/// The type of a message that instantiates a contract.
pub const INSTANTIATE: &'static str = "/cosmwasm.wasm.v1.MsgInstantiateContract";

/// The type of a message that executes a contract.
pub const EXECUTE: &'static str = "/cosmwasm.wasm.v1.MsgExecuteContract";

/// The label of every contract that this client instantiates. Its length is part of what the gas
/// pays for.
pub const CONTRACT_LABEL: &'static str = "cosm-orc";

/// The path at which a contract is queried.
pub const CONTRACT_PATH: &'static str = "/cosmwasm.wasm.v1.Query/SmartContractState";

/// The path at which a balance is asked for.
pub const BALANCE_PATH: &'static str = "/cosmos.bank.v1beta1.Query/Balance";

/// The path at which validators are asked for.
pub const VALIDATORS_PATH: &'static str = "/cosmos.staking.v1beta1.Query/Validators";

/// The status of the validators that are asked for.
pub const BONDED: &'static str = "BOND_STATUS_BONDED";

/// The client of one chain.
#[derive(Debug)]
pub struct ChainClient {
    /// The contracts that are known.
    pub contract_map: ContractMap,
    rpc: Rpc,
    gas_report: Option<GasReport>,
}

/// Code that was stored.
#[derive(Clone, Debug)]
pub struct StoreResponse {
    pub code_id: u64,
    pub res: Receipt,
}

/// What a [`StoreResponse`] says.
pub struct StoreResponseView {
    pub code_id: u64,
    pub res: ReceiptView,
}

impl View for StoreResponse {
    type V = StoreResponseView;

    open spec fn view(&self) -> StoreResponseView {
        StoreResponseView { code_id: self.code_id, res: self.res@ }
    }
}

/// A contract that was instantiated.
#[derive(Clone, Debug)]
pub struct InstantiateResponse {
    pub address: String,
    pub res: Receipt,
}

/// What an [`InstantiateResponse`] says.
pub struct InstantiateResponseView {
    pub address: Seq<char>,
    pub res: ReceiptView,
}

impl View for InstantiateResponse {
    type V = InstantiateResponseView;

    open spec fn view(&self) -> InstantiateResponseView {
        InstantiateResponseView { address: self.address@, res: self.res@ }
    }
}

/// What a contract answered to a query.
#[derive(Clone, Debug)]
pub struct QueryResponse {
    bytes: Vec<u8>,
}

impl View for QueryResponse {
    type V = Seq<u8>;

    closed spec fn view(&self) -> Seq<u8> {
        self.bytes@
    }
}

impl QueryResponse {
    /// The JSON text of the answer.
    pub fn bytes(&self) -> (bytes: &[u8])
        ensures
            bytes@ == self@,
    {
        &self.bytes
    }
}

/// A query, and where it goes.
#[derive(Clone, Debug, PartialEq, Eq)]
pub struct Query {
    pub path: String,
    pub data: Vec<u8>,
}

impl View for Query {
    type V = (Seq<char>, Seq<u8>);

    open spec fn view(&self) -> (Seq<char>, Seq<u8>) {
        (self.path@, self.data@)
    }
}

/// The number of the code that a receipt confirms to have been stored, or why it confirms none. The
/// chain has to give it a number, and to have received the very bytes that were sent.
pub open spec fn confirmed_code_id(receipt: ReceiptView, code: Seq<u8>) -> Result<u64, ErrorView> {
    match store_response_of(receipt) {
        Err(error) => Err(error),
        Ok((code_id, checksum)) => if code_id == 0 || checksum != sha256(code) {
            Err(
                ErrorView::Protocol(
                    "store response has invalid code ID or a different Wasm checksum"@,
                ),
            )
        } else {
            Ok(code_id)
        },
    }
}

/// The address of the contract that a receipt confirms to have been instantiated, or why it
/// confirms none.
pub open spec fn confirmed_address(receipt: ReceiptView) -> Result<Seq<char>, ErrorView> {
    match instantiate_response_of(receipt) {
        Err(error) => Err(error),
        Ok((address, _)) => match address_parsing(address) {
            Err(text) => Err(ErrorView::Protocol(text)),
            Ok(_) => Ok(address),
        },
    }
}

/// The number of the code that a receipt confirms to have been stored.
pub fn confirm_code(receipt: &Receipt, code: &[u8]) -> (result: Result<u64, ProcessError>)
    ensures
        plain_outcome(result) == confirmed_code_id(receipt@, code@),
{
    let response = match receipt.store_code_response() {
        Ok(response) => response,
        Err(error) => return Err(error),
    };
    if response.code_id == 0 || !same_bytes(&response.checksum, &digest(code)) {
        return Err(protocol("store response has invalid code ID or a different Wasm checksum"));
    }
    Ok(response.code_id)
}

/// The message with which `sender` stores code that `permission` says who may instantiate.
pub open spec fn storing_message(
    sender: Seq<char>,
    code: Seq<u8>,
    permission: Option<(i32, Seq<Seq<char>>)>,
) -> (Seq<char>, Seq<u8>) {
    (STORE_CODE@, store_code_encoding(sender, code, permission))
}

/// The message with which `sender` stores code.
pub fn store_message(sender: &str, code: &[u8], permission: &Option<AccessConfig>) -> (message: Any)
    ensures
        message@ == (
            STORE_CODE@,
            store_code_encoding(sender@, code@, access_view(*permission)),
        ),
        message@ == storing_message(sender@, code@, access_view(*permission)),
{
    Any { type_url: STORE_CODE.to_owned(), value: encode_store_code(sender, code, permission) }
}

/// A contract that is about to be instantiated.
#[derive(Debug)]
pub struct Instantiation {
    name: String,
    operation: String,
    code_id: u64,
    admin: String,
    funds: Vec<Coin>,
}

/// What an [`Instantiation`] says.
pub struct InstantiationView {
    pub name: Seq<char>,
    pub operation: Seq<char>,
    pub code_id: u64,
    pub admin: Seq<char>,
    pub funds: Seq<(Seq<char>, u128)>,
}

impl View for Instantiation {
    type V = InstantiationView;

    closed spec fn view(&self) -> InstantiationView {
        InstantiationView {
            name: self.name@,
            operation: self.operation@,
            code_id: self.code_id,
            admin: self.admin@,
            funds: coins_view(self.funds@),
        }
    }
}

/// The message with which `sender` instantiates a contract. `msg` is the JSON text of its
/// parameters, or why there is none.
pub open spec fn instantiate_message(
    call: InstantiationView,
    sender: Seq<char>,
    msg: Result<Seq<u8>, Seq<char>>,
) -> Result<(Seq<char>, Seq<u8>), ErrorView> {
    match msg {
        Err(text) => Err(ErrorView::Json(text)),
        Ok(msg) => Ok(
            (
                INSTANTIATE@,
                instantiate_encoding(
                    sender,
                    call.admin,
                    call.code_id,
                    CONTRACT_LABEL@,
                    msg,
                    call.funds,
                ),
            ),
        ),
    }
}

impl Instantiation {
    /// The message with which `sender` instantiates the contract. `msg` is the JSON text of its
    /// parameters, or why there is none.
    pub fn message(&self, sender: &str, msg: Result<Vec<u8>, String>) -> (result: Result<
        Any,
        ProcessError,
    >)
        ensures
            outcome(result) == instantiate_message(self@, sender@, text_outcome(msg)),
    {
        match msg {
            Err(text) => Err(ProcessError::Json(text)),
            Ok(msg) => Ok(
                Any {
                    type_url: INSTANTIATE.to_owned(),
                    value: encode_instantiate(
                        sender,
                        &self.admin,
                        self.code_id,
                        CONTRACT_LABEL,
                        &msg,
                        &self.funds,
                    ),
                },
            ),
        }
    }
}

/// A contract that is about to be executed.
#[derive(Debug)]
pub struct Execution {
    name: String,
    operation: String,
    contract: String,
    funds: Vec<Coin>,
}

/// What an [`Execution`] says.
pub struct ExecutionView {
    pub name: Seq<char>,
    pub operation: Seq<char>,
    pub contract: Seq<char>,
    pub funds: Seq<(Seq<char>, u128)>,
}

impl View for Execution {
    type V = ExecutionView;

    closed spec fn view(&self) -> ExecutionView {
        ExecutionView {
            name: self.name@,
            operation: self.operation@,
            contract: self.contract@,
            funds: coins_view(self.funds@),
        }
    }
}

/// The message with which `sender` executes a contract. `msg` is the JSON text of its parameters,
/// or why there is none.
pub open spec fn execute_message(
    call: ExecutionView,
    sender: Seq<char>,
    msg: Result<Seq<u8>, Seq<char>>,
) -> Result<(Seq<char>, Seq<u8>), ErrorView> {
    match msg {
        Err(text) => Err(ErrorView::Json(text)),
        Ok(msg) => Ok((EXECUTE@, execute_encoding(sender, call.contract, msg, call.funds))),
    }
}

impl Execution {
    /// The message with which `sender` executes the contract. `msg` is the JSON text of its
    /// parameters, or why there is none.
    pub fn message(&self, sender: &str, msg: Result<Vec<u8>, String>) -> (result: Result<
        Any,
        ProcessError,
    >)
        ensures
            outcome(result) == execute_message(self@, sender@, text_outcome(msg)),
    {
        match msg {
            Err(text) => Err(ProcessError::Json(text)),
            Ok(msg) => Ok(
                Any {
                    type_url: EXECUTE.to_owned(),
                    value: encode_execute(sender, &self.contract, &msg, &self.funds),
                },
            ),
        }
    }
}

/// The query of the contract `name`. `msg` is the JSON text of the query, or why there is none.
pub open spec fn contract_query(
    contracts: Map<Seq<char>, DeployInfoView>,
    name: Seq<char>,
    msg: Result<Seq<u8>, Seq<char>>,
) -> Result<(Seq<char>, Seq<u8>), ErrorView> {
    match address_of(contracts, name) {
        Err(error) => Err(error),
        Ok(address) => match msg {
            Err(text) => Err(ErrorView::Json(text)),
            Ok(msg) => Ok((CONTRACT_PATH@, contract_query_encoding(address, msg))),
        },
    }
}

/// What is taken from an answer to the query of a contract.
pub open spec fn queried_contract(answer: Answer<QueryReplyView, Seq<char>>) -> Result<
    Seq<u8>,
    ErrorView,
> {
    match queried(answer) {
        Err(error) => Err(error),
        Ok(bytes) => match decoded_contract_answer(bytes) {
            Err(text) => Err(ErrorView::Protocol(text)),
            Ok(data) => Ok(data),
        },
    }
}

/// The query for how much of `denom` the account at `address` holds.
pub open spec fn balance_query(address: Seq<char>, denom: Seq<char>) -> (Seq<char>, Seq<u8>) {
    (BALANCE_PATH@, balance_query_encoding(address, denom))
}

/// The query for the validators with the status `status`.
pub open spec fn validators_query(status: Seq<char>) -> (Seq<char>, Seq<u8>) {
    (VALIDATORS_PATH@, validators_query_encoding(status))
}

/// What is taken from an answer to the query for a balance of `denom`.
pub open spec fn queried_balance(
    answer: Answer<QueryReplyView, Seq<char>>,
    denom: Seq<char>,
) -> Result<u128, ErrorView> {
    match queried(answer) {
        Err(error) => Err(error),
        Ok(bytes) => match decoded_balance(bytes) {
            Err(text) => Err(ErrorView::Protocol(text)),
            Ok(None) => Err(ErrorView::Protocol("bank query omitted balance"@)),
            Ok(Some((reported, amount))) => if reported != denom {
                Err(ErrorView::Protocol("bank query returned a different denomination"@))
            } else if is_numeral(amount) && decimal(digits(amount)) <= u128::MAX {
                Ok(decimal(digits(amount)) as u128)
            } else {
                Err(ErrorView::Protocol(numeral_error(amount)))
            },
        },
    }
}

/// What is taken from an answer to the query for the validators.
pub open spec fn queried_validators(answer: Answer<QueryReplyView, Seq<char>>) -> Result<
    Seq<Seq<char>>,
    ErrorView,
> {
    match queried(answer) {
        Err(error) => Err(error),
        Ok(bytes) => match decoded_validators(bytes) {
            Err(text) => Err(ErrorView::Protocol(text)),
            Ok(addresses) => Ok(addresses),
        },
    }
}

/// The instantiation of the contract `name` with everything that is asked for, or why it cannot
/// begin. Without an admin the text that stands for one is empty.
pub open spec fn begun_instantiation(
    contracts: Map<Seq<char>, DeployInfoView>,
    name: Seq<char>,
    operation: Seq<char>,
    admin: Option<Seq<char>>,
    funds: Seq<(Seq<char>, u128)>,
) -> Result<InstantiationView, ErrorView> {
    match code_id_of(contracts, name) {
        Err(error) => Err(error),
        Ok(code_id) => Ok(
            InstantiationView {
                name,
                operation,
                code_id,
                admin: match admin {
                    Some(address) => address,
                    None => ""@,
                },
                funds,
            },
        ),
    }
}

/// The execution of the contract `name` with everything that is asked for, or why it cannot begin.
pub open spec fn begun_execution(
    contracts: Map<Seq<char>, DeployInfoView>,
    name: Seq<char>,
    operation: Seq<char>,
    funds: Seq<(Seq<char>, u128)>,
) -> Result<ExecutionView, ErrorView> {
    match address_of(contracts, name) {
        Err(error) => Err(error),
        Ok(contract) => Ok(ExecutionView { name, operation, contract, funds }),
    }
}

/// What is returned once the transaction of an instantiation has come to its end.
pub open spec fn instantiation_outcome(result: Result<ReceiptView, ErrorView>) -> Result<
    InstantiateResponseView,
    ErrorView,
> {
    match result {
        Err(error) => Err(error),
        Ok(receipt) => match confirmed_address(receipt) {
            Err(error) => Err(error),
            Ok(address) => Ok(InstantiateResponseView { address, res: receipt }),
        },
    }
}

/// What is known of the contracts once the transaction of an instantiation has come to its end.
pub open spec fn contracts_after_instantiation(
    contracts: Map<Seq<char>, DeployInfoView>,
    call: InstantiationView,
    result: Result<ReceiptView, ErrorView>,
) -> Map<Seq<char>, DeployInfoView> {
    match instantiation_outcome(result) {
        Err(_) => contracts,
        Ok(response) => with_address(contracts, call.name, response.address),
    }
}

/// The report once the transaction of an instantiation has come to its end.
pub open spec fn report_after_instantiation(
    report: Option<GasReportView>,
    call: InstantiationView,
    result: Result<ReceiptView, ErrorView>,
    file: Seq<char>,
    line: u32,
) -> Option<GasReportView> {
    match instantiation_outcome(result) {
        Err(_) => report,
        Ok(response) => recorded(
            report,
            call.name,
            call.operation,
            "Instantiate"@,
            entry_of(response.res, file, line),
        ),
    }
}

/// The report once the transaction of an execution has come to its end.
pub open spec fn report_after_execution(
    report: Option<GasReportView>,
    call: ExecutionView,
    result: Result<ReceiptView, ErrorView>,
    file: Seq<char>,
    line: u32,
) -> Option<GasReportView> {
    match result {
        Err(_) => report,
        Ok(receipt) => recorded(
            report,
            call.name,
            call.operation,
            "Execute"@,
            entry_of(receipt, file, line),
        ),
    }
}

impl ChainClient {
    /// What is known of the contracts.
    pub closed spec fn contracts(&self) -> Map<Seq<char>, DeployInfoView> {
        self.contract_map@
    }

    /// The report, where one is kept.
    pub closed spec fn report(&self) -> Option<GasReportView> {
        report_view(self.gas_report)
    }

    /// The configuration of the chain.
    pub closed spec fn chain(&self) -> ChainConfigView {
        self.rpc@
    }

    /// A client for the configured chain. With `profile_gas` it reports what each operation costs.
    /// How the refusal of an endpoint reads is left open.
    pub fn new(cfg: Config, profile_gas: bool) -> (result: Result<ChainClient, ProcessError>)
        ensures
            match config_fault(cfg.chain_cfg@) {
                Some(fault) => result is Err && reports_fault(
                    result->Err_0@,
                    cfg.chain_cfg@,
                    fault,
                ),
                None => match result {
                    Ok(client) => {
                        &&& is_endpoint(cfg.chain_cfg@.rpc_endpoint->0)
                        &&& client.chain() == cfg.chain_cfg@
                        &&& client.contracts() == cfg.contract_deploy_info@
                        &&& client.report() == if profile_gas {
                            Some(GasReportView::empty())
                        } else {
                            None
                        }
                    },
                    Err(error) => !is_endpoint(cfg.chain_cfg@.rpc_endpoint->0) && error@ is Rpc,
                },
            },
    {
        let rpc = match Rpc::new(cfg.chain_cfg) {
            Ok(rpc) => rpc,
            Err(error) => return Err(error),
        };
        let gas_report: Option<GasReport> = if profile_gas {
            Some(NameMap::new())
        } else {
            None
        };
        Ok(
            ChainClient {
                contract_map: ContractMap::new(cfg.contract_deploy_info),
                rpc,
                gas_report,
            },
        )
    }

    /// The chain that the client reaches.
    pub fn rpc(&self) -> (rpc: &Rpc)
        ensures
            rpc@ == self.chain(),
    {
        &self.rpc
    }

    /// The contracts that are known.
    pub fn contract_map(&self) -> (map: &ContractMap)
        ensures
            map@ == self.contracts(),
    {
        &self.contract_map
    }

    /// The contracts that are known, to enter one that another contract created.
    pub fn contract_map_mut(&mut self) -> (map: &mut ContractMap)
        ensures
            map@ == old(self).contracts(),
            final(self).contracts() == final(map)@,
            final(self).report() == old(self).report(),
            final(self).chain() == old(self).chain(),
    {
        &mut self.contract_map
    }

    /// Takes the receipt of a transaction that stored `code` under `name`. The registry and the
    /// report change only where it confirms that the chain stored these very bytes.
    pub fn stored(
        &mut self,
        name: &str,
        code: &[u8],
        receipt: Receipt,
        file: &str,
        line: u32,
    ) -> (result: Result<StoreResponse, ProcessError>)
        ensures
            final(self).chain() == old(self).chain(),
            match confirmed_code_id(receipt@, code@) {
                Ok(code_id) => {
                    &&& outcome(result) == Ok::<_, ErrorView>(
                        StoreResponseView { code_id, res: receipt@ },
                    )
                    &&& final(self).contracts() == with_code_id(
                        old(self).contracts(),
                        name@,
                        code_id,
                    )
                    &&& final(self).report() == recorded(
                        old(self).report(),
                        name@,
                        "Store"@,
                        "Store"@,
                        entry_of(receipt@, file@, line),
                    )
                },
                Err(error) => {
                    &&& outcome(result) == Err::<StoreResponseView, _>(error)
                    &&& *final(self) == *old(self)
                },
            },
    {
        let code_id = match confirm_code(&receipt, code) {
            Ok(code_id) => code_id,
            Err(error) => return Err(error),
        };
        self.contract_map.register(name, code_id);
        record(&mut self.gas_report, name, "Store", "Store", &receipt, file, line);
        Ok(StoreResponse { code_id, res: receipt })
    }

    /// Begins to instantiate a contract whose code has been stored under `name`.
    pub fn instantiate(
        &self,
        name: &str,
        operation: &str,
        admin: Option<Address>,
        funds: Vec<Coin>,
    ) -> (result: Result<Instantiation, ProcessError>)
        ensures
            match code_id_of(self.contracts(), name@) {
                Ok(code_id) => outcome(result) == Ok::<_, ErrorView>(
                    InstantiationView {
                        name: name@,
                        operation: operation@,
                        code_id,
                        admin: match admin {
                            Some(address) => address@,
                            None => ""@,
                        },
                        funds: coins_view(funds@),
                    },
                ),
                Err(error) => outcome(result) == Err::<InstantiationView, _>(error),
            },
            outcome(result) == begun_instantiation(
                self.contracts(),
                name@,
                operation@,
                match admin {
                    Some(address) => Some(address@),
                    None => None,
                },
                coins_view(funds@),
            ),
    {
        match self.contract_map.code_id(name) {
            Ok(code_id) => Ok(
                Instantiation {
                    name: name.to_owned(),
                    operation: operation.to_owned(),
                    code_id,
                    admin: match admin {
                        Some(address) => address.as_str().to_owned(),
                        None => "".to_owned(),
                    },
                    funds,
                },
            ),
            Err(error) => Err(error),
        }
    }

    /// Takes what came of the transaction that was to instantiate a contract. The registry and the
    /// report change only where its receipt confirms an address.
    pub fn instantiated(
        &mut self,
        call: &Instantiation,
        result: Result<Receipt, ProcessError>,
        file: &str,
        line: u32,
    ) -> (response: Result<InstantiateResponse, ProcessError>)
        ensures
            final(self).chain() == old(self).chain(),
            match result {
                Err(error) => response == Err::<InstantiateResponse, _>(error) && *final(self)
                    == *old(self),
                Ok(receipt) => match confirmed_address(receipt@) {
                    Ok(address) => {
                        &&& outcome(response) == Ok::<_, ErrorView>(
                            InstantiateResponseView { address, res: receipt@ },
                        )
                        &&& final(self).contracts() == with_address(
                            old(self).contracts(),
                            call@.name,
                            address,
                        )
                        &&& final(self).report() == recorded(
                            old(self).report(),
                            call@.name,
                            call@.operation,
                            "Instantiate"@,
                            entry_of(receipt@, file@, line),
                        )
                    },
                    Err(error) => {
                        &&& outcome(response) == Err::<InstantiateResponseView, _>(error)
                        &&& *final(self) == *old(self)
                    },
                },
            },
            outcome(response) == instantiation_outcome(outcome(result)),
            final(self).contracts() == contracts_after_instantiation(
                old(self).contracts(),
                call@,
                outcome(result),
            ),
            final(self).report() == report_after_instantiation(
                old(self).report(),
                call@,
                outcome(result),
                file@,
                line,
            ),
    {
        let receipt = match result {
            Ok(receipt) => receipt,
            Err(error) => return Err(error),
        };
        let response = match receipt.instantiate_response() {
            Ok(response) => response,
            Err(error) => return Err(error),
        };
        match parse_address(&response.address) {
            Ok(_) => {},
            Err(text) => return Err(ProcessError::Protocol(text)),
        }
        match self.contract_map.add_address(&call.name, &response.address) {
            Ok(()) => {},
            Err(error) => return Err(error),
        }
        record(
            &mut self.gas_report,
            &call.name,
            &call.operation,
            "Instantiate",
            &receipt,
            file,
            line,
        );
        Ok(InstantiateResponse { address: response.address, res: receipt })
    }

    /// Begins to execute the contract that has been instantiated under `name`.
    pub fn execute(&self, name: &str, operation: &str, funds: Vec<Coin>) -> (result: Result<
        Execution,
        ProcessError,
    >)
        ensures
            match address_of(self.contracts(), name@) {
                Ok(contract) => outcome(result) == Ok::<_, ErrorView>(
                    ExecutionView {
                        name: name@,
                        operation: operation@,
                        contract,
                        funds: coins_view(funds@),
                    },
                ),
                Err(error) => outcome(result) == Err::<ExecutionView, _>(error),
            },
            outcome(result) == begun_execution(
                self.contracts(),
                name@,
                operation@,
                coins_view(funds@),
            ),
    {
        match self.contract_map.address(name) {
            Ok(contract) => Ok(
                Execution {
                    name: name.to_owned(),
                    operation: operation.to_owned(),
                    contract,
                    funds,
                },
            ),
            Err(error) => Err(error),
        }
    }

    /// Takes what came of the transaction that was to execute a contract. The registry never
    /// changes, and the report only where there is a receipt.
    pub fn executed(
        &mut self,
        call: &Execution,
        result: Result<Receipt, ProcessError>,
        file: &str,
        line: u32,
    ) -> (response: Result<Receipt, ProcessError>)
        ensures
            response == result,
            final(self).chain() == old(self).chain(),
            final(self).contracts() == old(self).contracts(),
            final(self).report() == match result {
                Ok(receipt) => recorded(
                    old(self).report(),
                    call@.name,
                    call@.operation,
                    "Execute"@,
                    entry_of(receipt@, file@, line),
                ),
                Err(_) => old(self).report(),
            },
            final(self).report() == report_after_execution(
                old(self).report(),
                call@,
                outcome(result),
                file@,
                line,
            ),
    {
        match &result {
            Ok(receipt) => {
                record(
                    &mut self.gas_report,
                    &call.name,
                    &call.operation,
                    "Execute",
                    receipt,
                    file,
                    line,
                );
            },
            Err(_) => {},
        }
        result
    }

    /// The query of the contract that has been instantiated under `name`. `msg` is the JSON text of
    /// the query, or why there is none.
    pub fn query(&self, name: &str, msg: Result<Vec<u8>, String>) -> (result: Result<
        Query,
        ProcessError,
    >)
        ensures
            outcome(result) == contract_query(self.contracts(), name@, text_outcome(msg)),
    {
        let address = match self.contract_map.address(name) {
            Ok(address) => address,
            Err(error) => return Err(error),
        };
        match msg {
            Ok(msg) => Ok(
                Query {
                    path: CONTRACT_PATH.to_owned(),
                    data: encode_contract_query(&address, &msg),
                },
            ),
            Err(text) => Err(ProcessError::Json(text)),
        }
    }

    /// Takes an answer to the query of a contract.
    pub fn queried(answer: Answer<QueryReply, String>) -> (result: Result<
        QueryResponse,
        ProcessError,
    >)
        ensures
            outcome(result) == queried_contract(answer@),
    {
        match Rpc::query(answer) {
            Ok(bytes) => match decode_contract_answer(&bytes) {
                Ok(bytes) => Ok(QueryResponse { bytes }),
                Err(text) => Err(ProcessError::Protocol(text)),
            },
            Err(error) => Err(error),
        }
    }

    /// The query for how much of `denom` the account at `address` holds.
    pub fn balance_request(address: &str, denom: &str) -> (query: Query)
        ensures
            query@ == (BALANCE_PATH@, balance_query_encoding(address@, denom@)),
            query@ == balance_query(address@, denom@),
    {
        Query { path: BALANCE_PATH.to_owned(), data: encode_balance_query(address, denom) }
    }

    /// Takes an answer to the query for a balance of `denom`.
    pub fn balance(answer: Answer<QueryReply, String>, denom: &str) -> (result: Result<
        u128,
        ProcessError,
    >)
        ensures
            plain_outcome(result) == queried_balance(answer@, denom@),
    {
        let bytes = match Rpc::query(answer) {
            Ok(bytes) => bytes,
            Err(error) => return Err(error),
        };
        let coin = match decode_balance(&bytes) {
            Ok(Some(coin)) => coin,
            Ok(None) => return Err(protocol("bank query omitted balance")),
            Err(text) => return Err(ProcessError::Protocol(text)),
        };
        if !same_text(&coin.denom, denom) {
            return Err(protocol("bank query returned a different denomination"));
        }
        match parse_number(&coin.amount) {
            Ok(amount) => Ok(amount),
            Err(text) => Err(ProcessError::Protocol(text)),
        }
    }

    /// The query for the validators that are bonded.
    pub fn validators_request() -> (query: Query)
        ensures
            query@ == (VALIDATORS_PATH@, validators_query_encoding(BONDED@)),
            query@ == validators_query("BOND_STATUS_BONDED"@),
    {
        Query { path: VALIDATORS_PATH.to_owned(), data: encode_validators_query(BONDED) }
    }

    /// Takes an answer to the query for the validators that are bonded: their operators' addresses,
    /// in the order in which they are listed.
    pub fn bonded_validators(answer: Answer<QueryReply, String>) -> (result: Result<
        Vec<String>,
        ProcessError,
    >)
        ensures
            (match result {
                Ok(addresses) => Ok(texts_view(addresses@)),
                Err(error) => Err(error@),
            }) == queried_validators(answer@),
    {
        match Rpc::query(answer) {
            Ok(bytes) => match decode_validators(&bytes) {
                Ok(addresses) => Ok(addresses),
                Err(text) => Err(ProcessError::Protocol(text)),
            },
            Err(error) => Err(error),
        }
    }

    /// Begins to wait for `n` blocks. With `first_block` a chain that has none yet is waited for
    /// first.
    pub fn poll_for_n_blocks(&self, n: u64, first_block: bool) -> (begun: (BlockPoll, PollRequest))
        ensures
            begun.0@ == (BlockPollView { n, first_block, target: None }),
            begun.1@ == PollRequestView::Ask,
    {
        self.rpc.poll_for_n_blocks(n, first_block)
    }

    /// Begins to wait until the chain is `n` seconds past its latest block.
    pub fn poll_for_n_secs(&self, n: u64) -> (begun: (TimePoll, PollRequest))
        ensures
            begun.0@ == (TimePollView { n, target: None }),
            begun.1@ == PollRequestView::Ask,
    {
        self.rpc.poll_for_n_secs(n)
    }

    /// The report on what each operation cost.
    pub fn gas_profiler_report(&self) -> (result: Result<&GasReport, ProcessError>)
        ensures
            match result {
                Ok(report) => self.report() == Some(report@),
                Err(error) => self.report() is None && error@ == ErrorView::Config(
                    "gas profiling is disabled"@,
                ),
            },
    {
        match &self.gas_report {
            Some(report) => Ok(report),
            None => Err(ProcessError::Config("gas profiling is disabled".to_owned())),
        }
    }
}

/// Responses and queries say all that they hold.
pub proof fn responses_say_what_they_hold(
    stored: StoreResponse,
    instantiated: InstantiateResponse,
    query: Query,
)
    ensures
        stored@.code_id == stored.code_id,
        stored@.res == stored.res@,
        instantiated@.address == instantiated.address@,
        instantiated@.res == instantiated.res@,
        query@ == (query.path@, query.data@),
{
}

/// The types of the messages, the paths of the queries and the fixed texts in them.
pub proof fn messages_and_queries_go_by_these_names()
    ensures
        STORE_CODE@ == "/cosmwasm.wasm.v1.MsgStoreCode"@,
        INSTANTIATE@ == "/cosmwasm.wasm.v1.MsgInstantiateContract"@,
        EXECUTE@ == "/cosmwasm.wasm.v1.MsgExecuteContract"@,
        CONTRACT_LABEL@ == "cosm-orc"@,
        CONTRACT_PATH@ == "/cosmwasm.wasm.v1.Query/SmartContractState"@,
        BALANCE_PATH@ == "/cosmos.bank.v1beta1.Query/Balance"@,
        VALIDATORS_PATH@ == "/cosmos.staking.v1beta1.Query/Validators"@,
        BONDED@ == "BOND_STATUS_BONDED"@,
{
}

/// A message stores the code whole, under the sender and the permission that it is written for, and
/// the queries for a balance and for validators ask for what they are given.
pub proof fn messages_and_queries_hold_what_they_are_given(
    sender: Seq<char>,
    code: Seq<u8>,
    permission: Option<(i32, Seq<Seq<char>>)>,
    address: Seq<char>,
    denom: Seq<char>,
    status: Seq<char>,
)
    ensures
        storing_message(sender, code, permission) == (
            "/cosmwasm.wasm.v1.MsgStoreCode"@,
            store_code_encoding(sender, code, permission),
        ),
        balance_query(address, denom) == (
            "/cosmos.bank.v1beta1.Query/Balance"@,
            balance_query_encoding(address, denom),
        ),
        validators_query(status) == (
            "/cosmos.staking.v1beta1.Query/Validators"@,
            validators_query_encoding(status),
        ),
{
}

/// A receipt confirms a number wherever it holds one above zero beside the digest of the bytes that
/// were sent, and nowhere else.
pub proof fn code_is_confirmed_by_its_digest(
    receipt: ReceiptView,
    code: Seq<u8>,
    code_id: u64,
    checksum: Seq<u8>,
    error: ErrorView,
)
    ensures
        store_response_of(receipt) == Ok::<_, ErrorView>((code_id, checksum)) && code_id > 0
            && checksum == sha256(code) ==> confirmed_code_id(receipt, code) == Ok::<_, ErrorView>(
            code_id,
        ),
        store_response_of(receipt) == Ok::<_, ErrorView>((code_id, checksum)) && (code_id == 0
            || checksum != sha256(code)) ==> confirmed_code_id(receipt, code) == Err::<u64, _>(
            ErrorView::Protocol(
                "store response has invalid code ID or a different Wasm checksum"@,
            ),
        ),
        store_response_of(receipt) == Err::<(u64, Seq<u8>), _>(error) ==> confirmed_code_id(
            receipt,
            code,
        ) == Err::<u64, _>(error),
{
}

/// A receipt confirms the address that its response holds, as it is, wherever that is an address.
pub proof fn instantiation_is_confirmed_by_its_address(
    receipt: ReceiptView,
    address: Seq<char>,
    data: Seq<u8>,
    text: Seq<char>,
    error: ErrorView,
)
    ensures
        instantiate_response_of(receipt) == Ok::<_, ErrorView>((address, data)) && address_parsing(
            address,
        ) is Ok ==> confirmed_address(receipt) == Ok::<_, ErrorView>(address),
        instantiate_response_of(receipt) == Ok::<_, ErrorView>((address, data)) && address_parsing(
            address,
        ) is Err && address_parsing(address)->Err_0 == text ==> confirmed_address(receipt) == Err::<
            Seq<char>,
            _,
        >(ErrorView::Protocol(text)),
        instantiate_response_of(receipt) == Err::<(Seq<char>, Seq<u8>), _>(error)
            ==> confirmed_address(receipt) == Err::<Seq<char>, _>(error),
{
}

/// An instantiation sends everything that it was begun with, whoever the admin is and whether or
/// not there is one: the number of the code, the admin, all the coins in their order, and the whole
/// text of the parameters.
pub proof fn an_instantiation_sends_all_of_it(
    name: Seq<char>,
    operation: Seq<char>,
    code_id: u64,
    admin: Seq<char>,
    funds: Seq<(Seq<char>, u128)>,
    sender: Seq<char>,
    msg: Seq<u8>,
    text: Seq<char>,
)
    ensures
        ({
            let call = InstantiationView { name, operation, code_id, admin, funds };
            &&& instantiate_message(call, sender, Ok(msg)) == Ok::<_, ErrorView>(
                (
                    "/cosmwasm.wasm.v1.MsgInstantiateContract"@,
                    instantiate_encoding(sender, admin, code_id, "cosm-orc"@, msg, funds),
                ),
            )
            &&& instantiate_message(call, sender, Err(text)) == Err::<(Seq<char>, Seq<u8>), _>(
                ErrorView::Json(text),
            )
        }),
{
}

/// An execution sends everything that it was begun with: the contract, all the coins in their
/// order, and the whole text of the parameters.
pub proof fn an_execution_sends_all_of_it(
    name: Seq<char>,
    operation: Seq<char>,
    contract: Seq<char>,
    funds: Seq<(Seq<char>, u128)>,
    sender: Seq<char>,
    msg: Seq<u8>,
    text: Seq<char>,
)
    ensures
        ({
            let call = ExecutionView { name, operation, contract, funds };
            &&& execute_message(call, sender, Ok(msg)) == Ok::<_, ErrorView>(
                (
                    "/cosmwasm.wasm.v1.MsgExecuteContract"@,
                    execute_encoding(sender, contract, msg, funds),
                ),
            )
            &&& execute_message(call, sender, Err(text)) == Err::<(Seq<char>, Seq<u8>), _>(
                ErrorView::Json(text),
            )
        }),
{
}

/// A query goes to the address that is known under the name, with the whole text of the query. An
/// unknown address is reported before a text that could not be written.
pub proof fn a_query_goes_to_the_known_address(
    contracts: Map<Seq<char>, DeployInfoView>,
    name: Seq<char>,
    address: Seq<char>,
    msg: Seq<u8>,
    text: Seq<char>,
    error: ErrorView,
)
    ensures
        address_of(contracts, name) == Ok::<_, ErrorView>(address) ==> {
            &&& contract_query(contracts, name, Ok(msg)) == Ok::<_, ErrorView>(
                (
                    "/cosmwasm.wasm.v1.Query/SmartContractState"@,
                    contract_query_encoding(address, msg),
                ),
            )
            &&& contract_query(contracts, name, Err(text)) == Err::<(Seq<char>, Seq<u8>), _>(
                ErrorView::Json(text),
            )
        },
        address_of(contracts, name) == Err::<Seq<char>, _>(error) ==> {
            &&& contract_query(contracts, name, Ok(msg)) == Err::<(Seq<char>, Seq<u8>), _>(error)
            &&& contract_query(contracts, name, Err(text)) == Err::<(Seq<char>, Seq<u8>), _>(error)
        },
{
}

/// What a query that failed, ran out of time or was refused gives, whatever it was for.
pub proof fn failed_queries_give_their_reason(
    reply: QueryReplyView,
    denom: Seq<char>,
    text: Seq<char>,
)
    ensures
        queried_contract(Answer::Failed(text)) == Err::<Seq<u8>, _>(ErrorView::Rpc(text)),
        queried_balance(Answer::Failed(text), denom) == Err::<u128, _>(ErrorView::Rpc(text)),
        queried_validators(Answer::Failed(text)) == Err::<Seq<Seq<char>>, _>(ErrorView::Rpc(text)),
        queried_contract(Answer::Deadline) == Err::<Seq<u8>, _>(ErrorView::Timeout { hash: None }),
        queried_balance(Answer::Deadline, denom) == Err::<u128, _>(
            ErrorView::Timeout { hash: None },
        ),
        queried_validators(Answer::Deadline) == Err::<Seq<Seq<char>>, _>(
            ErrorView::Timeout { hash: None },
        ),
        reply.code != 0 ==> {
            let refusal = ErrorView::Query {
                code: reply.code,
                codespace: reply.codespace,
                log: reply.log,
            };
            &&& queried_contract(Answer::Reply(reply)) == Err::<Seq<u8>, _>(refusal)
            &&& queried_balance(Answer::Reply(reply), denom) == Err::<u128, _>(refusal)
            &&& queried_validators(Answer::Reply(reply)) == Err::<Seq<Seq<char>>, _>(refusal)
        },
{
}

/// The answer of a contract is handed out whole: all the bytes that the reply holds, in their
/// order.
pub proof fn contract_answers_are_whole(reply: QueryReplyView, data: Seq<u8>, text: Seq<char>)
    requires
        reply.code == 0,
    ensures
        decoded_contract_answer(reply.value) == Ok::<_, Seq<char>>(data) ==> queried_contract(
            Answer::Reply(reply),
        ) == Ok::<_, ErrorView>(data),
        decoded_contract_answer(reply.value) == Err::<Seq<u8>, _>(text) ==> queried_contract(
            Answer::Reply(reply),
        ) == Err::<Seq<u8>, _>(ErrorView::Protocol(text)),
{
}

/// A balance is the reported number, wherever it is one of 128 bits and of the denomination that
/// was asked for.
pub proof fn balances_are_read_as_reported(
    reply: QueryReplyView,
    denom: Seq<char>,
    other: Seq<char>,
    amount: Seq<char>,
    balance: u128,
    text: Seq<char>,
)
    requires
        reply.code == 0,
    ensures
        decoded_balance(reply.value) == Ok::<_, Seq<char>>(Some((denom, amount))) ==> {
            &&& is_numeral(amount) && decimal(digits(amount)) == balance ==> queried_balance(
                Answer::Reply(reply),
                denom,
            ) == Ok::<_, ErrorView>(balance)
            &&& !is_numeral(amount) || decimal(digits(amount)) > u128::MAX ==> queried_balance(
                Answer::Reply(reply),
                denom,
            ) == Err::<u128, _>(ErrorView::Protocol(numeral_error(amount)))
        },
        decoded_balance(reply.value) == Ok::<_, Seq<char>>(Some((other, amount))) && other != denom
            ==> queried_balance(Answer::Reply(reply), denom) == Err::<u128, _>(
            ErrorView::Protocol("bank query returned a different denomination"@),
        ),
        decoded_balance(reply.value) == Ok::<_, Seq<char>>(None::<(Seq<char>, Seq<char>)>)
            ==> queried_balance(Answer::Reply(reply), denom) == Err::<u128, _>(
            ErrorView::Protocol("bank query omitted balance"@),
        ),
        decoded_balance(reply.value) == Err::<Option<(Seq<char>, Seq<char>)>, _>(text)
            ==> queried_balance(Answer::Reply(reply), denom) == Err::<u128, _>(
            ErrorView::Protocol(text),
        ),
{
}

/// The validators are all those that are reported, in the order in which they are.
pub proof fn validators_are_listed_as_reported(
    reply: QueryReplyView,
    addresses: Seq<Seq<char>>,
    text: Seq<char>,
)
    requires
        reply.code == 0,
    ensures
        decoded_validators(reply.value) == Ok::<_, Seq<char>>(addresses) ==> queried_validators(
            Answer::Reply(reply),
        ) == Ok::<_, ErrorView>(addresses),
        decoded_validators(reply.value) == Err::<Seq<Seq<char>>, _>(text) ==> queried_validators(
            Answer::Reply(reply),
        ) == Err::<Seq<Seq<char>>, _>(ErrorView::Protocol(text)),
{
}

/// What an instantiation sends is what it was asked for: the number under which the code was
/// stored, the admin where there is one, all the coins in their order whether or not there is one,
/// and the whole text of the parameters. It begins wherever the code was stored.
pub proof fn an_instantiation_sends_what_was_asked_for(
    contracts: Map<Seq<char>, DeployInfoView>,
    name: Seq<char>,
    operation: Seq<char>,
    admin: Option<Seq<char>>,
    funds: Seq<(Seq<char>, u128)>,
    sender: Seq<char>,
    msg: Seq<u8>,
    code_id: u64,
    error: ErrorView,
)
    ensures
        code_id_of(contracts, name) == Ok::<_, ErrorView>(code_id) ==> {
            &&& begun_instantiation(contracts, name, operation, admin, funds) matches Ok(call)
            &&& call.name == name
            &&& call.operation == operation
            &&& admin is None ==> instantiate_message(call, sender, Ok(msg)) == Ok::<_, ErrorView>(
                (
                    "/cosmwasm.wasm.v1.MsgInstantiateContract"@,
                    instantiate_encoding(sender, ""@, code_id, "cosm-orc"@, msg, funds),
                ),
            )
            &&& admin matches Some(address) ==> instantiate_message(call, sender, Ok(msg)) == Ok::<
                _,
                ErrorView,
            >(
                (
                    "/cosmwasm.wasm.v1.MsgInstantiateContract"@,
                    instantiate_encoding(sender, address, code_id, "cosm-orc"@, msg, funds),
                ),
            )
        },
        code_id_of(contracts, name) == Err::<u64, _>(error) ==> begun_instantiation(
            contracts,
            name,
            operation,
            admin,
            funds,
        ) == Err::<InstantiationView, _>(error),
{
}

/// What an execution sends is what it was asked for: the address that is known under the name, all
/// the coins in their order, and the whole text of the parameters. It begins wherever there is such
/// an address.
pub proof fn an_execution_sends_what_was_asked_for(
    contracts: Map<Seq<char>, DeployInfoView>,
    name: Seq<char>,
    operation: Seq<char>,
    funds: Seq<(Seq<char>, u128)>,
    sender: Seq<char>,
    msg: Seq<u8>,
    contract: Seq<char>,
    error: ErrorView,
)
    ensures
        address_of(contracts, name) == Ok::<_, ErrorView>(contract) ==> {
            &&& begun_execution(contracts, name, operation, funds) matches Ok(call)
            &&& call.name == name
            &&& call.operation == operation
            &&& execute_message(call, sender, Ok(msg)) == Ok::<_, ErrorView>(
                (
                    "/cosmwasm.wasm.v1.MsgExecuteContract"@,
                    execute_encoding(sender, contract, msg, funds),
                ),
            )
        },
        address_of(contracts, name) == Err::<Seq<char>, _>(error) ==> begun_execution(
            contracts,
            name,
            operation,
            funds,
        ) == Err::<ExecutionView, _>(error),
{
}

/// A confirmed instantiation is returned and entered with the confirmed address, and with its costs
/// under its own name. From then on the contract is found at that address.
pub proof fn a_confirmed_instantiation_is_entered(
    contracts: Map<Seq<char>, DeployInfoView>,
    report: Option<GasReportView>,
    call: InstantiationView,
    receipt: ReceiptView,
    address: Seq<char>,
    file: Seq<char>,
    line: u32,
)
    requires
        confirmed_address(receipt) == Ok::<_, ErrorView>(address),
    ensures
        instantiation_outcome(Ok(receipt)) == Ok::<_, ErrorView>(
            InstantiateResponseView { address, res: receipt },
        ),
        contracts_after_instantiation(contracts, call, Ok(receipt)) == with_address(
            contracts,
            call.name,
            address,
        ),
        address_of(contracts_after_instantiation(contracts, call, Ok(receipt)), call.name) == Ok::<
            _,
            ErrorView,
        >(address),
        report_after_instantiation(report, call, Ok(receipt), file, line) == recorded(
            report,
            call.name,
            call.operation,
            "Instantiate"@,
            entry_of(receipt, file, line),
        ),
{
}

/// An instantiation that is not confirmed changes nothing, and returns the reason.
pub proof fn an_unconfirmed_instantiation_changes_nothing(
    contracts: Map<Seq<char>, DeployInfoView>,
    report: Option<GasReportView>,
    call: InstantiationView,
    receipt: ReceiptView,
    error: ErrorView,
    file: Seq<char>,
    line: u32,
)
    ensures
        instantiation_outcome(Err(error)) == Err::<InstantiateResponseView, _>(error),
        contracts_after_instantiation(contracts, call, Err(error)) == contracts,
        report_after_instantiation(report, call, Err(error), file, line) == report,
        confirmed_address(receipt) == Err::<Seq<char>, _>(error) ==> {
            &&& instantiation_outcome(Ok(receipt)) == Err::<InstantiateResponseView, _>(error)
            &&& contracts_after_instantiation(contracts, call, Ok(receipt)) == contracts
            &&& report_after_instantiation(report, call, Ok(receipt), file, line) == report
        },
{
}

/// An execution is reported with the costs of its receipt under its own name, and one without a
/// receipt is not reported.
pub proof fn an_execution_is_reported_with_its_receipt(
    report: Option<GasReportView>,
    call: ExecutionView,
    receipt: ReceiptView,
    error: ErrorView,
    file: Seq<char>,
    line: u32,
)
    ensures
        report_after_execution(report, call, Ok(receipt), file, line) == recorded(
            report,
            call.name,
            call.operation,
            "Execute"@,
            entry_of(receipt, file, line),
        ),
        report_after_execution(report, call, Err(error), file, line) == report,
{
}

} // verus!
