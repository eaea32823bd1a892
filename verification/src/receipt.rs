//! What a chain reports of a committed transaction.
use crate::error::{outcome, ErrorView, ProcessError};
use crate::message::{InstantiateContractResponse, StoreCodeResponse};
use crate::text::same_text;
use crate::wire::{
    decode_instantiate_response, decode_message_responses, decode_store_code_response,
    decoded_instantiate_response, decoded_message_responses, decoded_store_code_response,
};
use vstd::prelude::*;

verus! {

/// The type of what the chain answers to stored code.
pub const STORE_CODE_RESPONSE: &'static str = "/cosmwasm.wasm.v1.MsgStoreCodeResponse";

/// The type of what the chain answers to an instantiated contract.
pub const INSTANTIATE_RESPONSE: &'static str = "/cosmwasm.wasm.v1.MsgInstantiateContractResponse";

/// One attribute of an event.
///
/// Since protocol version 0.37 keys and values are plain text; before it they were bytes. Either
/// way they are kept as the node sent them and are never decoded any further.
#[derive(Clone, Debug, PartialEq, Eq)]
pub enum EventAttribute {
    /// A textual attribute.
    V037 { key: String, value: String, index: bool },
    /// An attribute made of bytes.
    V034 { key: Vec<u8>, value: Vec<u8>, index: bool },
}

/// An event that occurred while a transaction was executed.
#[derive(Clone, Debug, PartialEq, Eq)]
pub struct Event {
    /// The kind of event.
    pub kind: String,
    /// Its attributes, in the order in which the node listed them.
    pub attributes: Vec<EventAttribute>,
}

/// Committed execution data. An admission check alone is never turned into a receipt.
#[derive(Clone, Debug)]
pub struct Receipt {
    pub hash: String,
    pub height: u64,
    pub code: u32,
    pub codespace: String,
    pub log: String,
    pub gas_wanted: u64,
    pub gas_used: u64,
    pub data: Vec<u8>,
    pub events: Vec<Event>,
}

/// What a [`Receipt`] says.
pub struct ReceiptView {
    pub hash: Seq<char>,
    pub height: u64,
    pub code: u32,
    pub codespace: Seq<char>,
    pub log: Seq<char>,
    pub gas_wanted: u64,
    pub gas_used: u64,
    pub data: Seq<u8>,
    pub events: Seq<Event>,
}

impl View for Receipt {
    type V = ReceiptView;

    open spec fn view(&self) -> ReceiptView {
        ReceiptView {
            hash: self.hash@,
            height: self.height,
            code: self.code,
            codespace: self.codespace@,
            log: self.log@,
            gas_wanted: self.gas_wanted,
            gas_used: self.gas_used,
            data: self.data@,
            events: self.events@,
        }
    }
}

/// The one message response that a receipt holds, which has to be of the type `type_url`.
///
/// Exactly one message is ever submitted. Events that occurred below it can name other contracts,
/// so they are never consulted.
pub open spec fn response_of(receipt: ReceiptView, type_url: Seq<char>) -> Result<
    Seq<u8>,
    ErrorView,
> {
    match decoded_message_responses(receipt.data) {
        Err(text) => Err(ErrorView::Protocol(text)),
        Ok(responses) => if responses.len() == 1 && responses[0].0 == type_url {
            Ok(responses[0].1)
        } else {
            Err(ErrorView::Protocol("expected one "@ + type_url + " message response"@))
        },
    }
}

/// What the chain answered to stored code.
pub open spec fn store_response_of(receipt: ReceiptView) -> Result<(u64, Seq<u8>), ErrorView> {
    match response_of(receipt, STORE_CODE_RESPONSE@) {
        Err(error) => Err(error),
        Ok(bytes) => match decoded_store_code_response(bytes) {
            Err(text) => Err(ErrorView::Protocol(text)),
            Ok(response) => Ok(response),
        },
    }
}

/// What the chain answered to an instantiated contract.
pub open spec fn instantiate_response_of(receipt: ReceiptView) -> Result<
    (Seq<char>, Seq<u8>),
    ErrorView,
> {
    match response_of(receipt, INSTANTIATE_RESPONSE@) {
        Err(error) => Err(error),
        Ok(bytes) => match decoded_instantiate_response(bytes) {
            Err(text) => Err(ErrorView::Protocol(text)),
            Ok(response) => Ok(response),
        },
    }
}

impl Receipt {
    /// The encoding of the one message response, which has to be of the type `type_url`.
    pub fn message_response(&self, type_url: &str) -> (result: Result<Vec<u8>, ProcessError>)
        ensures
            outcome(result) == response_of(self@, type_url@),
    {
        let mut responses = match decode_message_responses(&self.data) {
            Ok(responses) => responses,
            Err(text) => return Err(ProcessError::Protocol(text)),
        };
        if responses.len() != 1 || !same_text(&responses[0].type_url, type_url) {
            let text: String = "expected one ".to_owned().concat(type_url).concat(
                " message response",
            );
            return Err(ProcessError::Protocol(text));
        }
        Ok(responses.remove(0).value)
    }

    /// What the chain answered to stored code.
    pub fn store_code_response(&self) -> (result: Result<StoreCodeResponse, ProcessError>)
        ensures
            outcome(result) == store_response_of(self@),
    {
        match self.message_response(STORE_CODE_RESPONSE) {
            Ok(bytes) => match decode_store_code_response(&bytes) {
                Ok(response) => Ok(response),
                Err(text) => Err(ProcessError::Protocol(text)),
            },
            Err(error) => Err(error),
        }
    }

    /// What the chain answered to an instantiated contract.
    pub fn instantiate_response(&self) -> (result: Result<
        InstantiateContractResponse,
        ProcessError,
    >)
        ensures
            outcome(result) == instantiate_response_of(self@),
    {
        match self.message_response(INSTANTIATE_RESPONSE) {
            Ok(bytes) => match decode_instantiate_response(&bytes) {
                Ok(response) => Ok(response),
                Err(text) => Err(ProcessError::Protocol(text)),
            },
            Err(error) => Err(error),
        }
    }
}

/// Which contract a receipt names depends on the response to the submitted message alone, and not
/// on the events that a receipt lists.
pub proof fn events_name_no_contract(receipt: ReceiptView, events: Seq<Event>)
    ensures
        instantiate_response_of(ReceiptView { events, ..receipt }) == instantiate_response_of(
            receipt,
        ),
        store_response_of(ReceiptView { events, ..receipt }) == store_response_of(receipt),
{
}

/// A receipt says all that it holds.
pub proof fn a_receipt_says_what_it_holds(receipt: Receipt)
    ensures
        receipt@.hash == receipt.hash@,
        receipt@.height == receipt.height,
        receipt@.code == receipt.code,
        receipt@.codespace == receipt.codespace@,
        receipt@.log == receipt.log@,
        receipt@.gas_wanted == receipt.gas_wanted,
        receipt@.gas_used == receipt.gas_used,
        receipt@.data == receipt.data@,
        receipt@.events == receipt.events@,
{
}

/// Where the data of a receipt holds one response, it is found under its own type, whole; and what
/// it holds as an answer to stored code or to an instantiated contract is what its bytes decode to.
pub proof fn the_only_response_is_found(
    receipt: ReceiptView,
    type_url: Seq<char>,
    value: Seq<u8>,
)
    requires
        decoded_message_responses(receipt.data) == Ok::<Seq<(Seq<char>, Seq<u8>)>, Seq<char>>(
            seq![(type_url, value)],
        ),
    ensures
        response_of(receipt, type_url) == Ok::<Seq<u8>, ErrorView>(value),
        forall|other: Seq<char>|
            other != type_url ==> #[trigger] response_of(receipt, other) == Err::<Seq<u8>, _>(
                ErrorView::Protocol("expected one "@ + other + " message response"@),
            ),
        type_url == "/cosmwasm.wasm.v1.MsgStoreCodeResponse"@ ==> match decoded_store_code_response(
            value,
        ) {
            Ok(answer) => store_response_of(receipt) == Ok::<_, ErrorView>(answer),
            Err(text) => store_response_of(receipt) == Err::<(u64, Seq<u8>), _>(
                ErrorView::Protocol(text),
            ),
        },
        type_url == "/cosmwasm.wasm.v1.MsgInstantiateContractResponse"@
            ==> match decoded_instantiate_response(value) {
            Ok(answer) => instantiate_response_of(receipt) == Ok::<_, ErrorView>(answer),
            Err(text) => instantiate_response_of(receipt) == Err::<(Seq<char>, Seq<u8>), _>(
                ErrorView::Protocol(text),
            ),
        },
{
}

/// A response is never made up: what is found is the one response that the data holds, and data
/// that cannot be read, or that holds none or several, gives none.
pub proof fn no_response_is_made_up(receipt: ReceiptView, type_url: Seq<char>)
    ensures
        match decoded_message_responses(receipt.data) {
            Err(text) => response_of(receipt, type_url) == Err::<Seq<u8>, _>(
                ErrorView::Protocol(text),
            ),
            Ok(responses) => responses.len() != 1 ==> response_of(receipt, type_url) is Err,
        },
        response_of(receipt, type_url) matches Ok(value) ==> decoded_message_responses(receipt.data)
            == Ok::<Seq<(Seq<char>, Seq<u8>)>, Seq<char>>(seq![(type_url, value)]),
        store_response_of(receipt) is Ok ==> response_of(
            receipt,
            "/cosmwasm.wasm.v1.MsgStoreCodeResponse"@,
        ) is Ok,
        instantiate_response_of(receipt) is Ok ==> response_of(
            receipt,
            "/cosmwasm.wasm.v1.MsgInstantiateContractResponse"@,
        ) is Ok,
{
    if let Ok(responses) = decoded_message_responses(receipt.data) {
        if responses.len() == 1 {
            assert(responses =~= seq![responses[0]]);
        }
    }
}

} // verus!
