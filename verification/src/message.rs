//! The plain values that messages to and from a chain are made of.
use crate::identifiers::{denom_error, valid_denom, Denom};
use vstd::prelude::*;

verus! {

/// A message of any type: the URL that names its type, and its encoding.
#[derive(Clone, Debug, PartialEq, Eq)]
pub struct Any {
    pub type_url: String,
    pub value: Vec<u8>,
}

impl View for Any {
    type V = (Seq<char>, Seq<u8>);

    open spec fn view(&self) -> (Seq<char>, Seq<u8>) {
        (self.type_url@, self.value@)
    }
}

/// The messages of a list.
pub open spec fn messages_view(messages: Seq<Any>) -> Seq<(Seq<char>, Seq<u8>)> {
    messages.map_values(|message: Any| message@)
}

/// An optional message.
pub open spec fn optional_message(message: Option<Any>) -> Option<(Seq<char>, Seq<u8>)> {
    match message {
        Some(message) => Some(message@),
        None => None,
    }
}

/// An amount of one denomination.
#[derive(Debug, PartialEq, Eq)]
pub struct Coin {
    pub denom: Denom,
    pub amount: u128,
}

impl View for Coin {
    type V = (Seq<char>, u128);

    open spec fn view(&self) -> (Seq<char>, u128) {
        (self.denom@, self.amount)
    }
}

impl Coin {
    /// An amount of the denomination that the text names.
    pub fn new(amount: u128, denom: &str) -> (result: Result<Coin, String>)
        ensures
            match result {
                Ok(coin) => valid_denom(denom@) && coin@ == (denom@, amount),
                Err(error) => !valid_denom(denom@) && error@ == denom_error(denom@),
            },
    {
        match Denom::parse(denom) {
            Ok(denom) => Ok(Coin { denom, amount }),
            Err(error) => Err(error),
        }
    }
}

impl Clone for Coin {
    fn clone(&self) -> (copy: Self)
        ensures
            copy@ == self@,
    {
        Coin { denom: self.denom.clone(), amount: self.amount }
    }
}

/// The coins of a list.
pub open spec fn coins_view(coins: Seq<Coin>) -> Seq<(Seq<char>, u128)> {
    coins.map_values(|coin: Coin| coin@)
}

/// The texts of a list.
pub open spec fn texts_view(texts: Seq<String>) -> Seq<Seq<char>> {
    texts.map_values(|text: String| text@)
}

/// The byte strings of a list.
pub open spec fn bytes_view(list: Seq<Vec<u8>>) -> Seq<Seq<u8>> {
    list.map_values(|bytes: Vec<u8>| bytes@)
}

/// Optional bytes of a fixed number.
pub open spec fn optional_array(bytes: Option<[u8; 32]>) -> Option<Seq<u8>> {
    match bytes {
        Some(bytes) => Some(bytes@),
        None => None,
    }
}

/// Who may instantiate stored code: the kind of permission, and the addresses it names.
#[derive(Clone, Debug, PartialEq, Eq)]
pub struct AccessConfig {
    pub permission: i32,
    pub addresses: Vec<String>,
}

impl View for AccessConfig {
    type V = (i32, Seq<Seq<char>>);

    open spec fn view(&self) -> (i32, Seq<Seq<char>>) {
        (self.permission, texts_view(self.addresses@))
    }
}

/// What an optional permission says.
pub open spec fn access_view(access: Option<AccessConfig>) -> Option<(i32, Seq<Seq<char>>)> {
    match access {
        Some(access) => Some(access@),
        None => None,
    }
}

/// The account that signs a transaction, as the chain knows it.
#[derive(Clone, Debug, PartialEq, Eq)]
pub struct BaseAccount {
    pub address: String,
    /// Its public key, where the chain has seen one.
    pub pub_key: Option<Any>,
    pub account_number: u64,
    pub sequence: u64,
}

/// What a [`BaseAccount`] says.
pub struct AccountView {
    pub address: Seq<char>,
    pub pub_key: Option<(Seq<char>, Seq<u8>)>,
    pub account_number: u64,
    pub sequence: u64,
}

impl View for BaseAccount {
    type V = AccountView;

    open spec fn view(&self) -> AccountView {
        AccountView {
            address: self.address@,
            pub_key: optional_message(self.pub_key),
            account_number: self.account_number,
            sequence: self.sequence,
        }
    }
}

/// What the chain answers to stored code: its number, and the checksum of the bytes it received.
#[derive(Clone, Debug, PartialEq, Eq)]
pub struct StoreCodeResponse {
    pub code_id: u64,
    pub checksum: Vec<u8>,
}

impl View for StoreCodeResponse {
    type V = (u64, Seq<u8>);

    open spec fn view(&self) -> (u64, Seq<u8>) {
        (self.code_id, self.checksum@)
    }
}

/// What the chain answers to an instantiated contract.
#[derive(Clone, Debug, PartialEq, Eq)]
pub struct InstantiateContractResponse {
    pub address: String,
    pub data: Vec<u8>,
}

impl View for InstantiateContractResponse {
    type V = (Seq<char>, Seq<u8>);

    open spec fn view(&self) -> (Seq<char>, Seq<u8>) {
        (self.address@, self.data@)
    }
}

/// An amount as a bank reports it: a denomination, and decimal text.
#[derive(Clone, Debug, PartialEq, Eq)]
pub struct ReportedCoin {
    pub denom: String,
    pub amount: String,
}

impl View for ReportedCoin {
    type V = (Seq<char>, Seq<char>);

    open spec fn view(&self) -> (Seq<char>, Seq<char>) {
        (self.denom@, self.amount@)
    }
}

/// An optional reported amount.
pub open spec fn reported_view(coin: Option<ReportedCoin>) -> Option<(Seq<char>, Seq<char>)> {
    match coin {
        Some(coin) => Some(coin@),
        None => None,
    }
}

/// A list is taken item by item, in its order: none is left out, added, or changed.
pub proof fn lists_are_taken_item_by_item(
    messages: Seq<Any>,
    coins: Seq<Coin>,
    texts: Seq<String>,
    list: Seq<Vec<u8>>,
)
    ensures
        messages_view(messages).len() == messages.len(),
        forall|i: int|
            0 <= i < messages.len() ==> (#[trigger] messages_view(messages)[i]).0
                == messages[i].type_url@ && messages_view(messages)[i].1 == messages[i].value@,
        coins_view(coins).len() == coins.len(),
        forall|i: int|
            0 <= i < coins.len() ==> (#[trigger] coins_view(coins)[i]).0 == coins[i].denom@
                && coins_view(coins)[i].1 == coins[i].amount,
        texts_view(texts).len() == texts.len(),
        forall|i: int| 0 <= i < texts.len() ==> #[trigger] texts_view(texts)[i] == texts[i]@,
        bytes_view(list).len() == list.len(),
        forall|i: int| 0 <= i < list.len() ==> #[trigger] bytes_view(list)[i] == list[i]@,
{
}

/// Every value says all that it holds.
pub proof fn values_say_what_they_hold(
    any: Any,
    bytes: [u8; 32],
    access: AccessConfig,
    account: BaseAccount,
    stored: StoreCodeResponse,
    instantiated: InstantiateContractResponse,
    reported: ReportedCoin,
)
    ensures
        any@.0 == any.type_url@ && any@.1 == any.value@,
        optional_message(Some(any)) == Some((any.type_url@, any.value@)),
        optional_message(None) is None,
        optional_array(Some(bytes)) == Some(bytes@),
        optional_array(None) is None,
        access_view(Some(access)) == Some((access.permission, texts_view(access.addresses@))),
        access_view(None) is None,
        account@.address == account.address@,
        account@.pub_key == optional_message(account.pub_key),
        account@.account_number == account.account_number,
        account@.sequence == account.sequence,
        stored@.0 == stored.code_id && stored@.1 == stored.checksum@,
        instantiated@.0 == instantiated.address@ && instantiated@.1 == instantiated.data@,
        reported_view(Some(reported)) == Some((reported.denom@, reported.amount@)),
        reported_view(None) is None,
{
}

} // verus!
