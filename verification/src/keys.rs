//! Keys: how they come from a phrase, and what is done with them.
use crate::error::text_outcome;
use crate::identifiers::{valid_denom, valid_prefix};
use crate::message::{messages_view, optional_array, Any};
use cosmrs::crypto::secp256k1;
use vstd::prelude::*;

verus! {

/// The number that the bytes write, the most significant one first.
pub open spec fn big_endian(bytes: Seq<u8>) -> nat
    decreases bytes.len(),
{
    if bytes.len() == 0 {
        0
    } else {
        big_endian(bytes.drop_last()) * 256 + bytes.last() as nat
    }
}

/// Whether the bytes are a private key of the curve secp256k1: a number above zero and below the
/// order of the group.
pub open spec fn is_private_key(bytes: Seq<u8>) -> bool {
    &&& bytes.len() == 32
    &&& 0 < big_endian(bytes)
        < 0xFFFFFFFFFFFFFFFFFFFFFFFFFFFFFFFEBAAEDCE6AF48A03BBFD25E8CD0364141nat
}

/// The entropy that a BIP39 phrase of English words encodes, where it is one.
pub uninterp spec fn phrase_entropy(phrase: Seq<char>) -> Option<Seq<u8>>;

/// Reads a phrase with `bip32::Mnemonic::new`. Claims that whether the phrase is accepted, and the
/// entropy that it encodes, is determined by its text.
#[verifier::external_body]
pub(crate) fn read_phrase(phrase: &str) -> (entropy: Option<[u8; 32]>)
    ensures
        optional_array(entropy) == phrase_entropy(phrase@),
{
    match bip32::Mnemonic::new(phrase, bip32::Language::English) {
        Ok(mnemonic) => Some(*mnemonic.entropy()),
        Err(_) => None,
    }
}

/// The BIP39 seed of an entropy under a passphrase.
pub uninterp spec fn entropy_seed(entropy: Seq<u8>, passphrase: Seq<char>) -> Seq<u8>;

/// Stretches an entropy with `bip32::Mnemonic::to_seed`, on the phrase that encodes it. Claims that
/// the seed is determined by the entropy and the passphrase.
#[verifier::external_body]
pub(crate) fn stretch(entropy: [u8; 32], passphrase: &str) -> (seed: Vec<u8>)
    ensures
        seed@ == entropy_seed(entropy@, passphrase@),
{
    let mnemonic = bip32::Mnemonic::from_entropy(entropy, bip32::Language::English);
    mnemonic.to_seed(passphrase).as_bytes().to_vec()
}

/// The child numbers of a derivation path, where the text is one.
pub uninterp spec fn path_numbers(text: Seq<char>) -> Option<Seq<u32>>;

/// Parses a `bip32::DerivationPath`. Claims that whether the text is a path, and the child numbers
/// of the path, are determined by the text.
#[verifier::external_body]
pub(crate) fn read_path(text: &str) -> (numbers: Option<Vec<u32>>)
    ensures
        (match numbers {
            Some(numbers) => Some(numbers@),
            None => None,
        }) == path_numbers(text@),
{
    match text.parse::<bip32::DerivationPath>() {
        Ok(path) => Some(path.iter().map(|number| number.0).collect()),
        Err(_) => None,
    }
}

/// The private key that a seed gives along a path, where it gives one.
pub uninterp spec fn derived_key(seed: Seq<u8>, path: Seq<u32>) -> Option<Seq<u8>>;

/// Derives a key with `bip32::XPrv::derive_from_path`. Claims that whether a key comes out, and
/// which, is determined by the seed and the child numbers, and that it is a private key of the
/// curve.
/// That two paths give two keys is not claimed: a child key depends on a keyed digest.
#[verifier::external_body]
pub(crate) fn derive_key(seed: &[u8], path: &[u32]) -> (key: Option<[u8; 32]>)
    ensures
        optional_array(key) == derived_key(seed@, path@),
        key matches Some(key) ==> is_private_key(key@),
{
    let mut numbers = bip32::DerivationPath::default();
    numbers.extend(path.iter().map(|number| bip32::ChildNumber(*number)));
    match bip32::XPrv::derive_from_path(seed, &numbers) {
        Ok(key) => Some(key.to_bytes()),
        Err(_) => None,
    }
}

/// The address of the account that a private key controls, under a prefix.
pub uninterp spec fn key_address(key: Seq<u8>, prefix: Seq<char>) -> Seq<char>;

/// Computes an address with `cosmrs::crypto::PublicKey::account_id`, of the public half of the key.
/// Claims that there is one exactly where the prefix is valid, and that it is determined by the key
/// and the prefix.
/// That two keys have two addresses is not claimed: an address is a digest of the public half.
#[verifier::external_body]
pub(crate) fn account_id(key: &[u8; 32], prefix: &str) -> (address: Option<String>)
    requires
        is_private_key(key@),
    ensures
        address is Some <==> valid_prefix(prefix@),
        address matches Some(address) ==> address@ == key_address(key@, prefix@),
{
    let key = secp256k1::SigningKey::from_slice(key).unwrap();
    match key.public_key().account_id(prefix) {
        Ok(address) => Some(address.to_string()),
        Err(_) => None,
    }
}

/// The encoding of the body of a transaction.
pub uninterp spec fn body_encoding(
    messages: Seq<(Seq<char>, Seq<u8>)>,
    memo: Seq<char>,
    timeout_height: u32,
) -> Seq<u8>;

/// Encodes a `cosmrs::tx::Body` with its `into_bytes`, which writes to a vector that grows as
/// needed. Claims that the encoding succeeds, and that it is determined by the messages, the memo
/// and the height.
#[verifier::external_body]
pub(crate) fn encode_body(messages: &Vec<Any>, memo: &str, timeout_height: u32) -> (result: Result<
    Vec<u8>,
    String,
>)
    ensures
        result is Ok,
        result->Ok_0@ == body_encoding(messages_view(messages@), memo@, timeout_height),
{
    let messages = messages.iter().map(
        |any| cosmrs::Any { type_url: any.type_url.clone(), value: any.value.clone() },
    );
    cosmrs::tx::Body::new(messages, memo, timeout_height).into_bytes().map_err(
        |error| error.to_string(),
    )
}

/// The encoding of who signs a transaction and of the fee that is paid for it, or why there is
/// none.
pub uninterp spec fn auth_info_encoding(
    key: Option<Seq<u8>>,
    sequence: u64,
    denom: Seq<char>,
    amount: u128,
    gas_limit: u64,
) -> Seq<u8>;

/// Encodes a `cosmrs::tx::AuthInfo` with its `into_bytes`, which writes to a vector that grows as
/// needed: one direct signer with a sequence number, and with the public half of the key where one
/// is given; and a fee of one coin. Claims that the encoding succeeds, and that it is determined
/// by the values handed in.
#[verifier::external_body]
pub(crate) fn encode_auth_info(
    key: Option<[u8; 32]>,
    sequence: u64,
    denom: &str,
    amount: u128,
    gas_limit: u64,
) -> (result: Result<Vec<u8>, String>)
    requires
        key matches Some(key) ==> is_private_key(key@),
        valid_denom(denom@),
    ensures
        result is Ok,
        result->Ok_0@ == auth_info_encoding(
            optional_array(key),
            sequence,
            denom@,
            amount,
            gas_limit,
        ),
{
    let public = key.map(|key| secp256k1::SigningKey::from_slice(&key).unwrap().public_key());
    let coin = cosmrs::Coin { denom: denom.parse().unwrap(), amount };
    let fee = cosmrs::tx::Fee::from_amount_and_gas(coin, gas_limit);
    let auth = cosmrs::tx::SignerInfo::single_direct(public, sequence).auth_info(fee);
    auth.into_bytes().map_err(|error| error.to_string())
}

/// The signature of a transaction under a key, or why there is none.
pub uninterp spec fn document_signature(
    key: Seq<u8>,
    body: Seq<u8>,
    auth_info: Seq<u8>,
    chain_id: Seq<char>,
    account_number: u64,
) -> Result<Seq<u8>, Seq<char>>;

/// Signs a `cosmrs::tx::SignDoc` with its `sign`, whose ephemeral scalar is derived from the key
/// and the document. Claims that the outcome is determined by the values handed in.
#[verifier::external_body]
pub(crate) fn sign_document(
    key: &[u8; 32],
    body: &[u8],
    auth_info: &[u8],
    chain_id: &str,
    account_number: u64,
) -> (result: Result<Vec<u8>, String>)
    requires
        is_private_key(key@),
    ensures
        text_outcome(result) == document_signature(
            key@,
            body@,
            auth_info@,
            chain_id@,
            account_number,
        ),
{
    let (body_bytes, auth_info_bytes) = (body.to_vec(), auth_info.to_vec());
    let chain_id = chain_id.to_string();
    let document = cosmrs::tx::SignDoc { body_bytes, auth_info_bytes, chain_id, account_number };
    let key = secp256k1::SigningKey::from_slice(key).unwrap();
    match document.sign(&key) {
        Ok(raw) => Ok(
            cosmrs::proto::cosmos::tx::v1beta1::TxRaw::from(raw).signatures.swap_remove(0),
        ),
        Err(error) => Err(error.to_string()),
    }
}

} // verus!
