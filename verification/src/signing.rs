//! Who signs a transaction, what it costs, and how it is put together.
use crate::config::{ChainConfig, ChainConfigView};
use crate::error::{outcome, protocol, ErrorView, ProcessError};
use crate::identifiers::{
    denom_error, parse_chain_id, parse_denom, valid_chain_id, valid_denom, valid_prefix, Address,
    Denom,
};
use crate::keys::{
    account_id, auth_info_encoding, body_encoding, derive_key, derived_key, document_signature,
    encode_auth_info, encode_body, entropy_seed, is_private_key, key_address, path_numbers,
    phrase_entropy, read_path, read_phrase, sign_document, stretch,
};
use crate::message::{bytes_view, messages_view, Any};
use crate::quantity::{
    nearest, product_covers_the_count, product_rounded_up, products_are_covered_by_the_least_number,
    round_up_product, Quantity,
};
use crate::text::{quote, quoted};
use crate::wire::{encode_transaction, transaction_encoding};
use vstd::arithmetic::power2::pow2;
use vstd::prelude::*;

verus! {

/// The memo of a transaction that is only simulated. Its length is part of what the simulated gas
/// pays for.
pub const SIMULATION_MEMO: &'static str = "cosm-client memo";

/// The memo of a transaction that is submitted. Its length is part of what the gas pays for.
pub const TRANSACTION_MEMO: &'static str = "Made with cosm-tome client";

/// What is shown in place of a secret.
pub const REDACTED: &'static str = "Mnemonic([REDACTED])";

/// The secret that a key is derived from.
#[derive(Clone)]
pub enum Key {
    /// A BIP39 phrase of English words.
    Mnemonic(String),
}

impl View for Key {
    type V = Seq<char>;

    open spec fn view(&self) -> Seq<char> {
        match self {
            Key::Mnemonic(phrase) => phrase@,
        }
    }
}

/// A key that signs transactions.
#[derive(Clone)]
pub struct SigningKey {
    pub name: String,
    pub key: Key,
    pub derivation_path: String,
}

/// What a [`SigningKey`] holds.
pub struct SigningKeyView {
    pub name: Seq<char>,
    pub phrase: Seq<char>,
    pub derivation_path: Seq<char>,
}

impl View for SigningKey {
    type V = SigningKeyView;

    open spec fn view(&self) -> SigningKeyView {
        SigningKeyView {
            name: self.name@,
            phrase: self.key@,
            derivation_path: self.derivation_path@,
        }
    }
}

/// A private key, and the address that it controls.
pub struct Signer {
    key: [u8; 32],
    address: Address,
}

/// What a [`Signer`] holds.
pub struct SignerView {
    pub key: Seq<u8>,
    pub address: Seq<char>,
}

impl View for Signer {
    type V = SignerView;

    closed spec fn view(&self) -> SignerView {
        SignerView { key: self.key@, address: self.address@ }
    }
}

impl Signer {
    #[verifier::type_invariant]
    spec fn well_formed(self) -> bool {
        is_private_key(self.key@)
    }

    /// The address of the account.
    pub fn address(&self) -> (address: &Address)
        ensures
            address@ == self@.address,
    {
        &self.address
    }
}

/// The signer that a key gives under an address prefix, or why it gives none. The passphrase is
/// empty.
pub open spec fn signer_of(key: SigningKeyView, prefix: Seq<char>) -> Result<
    SignerView,
    ErrorView,
> {
    match phrase_entropy(key.phrase) {
        None => Err(ErrorView::Signing("invalid BIP39 mnemonic"@)),
        Some(entropy) => match path_numbers(key.derivation_path) {
            None => Err(ErrorView::Signing("invalid derivation path"@)),
            Some(path) => match derived_key(entropy_seed(entropy, ""@), path) {
                None => Err(ErrorView::Signing("key derivation failed"@)),
                Some(private) => if valid_prefix(prefix) {
                    Ok(SignerView { key: private, address: key_address(private, prefix) })
                } else {
                    Err(ErrorView::Signing("invalid account prefix"@))
                },
            },
        },
    }
}

/// The address that a key controls under a prefix, or why it controls none.
pub open spec fn address_of_key(key: SigningKeyView, prefix: Seq<char>) -> Result<
    Seq<char>,
    ErrorView,
> {
    match signer_of(key, prefix) {
        Ok(signer) => Ok(signer.address),
        Err(error) => Err(error),
    }
}

/// How a key is shown: by its name and its path. Of the phrase nothing is shown.
pub open spec fn description(key: SigningKeyView) -> Seq<char> {
    "SigningKey { name: "@ + quoted(key.name) + ", key: "@ + REDACTED@ + ", derivation_path: "@
        + quoted(key.derivation_path) + " }"@
}

impl Key {
    /// How the secret is shown.
    pub fn redacted(&self) -> (shown: String)
        ensures
            shown@ == REDACTED@,
    {
        REDACTED.to_owned()
    }
}

impl SigningKey {
    /// How the key is shown in a message to its user.
    pub fn describe(&self) -> (shown: String)
        ensures
            shown@ == description(self@),
    {
        "SigningKey { name: ".to_owned().concat(&quote(&self.name)).concat(", key: ").concat(
            &self.key.redacted(),
        ).concat(", derivation_path: ").concat(&quote(&self.derivation_path)).concat(" }")
    }

    /// The address of the account that the key controls.
    pub fn address(&self, prefix: &str) -> (result: Result<Address, ProcessError>)
        ensures
            outcome(result) == address_of_key(self@, prefix@),
    {
        match self.derive(prefix) {
            Ok(signer) => Ok(signer.address),
            Err(error) => Err(error),
        }
    }

    /// Derives the private key, and the address that it controls.
    pub fn derive(&self, prefix: &str) -> (result: Result<Signer, ProcessError>)
        ensures
            outcome(result) == signer_of(self@, prefix@),
    {
        let Key::Mnemonic(phrase) = &self.key;
        let entropy = match read_phrase(phrase) {
            Some(entropy) => entropy,
            None => return Err(ProcessError::Signing("invalid BIP39 mnemonic".to_owned())),
        };
        let path = match read_path(&self.derivation_path) {
            Some(path) => path,
            None => return Err(ProcessError::Signing("invalid derivation path".to_owned())),
        };
        let seed = stretch(entropy, "");
        let key = match derive_key(&seed, &path) {
            Some(key) => key,
            None => return Err(ProcessError::Signing("key derivation failed".to_owned())),
        };
        match account_id(&key, prefix) {
            Some(text) => Ok(Signer { key, address: Address::known(text) }),
            None => Err(ProcessError::Signing("invalid account prefix".to_owned())),
        }
    }
}

/// The bytes of a transaction that is only simulated. There are some wherever the denomination is
/// one.
///
/// It carries the messages and the sequence number of the signer, neither public key nor signature,
/// and a fee of nothing.
pub open spec fn simulated_transaction(
    msgs: Seq<(Seq<char>, Seq<u8>)>,
    sequence: u64,
    denom: Seq<char>,
) -> Result<Seq<u8>, ErrorView> {
    if !valid_denom(denom) {
        Err(ErrorView::Protocol(denom_error(denom)))
    } else {
        Ok(
            transaction_encoding(
                body_encoding(msgs, SIMULATION_MEMO@, 0),
                auth_info_encoding(None, sequence, denom, 0, 0),
                seq![Seq::<u8>::empty()],
            ),
        )
    }
}

/// Puts together the transaction that is simulated before one is signed.
pub fn simulation_bytes(msgs: &Vec<Any>, sequence: u64, denom: &str) -> (result: Result<
    Vec<u8>,
    ProcessError,
>)
    ensures
        outcome(result) == simulated_transaction(messages_view(msgs@), sequence, denom@),
{
    match parse_denom(denom) {
        Ok(()) => {},
        Err(text) => return Err(ProcessError::Protocol(text)),
    }
    let body = match encode_body(msgs, SIMULATION_MEMO, 0) {
        Ok(body) => body,
        Err(text) => return Err(ProcessError::Protocol(text)),
    };
    let auth_info = match encode_auth_info(None, sequence, denom, 0, 0) {
        Ok(auth_info) => auth_info,
        Err(text) => return Err(ProcessError::Protocol(text)),
    };
    let unsigned: Vec<u8> = Vec::new();
    let mut signatures: Vec<Vec<u8>> = Vec::new();
    signatures.push(unsigned);
    assert(bytes_view(signatures@) =~= seq![Seq::<u8>::empty()]);
    Ok(encode_transaction(&body, &auth_info, &signatures))
}

/// What a transaction may use, and what is paid for it.
#[derive(Debug)]
pub struct Fee {
    denom: Denom,
    amount: u64,
    gas_limit: u64,
}

/// What a [`Fee`] says.
pub struct FeeView {
    pub denom: Seq<char>,
    pub amount: nat,
    pub gas_limit: nat,
}

impl View for Fee {
    type V = FeeView;

    closed spec fn view(&self) -> FeeView {
        FeeView {
            denom: self.denom@,
            amount: self.amount as nat,
            gas_limit: self.gas_limit as nat,
        }
    }
}

impl Fee {
    /// The denomination that the fee is paid in.
    pub fn denom(&self) -> (denom: &Denom)
        ensures
            denom@ == self@.denom,
    {
        &self.denom
    }

    /// How much is paid.
    pub fn amount(&self) -> (amount: u64)
        ensures
            amount == self@.amount,
    {
        self.amount
    }

    /// How much gas the transaction may use.
    pub fn gas_limit(&self) -> (gas_limit: u64)
        ensures
            gas_limit == self@.gas_limit,
    {
        self.gas_limit
    }
}

/// The fee for a transaction whose simulation used `gas_used`, or why there is none.
///
/// The gas limit is the simulated gas times the adjustment, rounded up, and the amount is the gas
/// limit times the price, rounded up. Neither is ever cut down to what 64 bits hold.
pub open spec fn fee_for(gas_used: u64, cfg: ChainConfigView) -> Result<FeeView, ErrorView> {
    let outside = ErrorView::Protocol("simulated fee is outside the supported u64 range"@);
    match product_rounded_up(gas_used as nat, cfg.gas_adjustment) {
        None => Err(outside),
        Some(gas_limit) => match product_rounded_up(gas_limit, cfg.gas_price) {
            None => Err(outside),
            Some(amount) => if valid_denom(cfg.denom) {
                Ok(FeeView { denom: cfg.denom, amount, gas_limit })
            } else {
                Err(ErrorView::Protocol(denom_error(cfg.denom)))
            },
        },
    }
}

/// The fee for a transaction whose simulation used `gas_used`.
pub fn fee(gas_used: u64, cfg: &ChainConfig) -> (result: Result<Fee, ProcessError>)
    ensures
        outcome(result) == fee_for(gas_used, cfg@),
{
    let gas_limit = match round_up_product(gas_used, cfg.gas_adjustment) {
        Some(gas_limit) => gas_limit,
        None => return Err(protocol("simulated fee is outside the supported u64 range")),
    };
    let amount = match round_up_product(gas_limit, cfg.gas_price) {
        Some(amount) => amount,
        None => return Err(protocol("simulated fee is outside the supported u64 range")),
    };
    match Denom::parse(&cfg.denom) {
        Ok(denom) => Ok(Fee { denom, amount, gas_limit }),
        Err(text) => Err(ProcessError::Protocol(text)),
    }
}

/// The bytes of a signed transaction. There are some wherever the document can be signed.
///
/// It carries the messages, the sequence number and the public key of the signer, the fee, and one
/// signature. The signature covers the chain and the account number as well.
pub open spec fn signed_transaction(
    key: Seq<u8>,
    msgs: Seq<(Seq<char>, Seq<u8>)>,
    account_number: u64,
    sequence: u64,
    fee: FeeView,
    chain_id: Seq<char>,
) -> Result<Seq<u8>, ErrorView> {
    let body = body_encoding(msgs, TRANSACTION_MEMO@, 0);
    let auth_info = auth_info_encoding(
        Some(key),
        sequence,
        fee.denom,
        fee.amount as u128,
        fee.gas_limit as u64,
    );
    match document_signature(key, body, auth_info, chain_id, account_number) {
        Err(text) => Err(ErrorView::Protocol(text)),
        Ok(signature) => Ok(transaction_encoding(body, auth_info, seq![signature])),
    }
}

/// Puts together and signs a transaction. How the refusal of a chain name reads is left open.
pub fn sign(
    signer: &Signer,
    msgs: &Vec<Any>,
    account_number: u64,
    sequence: u64,
    fee: &Fee,
    chain_id: &str,
) -> (result: Result<Vec<u8>, ProcessError>)
    ensures
        if valid_chain_id(chain_id@) {
            outcome(result) == signed_transaction(
                signer@.key,
                messages_view(msgs@),
                account_number,
                sequence,
                fee@,
                chain_id@,
            )
        } else {
            result is Err && result->Err_0@ is Protocol
        },
{
    proof {
        use_type_invariant(signer);
    }
    match parse_chain_id(chain_id) {
        Ok(()) => {},
        Err(text) => return Err(ProcessError::Protocol(text)),
    }
    let body = match encode_body(msgs, TRANSACTION_MEMO, 0) {
        Ok(body) => body,
        Err(text) => return Err(ProcessError::Protocol(text)),
    };
    let auth_info = match encode_auth_info(
        Some(signer.key),
        sequence,
        fee.denom.as_str(),
        fee.amount as u128,
        fee.gas_limit,
    ) {
        Ok(auth_info) => auth_info,
        Err(text) => return Err(ProcessError::Protocol(text)),
    };
    let signature = match sign_document(&signer.key, &body, &auth_info, chain_id, account_number) {
        Ok(signature) => signature,
        Err(text) => return Err(ProcessError::Protocol(text)),
    };
    let mut signatures: Vec<Vec<u8>> = Vec::new();
    let ghost sealed = signature@;
    signatures.push(signature);
    assert(bytes_view(signatures@) =~= seq![sealed]);
    Ok(encode_transaction(&body, &auth_info, &signatures))
}

/// Which key is derived, and which address it controls, depends on the phrase, the path and the
/// prefix alone, and never on the name. The address is that of the derived key, and a key that
/// gives none is refused with one of four texts, none of which tells anything of the phrase.
pub proof fn signers_depend_on_phrase_and_path(
    key: SigningKeyView,
    name: Seq<char>,
    prefix: Seq<char>,
)
    ensures
        signer_of(SigningKeyView { name, ..key }, prefix) == signer_of(key, prefix),
        address_of_key(SigningKeyView { name, ..key }, prefix) == address_of_key(key, prefix),
        match signer_of(key, prefix) {
            Ok(signer) => {
                &&& valid_prefix(prefix)
                &&& signer.address == key_address(signer.key, prefix)
                &&& address_of_key(key, prefix) == Ok::<_, ErrorView>(signer.address)
            },
            Err(error) => {
                ||| error == ErrorView::Signing("invalid BIP39 mnemonic"@)
                ||| error == ErrorView::Signing("invalid derivation path"@)
                ||| error == ErrorView::Signing("key derivation failed"@)
                ||| error == ErrorView::Signing("invalid account prefix"@)
            },
        },
{
}

/// With an adjustment of at least one the gas limit is never below what the simulation used, as
/// far as that converts to the format without being rounded: below the 53rd power of two it always
/// does.
pub proof fn gas_limit_covers_the_simulation(gas_used: u64, cfg: ChainConfigView)
    requires
        fee_for(gas_used, cfg) is Ok,
        cfg.gas_adjustment.finite(),
        !cfg.gas_adjustment.signed(),
        cfg.gas_adjustment.scaled() >= pow2(1075),
    ensures
        fee_for(gas_used, cfg)->Ok_0.gas_limit >= nearest(gas_used as nat),
        gas_used < 0x20_0000_0000_0000 ==> fee_for(gas_used, cfg)->Ok_0.gas_limit >= gas_used,
{
    product_covers_the_count(gas_used as nat, cfg.gas_adjustment);
}

/// What is shown of a key tells nothing of its phrase: keys that differ in nothing else are shown
/// alike.
pub proof fn description_hides_the_phrase(key: SigningKeyView, phrase: Seq<char>)
    ensures
        description(SigningKeyView { phrase, ..key }) == description(key),
{
}

/// A key says all that it holds.
pub proof fn a_key_says_what_it_holds(key: SigningKey, phrase: String)
    ensures
        key@.name == key.name@,
        key@.derivation_path == key.derivation_path@,
        key.key == Key::Mnemonic(phrase) ==> key@.phrase == phrase@,
{
}

/// Where the phrase, the path and the prefix can all be read, the signer is the key that they
/// derive, with its address. Where one cannot, the first of them that cannot is the reason.
pub proof fn a_signer_is_what_its_phrase_derives(
    key: SigningKeyView,
    prefix: Seq<char>,
    entropy: Seq<u8>,
    path: Seq<u32>,
    private: Seq<u8>,
)
    ensures
        phrase_entropy(key.phrase) is None ==> signer_of(key, prefix) == Err::<SignerView, _>(
            ErrorView::Signing("invalid BIP39 mnemonic"@),
        ),
        phrase_entropy(key.phrase) == Some(entropy) && path_numbers(key.derivation_path) is None
            ==> signer_of(key, prefix) == Err::<SignerView, _>(
            ErrorView::Signing("invalid derivation path"@),
        ),
        phrase_entropy(key.phrase) == Some(entropy) && path_numbers(key.derivation_path) == Some(
            path,
        ) && derived_key(entropy_seed(entropy, ""@), path) is None ==> signer_of(key, prefix)
            == Err::<SignerView, _>(ErrorView::Signing("key derivation failed"@)),
        phrase_entropy(key.phrase) == Some(entropy) && path_numbers(key.derivation_path) == Some(
            path,
        ) && derived_key(entropy_seed(entropy, ""@), path) == Some(private) ==> {
            &&& !valid_prefix(prefix) ==> signer_of(key, prefix) == Err::<SignerView, _>(
                ErrorView::Signing("invalid account prefix"@),
            )
            &&& valid_prefix(prefix) ==> signer_of(key, prefix) == Ok::<_, ErrorView>(
                SignerView { key: private, address: key_address(private, prefix) },
            ) && address_of_key(key, prefix) == Ok::<_, ErrorView>(key_address(private, prefix))
        },
        signer_of(key, prefix) matches Err(error) ==> address_of_key(key, prefix) == Err::<
            Seq<char>,
            _,
        >(error),
{
}

/// A key is shown with its name, its path, and a fixed text in place of its phrase.
pub proof fn a_key_is_shown_redacted(key: SigningKeyView)
    ensures
        description(key) == "SigningKey { name: "@ + quoted(key.name) + ", key: "@
            + "Mnemonic([REDACTED])"@ + ", derivation_path: "@ + quoted(key.derivation_path)
            + " }"@,
{
}

/// What is simulated is the messages as they are, under the sequence number of the account, with no
/// key, no fee, no gas limit and one empty signature.
pub proof fn a_simulation_costs_nothing(
    msgs: Seq<(Seq<char>, Seq<u8>)>,
    sequence: u64,
    denom: Seq<char>,
)
    ensures
        valid_denom(denom) ==> simulated_transaction(msgs, sequence, denom) == Ok::<_, ErrorView>(
            transaction_encoding(
                body_encoding(msgs, "cosm-client memo"@, 0),
                auth_info_encoding(None, sequence, denom, 0, 0),
                seq![Seq::<u8>::empty()],
            ),
        ),
        !valid_denom(denom) ==> simulated_transaction(msgs, sequence, denom) == Err::<
            Seq<u8>,
            _,
        >(ErrorView::Protocol(denom_error(denom))),
{
}

/// The gas limit of a fee is the adjusted gas, and its amount is the price of the whole gas limit.
/// There is a fee wherever both have 64 bits and the denomination is one.
pub proof fn a_fee_pays_for_its_gas_limit(
    gas_used: u64,
    cfg: ChainConfigView,
    gas_limit: nat,
    amount: nat,
)
    ensures
        product_rounded_up(gas_used as nat, cfg.gas_adjustment) == Some(gas_limit)
            && product_rounded_up(gas_limit, cfg.gas_price) == Some(amount) ==> {
            &&& valid_denom(cfg.denom) ==> fee_for(gas_used, cfg) == Ok::<_, ErrorView>(
                FeeView { denom: cfg.denom, amount, gas_limit },
            )
            &&& !valid_denom(cfg.denom) ==> fee_for(gas_used, cfg) == Err::<FeeView, _>(
                ErrorView::Protocol(denom_error(cfg.denom)),
            )
        },
        product_rounded_up(gas_used as nat, cfg.gas_adjustment) is None ==> fee_for(gas_used, cfg)
            == Err::<FeeView, _>(
            ErrorView::Protocol("simulated fee is outside the supported u64 range"@),
        ),
        product_rounded_up(gas_used as nat, cfg.gas_adjustment) == Some(gas_limit)
            && product_rounded_up(gas_limit, cfg.gas_price) is None ==> fee_for(gas_used, cfg)
            == Err::<FeeView, _>(
            ErrorView::Protocol("simulated fee is outside the supported u64 range"@),
        ),
{
}

/// A signed transaction carries the messages as they are, the sequence number, the key, and all of
/// its fee: the denomination, the amount and the gas limit. It carries one signature, which is that
/// of the key over just these, the chain and the account number. Where there is no such signature
/// there is no transaction.
pub proof fn a_signed_transaction_carries_its_fee(
    key: Seq<u8>,
    msgs: Seq<(Seq<char>, Seq<u8>)>,
    account_number: u64,
    sequence: u64,
    fee: FeeView,
    chain_id: Seq<char>,
    amount: u64,
    gas_limit: u64,
)
    requires
        fee.amount == amount,
        fee.gas_limit == gas_limit,
    ensures
        ({
            let body = body_encoding(msgs, "Made with cosm-tome client"@, 0);
            let auth = auth_info_encoding(
                Some(key),
                sequence,
                fee.denom,
                amount as u128,
                gas_limit,
            );
            let result = signed_transaction(key, msgs, account_number, sequence, fee, chain_id);
            match document_signature(key, body, auth, chain_id, account_number) {
                Ok(signature) => result == Ok::<_, ErrorView>(
                    transaction_encoding(body, auth, seq![signature]),
                ),
                Err(text) => result == Err::<Seq<u8>, _>(ErrorView::Protocol(text)),
            }
        }),
{
}

proof fn lemma_least(count: nat, factor: Quantity, least: nat)
    requires
        factor.finite(),
        !factor.signed(),
        nearest(nearest(count) * factor.scaled()) <= least * pow2(1075),
        least > 0 ==> (least - 1) * pow2(1075) < nearest(nearest(count) * factor.scaled()),
        least < 0x1_0000_0000_0000_0000,
    ensures
        product_rounded_up(count, factor) == Some(least),
{
    let product = nearest(nearest(count) * factor.scaled());
    let one = pow2(1075);
    assert(least * one <= 0xFFFF_FFFF_FFFF_FFFF * one) by (nonlinear_arith)
        requires
            least <= 0xFFFF_FFFF_FFFF_FFFF,
    ;
    products_are_covered_by_the_least_number(count, factor, 0);
    let whole = product_rounded_up(count, factor)->0;
    products_are_covered_by_the_least_number(count, factor, whole);
    if whole < least {
        assert(whole * one <= (least - 1) * one) by (nonlinear_arith)
            requires
                whole <= least - 1,
        ;
    }
    if least < whole {
        assert(least * one <= (whole - 1) * one) by (nonlinear_arith)
            requires
                least <= whole - 1,
        ;
    }
}

/// From the simulated gas to the bytes that are submitted: the gas limit in them is the least whole
/// number that is not below the simulated gas times the adjustment, and the amount is the least one
/// that is not below that gas limit times the price. Both products are those of the number format.
pub proof fn the_gas_limit_is_that_of_the_simulation(
    gas_used: u64,
    cfg: ChainConfigView,
    key: Seq<u8>,
    msgs: Seq<(Seq<char>, Seq<u8>)>,
    account_number: u64,
    sequence: u64,
    gas_limit: u64,
    amount: u64,
    signature: Seq<u8>,
)
    requires
        valid_denom(cfg.denom),
        cfg.gas_adjustment.finite() && !cfg.gas_adjustment.signed(),
        cfg.gas_price.finite() && !cfg.gas_price.signed(),
        ({
            let adjusted = nearest(nearest(gas_used as nat) * cfg.gas_adjustment.scaled());
            let price = nearest(nearest(gas_limit as nat) * cfg.gas_price.scaled());
            let one = pow2(1075);
            &&& adjusted <= gas_limit * one
            &&& gas_limit > 0 ==> (gas_limit - 1) * one < adjusted
            &&& price <= amount * one
            &&& amount > 0 ==> (amount - 1) * one < price
        }),
        document_signature(
            key,
            body_encoding(msgs, "Made with cosm-tome client"@, 0),
            auth_info_encoding(Some(key), sequence, cfg.denom, amount as u128, gas_limit),
            cfg.chain_id,
            account_number,
        ) == Ok::<_, Seq<char>>(signature),
    ensures
        fee_for(gas_used, cfg) matches Ok(fee) && signed_transaction(
            key,
            msgs,
            account_number,
            sequence,
            fee,
            cfg.chain_id,
        ) == Ok::<_, ErrorView>(
            transaction_encoding(
                body_encoding(msgs, "Made with cosm-tome client"@, 0),
                auth_info_encoding(Some(key), sequence, cfg.denom, amount as u128, gas_limit),
                seq![signature],
            ),
        ),
{
    lemma_least(gas_used as nat, cfg.gas_adjustment, gas_limit as nat);
    lemma_least(gas_limit as nat, cfg.gas_price, amount as nat);
}

} // verus!
