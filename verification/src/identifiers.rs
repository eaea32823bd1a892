//! Which texts name a chain, a denomination, an account and an endpoint.
use crate::error::text_outcome;
use vstd::prelude::*;

verus! {

/// Whether the character is an ASCII letter or digit.
pub open spec fn is_alphanumeric(c: char) -> bool {
    ('a' <= c && c <= 'z') || ('A' <= c && c <= 'Z') || ('0' <= c && c <= '9')
}

/// Whether the text can name a denomination: 3 to 128 letters, digits and separators.
pub open spec fn valid_denom(text: Seq<char>) -> bool {
    &&& 3 <= text.len() <= 128
    &&& forall|i: int|
        0 <= i < text.len() ==> {
            let c = #[trigger] text[i];
            is_alphanumeric(c) || c == '/' || c == ':' || c == '.' || c == '_' || c == '-'
        }
}

/// Whether the text can name a chain: 1 to 50 letters, digits and separators.
pub open spec fn valid_chain_id(text: Seq<char>) -> bool {
    &&& 1 <= text.len() <= 50
    &&& forall|i: int|
        0 <= i < text.len() ==> {
            let c = #[trigger] text[i];
            is_alphanumeric(c) || c == '-' || c == '_' || c == '.'
        }
}

/// Whether the text can be the human readable prefix of an address: lower case letters and digits.
pub open spec fn valid_prefix(text: Seq<char>) -> bool {
    forall|i: int|
        0 <= i < text.len() ==> ('a' <= #[trigger] text[i] && text[i] <= 'z') || ('0' <= text[i]
            && text[i] <= '9')
}

/// How the refusal of a denomination reads.
pub uninterp spec fn denom_error(text: Seq<char>) -> Seq<char>;

/// Parses a `cosmrs::Denom`. Claims that the parse succeeds on the texts that [`valid_denom`]
/// describes and on no others, and that the text of the error is determined by what was refused.
#[verifier::external_body]
pub(crate) fn parse_denom(text: &str) -> (result: Result<(), String>)
    ensures
        result is Ok <==> valid_denom(text@),
        result matches Err(error) ==> error@ == denom_error(text@),
{
    match text.parse::<cosmrs::Denom>() {
        Ok(_) => Ok(()),
        Err(error) => Err(error.to_string()),
    }
}

/// The name of a denomination.
#[derive(Debug, PartialEq, Eq)]
pub struct Denom {
    text: String,
}

impl View for Denom {
    type V = Seq<char>;

    closed spec fn view(&self) -> Seq<char> {
        self.text@
    }
}

impl Denom {
    #[verifier::type_invariant]
    spec fn well_formed(self) -> bool {
        valid_denom(self.text@)
    }

    /// Reads the name of a denomination.
    pub fn parse(text: &str) -> (result: Result<Denom, String>)
        ensures
            match result {
                Ok(denom) => valid_denom(text@) && denom@ == text@,
                Err(error) => !valid_denom(text@) && error@ == denom_error(text@),
            },
    {
        match parse_denom(text) {
            Ok(()) => Ok(Denom { text: text.to_owned() }),
            Err(error) => Err(error),
        }
    }

    /// The name as a text.
    pub fn as_str(&self) -> (text: &str)
        ensures
            text@ == self@,
            valid_denom(text@),
    {
        proof {
            use_type_invariant(self);
        }
        &self.text
    }
}

impl Clone for Denom {
    fn clone(&self) -> (copy: Self)
        ensures
            copy@ == self@,
    {
        proof {
            use_type_invariant(self);
        }
        Denom { text: self.text.clone() }
    }
}

/// Parses a `tendermint::chain::Id`. Claims that the parse succeeds on the texts that
/// [`valid_chain_id`] describes and on no others. Of the text of the error nothing is claimed: it
/// carries a trace of the running program.
#[verifier::external_body]
pub(crate) fn parse_chain_id(text: &str) -> (result: Result<(), String>)
    ensures
        result is Ok <==> valid_chain_id(text@),
{
    match text.parse::<cosmrs::tendermint::chain::Id>() {
        Ok(_) => Ok(()),
        Err(error) => Err(error.to_string()),
    }
}

/// The address of an account that the text writes, in lower case, or why it writes none.
pub uninterp spec fn address_parsing(text: Seq<char>) -> Result<Seq<char>, Seq<char>>;

/// Parses a `cosmrs::AccountId`, which is bech32 text with a checksum, and displays it. Claims that
/// whether the parse succeeds, how the address reads, and how the error reads where there is none,
/// is determined by the text.
#[verifier::external_body]
pub(crate) fn parse_address(text: &str) -> (result: Result<String, String>)
    ensures
        text_outcome(result) == address_parsing(text@),
{
    match text.parse::<cosmrs::AccountId>() {
        Ok(address) => Ok(address.to_string()),
        Err(error) => Err(error.to_string()),
    }
}

/// The address of an account.
#[derive(Clone, Debug, PartialEq, Eq)]
pub struct Address {
    text: String,
}

impl View for Address {
    type V = Seq<char>;

    closed spec fn view(&self) -> Seq<char> {
        self.text@
    }
}

impl Address {
    /// Reads an address.
    pub fn parse(text: &str) -> (result: Result<Address, String>)
        ensures
            text_outcome(result) == address_parsing(text@),
    {
        match parse_address(text) {
            Ok(text) => Ok(Address { text }),
            Err(error) => Err(error),
        }
    }

    /// The address that the text is known to write.
    pub(crate) fn known(text: String) -> (address: Address)
        ensures
            address@ == text@,
    {
        Address { text }
    }

    /// The address as a text.
    pub fn as_str(&self) -> (text: &str)
        ensures
            text@ == self@,
    {
        &self.text
    }
}

/// Whether the text is the URL of an HTTP endpoint.
pub uninterp spec fn is_endpoint(text: Seq<char>) -> bool;

/// Parses a `tendermint_rpc::HttpClientUrl`. Claims that whether the parse succeeds is determined
/// by the text. Of the text of the error nothing is claimed: it carries a trace of the running
/// program.
#[verifier::external_body]
pub(crate) fn parse_endpoint(text: &str) -> (result: Result<(), String>)
    ensures
        result is Ok <==> is_endpoint(text@),
{
    match text.parse::<tendermint_rpc::HttpClientUrl>() {
        Ok(_) => Ok(()),
        Err(error) => Err(error.to_string()),
    }
}

/// Which names are accepted is decided by their length and by their characters alone. A
/// denomination has 3 to 128 characters and a chain 1 to 50, a prefix any number; a prefix is made
/// of lower case letters and digits, a chain may have upper case letters, hyphens, underscores and
/// dots besides, and a denomination slashes and colons besides these.
pub proof fn names_are_judged_by_length_and_characters(text: Seq<char>)
    ensures
        ({
            let lower = |c: char| ('a' <= c && c <= 'z') || ('0' <= c && c <= '9');
            let chain = |c: char| lower(c) || ('A' <= c && c <= 'Z') || "-_."@.contains(c);
            let denom = |c: char| chain(c) || "/:"@.contains(c);
            &&& valid_prefix(text) <==> text.all(lower)
            &&& valid_chain_id(text) <==> text.all(chain) && 1 <= text.len() <= 50
            &&& valid_denom(text) <==> text.all(denom) && 3 <= text.len() <= 128
        }),
{
    reveal_strlit("-_.");
    reveal_strlit("/:");
    let separators = "-_."@;
    let further = "/:"@;
    assert forall|c: char| #[trigger]
        separators.contains(c) == (c == '-' || c == '_' || c == '.') by {
        assert(separators[0] == '-' && separators[1] == '_' && separators[2] == '.');
    }
    assert forall|c: char| #[trigger] further.contains(c) == (c == '/' || c == ':') by {
        assert(further[0] == '/' && further[1] == ':');
    }
    let lower = |c: char| ('a' <= c && c <= 'z') || ('0' <= c && c <= '9');
    let chain = |c: char| lower(c) || ('A' <= c && c <= 'Z') || "-_."@.contains(c);
    let denom = |c: char| chain(c) || "/:"@.contains(c);
    if text.all(lower) {
        assert forall|i: int| 0 <= i < text.len() implies ('a' <= #[trigger] text[i] && text[i]
            <= 'z') || ('0' <= text[i] && text[i] <= '9') by {
            assert(lower(text[i]));
        }
    }
    if text.all(chain) {
        assert forall|i: int| 0 <= i < text.len() implies {
            let c = #[trigger] text[i];
            is_alphanumeric(c) || c == '-' || c == '_' || c == '.'
        } by {
            assert(chain(text[i]));
        }
    }
    if text.all(denom) {
        assert forall|i: int| 0 <= i < text.len() implies {
            let c = #[trigger] text[i];
            is_alphanumeric(c) || c == '/' || c == ':' || c == '.' || c == '_' || c == '-'
        } by {
            assert(denom(text[i]));
        }
    }
}

} // verus!
