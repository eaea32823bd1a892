//! What is asked of a node, and how its answers are taken.
use crate::config::{config_fault, reports_fault, ChainConfig, ChainConfigView};
use crate::error::{outcome, protocol, ErrorView, ProcessError};
use crate::identifiers::{is_endpoint, parse_endpoint};
use crate::message::{AccountView, BaseAccount};
use crate::status::{NodeStatus, NodeStatusView};
use crate::text::{begins_with, same_text};
use crate::wire::{
    account_query_encoding, decode_account, decode_base_account, decoded_account,
    decoded_base_account, encode_account_query,
};
use vstd::prelude::*;

verus! {

/// How many seconds an operation may take from its first request to its last answer.
pub const OPERATION_TIMEOUT: u64 = 30;

/// How many milliseconds pass between two looks at a node that is waited for.
pub const POLL_INTERVAL: u64 = 500;

/// The path at which an account is asked for.
pub const ACCOUNT_PATH: &'static str = "/cosmos.auth.v1beta1.Query/Account";

/// The only type of account that this client signs for.
pub const BASE_ACCOUNT: &'static str = "/cosmos.auth.v1beta1.BaseAccount";

/// What came of a request.
#[derive(Debug)]
pub enum Answer<T, E> {
    /// The node replied.
    Reply(T),
    /// The transport failed, or what came back could not be read.
    Failed(E),
    /// The deadline passed first.
    Deadline,
}

impl<T: View, E: View> View for Answer<T, E> {
    type V = Answer<T::V, E::V>;

    open spec fn view(&self) -> Answer<T::V, E::V> {
        match self {
            Answer::Reply(reply) => Answer::Reply(reply@),
            Answer::Failed(error) => Answer::Failed(error@),
            Answer::Deadline => Answer::Deadline,
        }
    }
}

/// How a node replied to a query of the application's state.
#[derive(Clone, Debug, PartialEq, Eq)]
pub struct QueryReply {
    pub code: u32,
    pub codespace: String,
    pub log: String,
    pub value: Vec<u8>,
}

/// What a [`QueryReply`] says.
pub struct QueryReplyView {
    pub code: u32,
    pub codespace: Seq<char>,
    pub log: Seq<char>,
    pub value: Seq<u8>,
}

impl View for QueryReply {
    type V = QueryReplyView;

    open spec fn view(&self) -> QueryReplyView {
        QueryReplyView {
            code: self.code,
            codespace: self.codespace@,
            log: self.log@,
            value: self.value@,
        }
    }
}

/// Whether the version is one that this client speaks.
pub open spec fn supported_version(version: Seq<char>) -> bool {
    "0.37."@.is_prefix_of(version) || "0.38."@.is_prefix_of(version)
}

/// What is taken from an answer to a status request.
pub open spec fn checked_status(
    cfg: ChainConfigView,
    answer: Answer<NodeStatusView, Seq<char>>,
) -> Result<NodeStatusView, ErrorView> {
    match answer {
        Answer::Deadline => Err(ErrorView::Timeout { hash: None }),
        Answer::Failed(text) => Err(ErrorView::Rpc(text)),
        Answer::Reply(status) => if status.node_info.network != cfg.chain_id {
            Err(ErrorView::Protocol("node chain ID does not match configured chain_id"@))
        } else if !supported_version(status.node_info.version) {
            Err(ErrorView::Protocol("this fixture client requires CometBFT 0.37 or 0.38"@))
        } else {
            Ok(status)
        },
    }
}

/// What is taken from an answer to a query.
pub open spec fn queried(answer: Answer<QueryReplyView, Seq<char>>) -> Result<
    Seq<u8>,
    ErrorView,
> {
    match answer {
        Answer::Deadline => Err(ErrorView::Timeout { hash: None }),
        Answer::Failed(text) => Err(ErrorView::Rpc(text)),
        Answer::Reply(reply) => if reply.code != 0 {
            Err(
                ErrorView::Query {
                    code: reply.code,
                    codespace: reply.codespace,
                    log: reply.log,
                },
            )
        } else {
            Ok(reply.value)
        },
    }
}

/// What is taken from an answer to the query for the account at `address`.
pub open spec fn queried_account(
    answer: Answer<QueryReplyView, Seq<char>>,
    address: Seq<char>,
) -> Result<AccountView, ErrorView> {
    match queried(answer) {
        Err(error) => Err(error),
        Ok(bytes) => match decoded_account(bytes) {
            Err(text) => Err(ErrorView::Protocol(text)),
            Ok(None) => Err(ErrorView::Protocol("missing account"@)),
            Ok(Some((type_url, value))) => if type_url != BASE_ACCOUNT@ {
                Err(
                    ErrorView::Protocol(
                        "unsupported signing account type (expected BaseAccount)"@,
                    ),
                )
            } else {
                match decoded_base_account(value) {
                    Err(text) => Err(ErrorView::Protocol(text)),
                    Ok(account) => if account.address != address {
                        Err(
                            ErrorView::Protocol(
                                "account query returned a different signer address"@,
                            ),
                        )
                    } else {
                        Ok(account)
                    },
                }
            },
        },
    }
}

/// A chain that is reached through a node.
#[derive(Debug)]
pub struct Rpc {
    cfg: ChainConfig,
}

impl View for Rpc {
    type V = ChainConfigView;

    closed spec fn view(&self) -> ChainConfigView {
        self.cfg@
    }
}

impl Rpc {
    #[verifier::type_invariant]
    spec fn well_formed(self) -> bool {
        config_fault(self.cfg@) is None
    }

    /// Takes a chain whose configuration can be used, and whose endpoint is one. How the refusal of
    /// an endpoint reads is left open.
    pub fn new(cfg: ChainConfig) -> (result: Result<Rpc, ProcessError>)
        ensures
            match config_fault(cfg@) {
                Some(fault) => result is Err && reports_fault(result->Err_0@, cfg@, fault),
                None => {
                    let endpoint = cfg@.rpc_endpoint->0;
                    match result {
                        Ok(rpc) => is_endpoint(endpoint) && rpc@ == cfg@,
                        Err(error) => !is_endpoint(endpoint) && error@ is Rpc,
                    }
                },
            },
    {
        let parsed = match cfg.validate() {
            Ok(endpoint) => parse_endpoint(endpoint),
            Err(error) => return Err(error),
        };
        match parsed {
            Ok(()) => Ok(Rpc { cfg }),
            Err(text) => Err(ProcessError::Rpc(text)),
        }
    }

    /// The configuration of the chain, in which no fault was found.
    pub fn config(&self) -> (cfg: &ChainConfig)
        ensures
            cfg@ == self@,
            config_fault(cfg@) is None,
    {
        proof {
            use_type_invariant(self);
        }
        &self.cfg
    }

    /// Takes an answer to a status request: the node has to follow the configured chain, and to run
    /// a version that this client speaks.
    pub fn status(&self, answer: Answer<NodeStatus, String>) -> (result: Result<
        NodeStatus,
        ProcessError,
    >)
        ensures
            outcome(result) == checked_status(self@, answer@),
    {
        match answer {
            Answer::Deadline => Err(ProcessError::Timeout { hash: None }),
            Answer::Failed(text) => Err(ProcessError::Rpc(text)),
            Answer::Reply(status) => {
                if !same_text(&status.node_info.network, &self.cfg.chain_id) {
                    return Err(protocol("node chain ID does not match configured chain_id"));
                }
                if !begins_with(&status.node_info.version, "0.37.") && !begins_with(
                    &status.node_info.version,
                    "0.38.",
                ) {
                    return Err(protocol("this fixture client requires CometBFT 0.37 or 0.38"));
                }
                Ok(status)
            },
        }
    }

    /// Takes an answer to a query: the value that the application returned, still encoded.
    pub fn query(answer: Answer<QueryReply, String>) -> (result: Result<Vec<u8>, ProcessError>)
        ensures
            outcome(result) == queried(answer@),
    {
        match answer {
            Answer::Deadline => Err(ProcessError::Timeout { hash: None }),
            Answer::Failed(text) => Err(ProcessError::Rpc(text)),
            Answer::Reply(reply) => {
                if reply.code != 0 {
                    Err(
                        ProcessError::Query {
                            code: reply.code,
                            codespace: reply.codespace,
                            log: reply.log,
                        },
                    )
                } else {
                    Ok(reply.value)
                }
            },
        }
    }

    /// The query for the account at `address`, to be sent to [`ACCOUNT_PATH`].
    pub fn account_request(address: &str) -> (data: Vec<u8>)
        ensures
            data@ == account_query_encoding(address@),
    {
        encode_account_query(address)
    }

    /// Takes an answer to the query for the account at `address`.
    pub fn account(answer: Answer<QueryReply, String>, address: &str) -> (result: Result<
        BaseAccount,
        ProcessError,
    >)
        ensures
            outcome(result) == queried_account(answer@, address@),
    {
        let bytes = match Self::query(answer) {
            Ok(bytes) => bytes,
            Err(error) => return Err(error),
        };
        let any = match decode_account(&bytes) {
            Ok(Some(any)) => any,
            Ok(None) => return Err(protocol("missing account")),
            Err(text) => return Err(ProcessError::Protocol(text)),
        };
        if !same_text(&any.type_url, BASE_ACCOUNT) {
            return Err(protocol("unsupported signing account type (expected BaseAccount)"));
        }
        let account = match decode_base_account(&any.value) {
            Ok(account) => account,
            Err(text) => return Err(ProcessError::Protocol(text)),
        };
        if !same_text(&account.address, address) {
            return Err(protocol("account query returned a different signer address"));
        }
        Ok(account)
    }
}

/// Answers and replies say all that they hold.
pub proof fn replies_say_what_they_hold<T: View, E: View>(value: T, error: E, reply: QueryReply)
    ensures
        Answer::<T, E>::Reply(value)@ == Answer::<T::V, E::V>::Reply(value@),
        Answer::<T, E>::Failed(error)@ == Answer::<T::V, E::V>::Failed(error@),
        Answer::<T, E>::Deadline@ == Answer::<T::V, E::V>::Deadline,
        reply@.code == reply.code,
        reply@.codespace == reply.codespace@,
        reply@.log == reply.log@,
        reply@.value == reply.value@,
{
}

/// A status is taken, whole, from every node that names the configured chain and whose version
/// begins with one of the two supported lines, and from no other. What failed before the node
/// replied is no statement about the chain.
pub proof fn statuses_are_taken_from_the_right_nodes(
    cfg: ChainConfigView,
    status: NodeStatusView,
    rest: Seq<char>,
    text: Seq<char>,
)
    ensures
        status.node_info.network == cfg.chain_id && (status.node_info.version == "0.37."@ + rest
            || status.node_info.version == "0.38."@ + rest) ==> checked_status(
            cfg,
            Answer::Reply(status),
        ) == Ok::<_, ErrorView>(status),
        checked_status(cfg, Answer::Reply(status)) matches Ok(taken) ==> {
            &&& taken == status
            &&& status.node_info.network == cfg.chain_id
            &&& exists|tail: Seq<char>|
                status.node_info.version == #[trigger] ("0.37."@ + tail) || status.node_info.version
                    == "0.38."@ + tail
        },
        checked_status(cfg, Answer::Reply(status)) matches Err(error) ==> error
            == if status.node_info.network != cfg.chain_id {
            ErrorView::Protocol("node chain ID does not match configured chain_id"@)
        } else {
            ErrorView::Protocol("this fixture client requires CometBFT 0.37 or 0.38"@)
        },
        checked_status(cfg, Answer::Failed(text)) == Err::<NodeStatusView, _>(
            ErrorView::Rpc(text),
        ),
        checked_status(cfg, Answer::Deadline) == Err::<NodeStatusView, _>(
            ErrorView::Timeout { hash: None },
        ),
{
    let version = status.node_info.version;
    assert("0.37."@.is_prefix_of("0.37."@ + rest)) by {
        assert(("0.37."@ + rest).subrange(0, "0.37."@.len() as int) =~= "0.37."@);
    }
    assert("0.38."@.is_prefix_of("0.38."@ + rest)) by {
        assert(("0.38."@ + rest).subrange(0, "0.38."@.len() as int) =~= "0.38."@);
    }
    if "0.37."@.is_prefix_of(version) {
        assert(version =~= "0.37."@ + version.skip("0.37."@.len() as int));
    }
    if "0.38."@.is_prefix_of(version) {
        let tail = version.skip("0.38."@.len() as int);
        assert(version =~= "0.38."@ + tail);
        assert(("0.37."@ + tail).len() >= 0);
    }
}

/// A query gives its value, whole, wherever the application accepted it, and the application's own
/// words wherever it did not.
pub proof fn queries_give_their_value_or_the_refusal(reply: QueryReplyView, text: Seq<char>)
    ensures
        reply.code == 0 ==> queried(Answer::Reply(reply)) == Ok::<Seq<u8>, ErrorView>(reply.value),
        reply.code != 0 ==> queried(Answer::Reply(reply)) == Err::<Seq<u8>, _>(
            ErrorView::Query { code: reply.code, codespace: reply.codespace, log: reply.log },
        ),
        queried(Answer::Failed(text)) == Err::<Seq<u8>, _>(ErrorView::Rpc(text)),
        queried(Answer::Deadline) == Err::<Seq<u8>, _>(ErrorView::Timeout { hash: None }),
{
}

/// An account is taken, whole, wherever the value holds a base account under the address that was
/// asked for, and nowhere else.
pub proof fn accounts_are_those_asked_for(
    reply: QueryReplyView,
    address: Seq<char>,
    value: Seq<u8>,
    account: AccountView,
)
    ensures
        reply.code == 0 && decoded_account(reply.value) == Ok::<_, Seq<char>>(
            Some(("/cosmos.auth.v1beta1.BaseAccount"@, value)),
        ) && decoded_base_account(value) == Ok::<_, Seq<char>>(account) && account.address
            == address ==> queried_account(Answer::Reply(reply), address) == Ok::<_, ErrorView>(
            account,
        ),
        queried_account(Answer::Reply(reply), address) matches Ok(taken) ==> {
            &&& reply.code == 0
            &&& taken.address == address
            &&& decoded_account(reply.value) matches Ok(Some(found))
            &&& found.0 == "/cosmos.auth.v1beta1.BaseAccount"@
            &&& decoded_base_account(found.1) == Ok::<_, Seq<char>>(taken)
        },
        queried_account(Answer::Reply(reply), address) matches Err(error) ==> if reply.code != 0 {
            error == (ErrorView::Query {
                code: reply.code,
                codespace: reply.codespace,
                log: reply.log,
            })
        } else {
            error == ErrorView::Protocol(
                match decoded_account(reply.value) {
                    Err(text) => text,
                    Ok(None) => "missing account"@,
                    Ok(Some(found)) => if found.0 != "/cosmos.auth.v1beta1.BaseAccount"@ {
                        "unsupported signing account type (expected BaseAccount)"@
                    } else if decoded_base_account(found.1) is Err {
                        decoded_base_account(found.1)->Err_0
                    } else {
                        "account query returned a different signer address"@
                    },
                },
            )
        },
        queried_account(Answer::Deadline, address) == Err::<AccountView, _>(
            ErrorView::Timeout { hash: None },
        ),
        forall|text: Seq<char>| #[trigger]
            queried_account(Answer::Failed(text), address) == Err::<AccountView, _>(
                ErrorView::Rpc(text),
            ),
{
}

} // verus!
