//! One transaction, from the first look at the node to the report on what became of it.
//!
//! A [`Transaction`] decides and never performs. It hands out one request at a time, takes what
//! came of it, and hands out the next. Whoever drives it performs the requests, in order and once
//! each.
use crate::commit::{commit_outcome, committed, CommitResponse, CommitView};
use crate::config::ChainConfigView;
use crate::digest::{hash_text, sha256, transaction_hash, upper_hex};
use crate::error::{outcome, protocol, ErrorView, ProcessError, TxError, TxErrorView};
use crate::identifiers::{denom_error, valid_denom};
use crate::keys::{auth_info_encoding, body_encoding, document_signature};
use crate::message::{messages_view, AccountView, Any, BaseAccount};
use crate::receipt::{Receipt, ReceiptView};
use crate::rpc::{
    checked_status, queried, queried_account, Answer, QueryReply, QueryReplyView, Rpc, ACCOUNT_PATH,
};
use crate::signing::{
    fee, fee_for, sign, signed_transaction, signer_of, simulated_transaction, simulation_bytes,
    FeeView, Signer, SignerView, SigningKey, SigningKeyView,
};
use crate::status::{NodeStatus, NodeStatusView};
use crate::wire::{
    account_query_encoding, decode_simulated_gas, decoded_simulated_gas, encode_simulation,
    simulation_encoding, transaction_encoding,
};
use vstd::prelude::*;

verus! {

/// The path at which a transaction is simulated.
pub const SIMULATE_PATH: &'static str = "/cosmos.tx.v1beta1.Service/Simulate";

/// What a transaction asks of whoever drives it.
#[derive(Debug)]
pub enum Request {
    /// Ask the node for its status.
    Status,
    /// Write the message that `sender` is to submit.
    Message { sender: String },
    /// Query the state of the application.
    Query { path: String, data: Vec<u8> },
    /// Submit the transaction, and wait until it is committed.
    Broadcast { bytes: Vec<u8> },
    /// Ask for nothing more: this is what came of the transaction.
    Done(Result<Receipt, ProcessError>),
}

/// What a [`Request`] says.
pub enum RequestView {
    Status,
    Message { sender: Seq<char> },
    Query { path: Seq<char>, data: Seq<u8> },
    Broadcast { bytes: Seq<u8> },
    Done(Result<ReceiptView, ErrorView>),
}

impl View for Request {
    type V = RequestView;

    open spec fn view(&self) -> RequestView {
        match self {
            Request::Status => RequestView::Status,
            Request::Message { sender } => RequestView::Message { sender: sender@ },
            Request::Query { path, data } => RequestView::Query { path: path@, data: data@ },
            Request::Broadcast { bytes } => RequestView::Broadcast { bytes: bytes@ },
            Request::Done(result) => RequestView::Done(outcome(*result)),
        }
    }
}

/// What came of a request.
#[derive(Debug)]
pub enum Reply {
    /// The answer to a status request.
    Status(Answer<NodeStatus, String>),
    /// The message, or why there is none.
    Message(Result<Any, ProcessError>),
    /// The answer to a query.
    Query(Answer<QueryReply, String>),
    /// The answer to a submission.
    Commit(Answer<CommitResponse, String>),
}

/// What a [`Reply`] says.
pub enum ReplyView {
    Status(Answer<NodeStatusView, Seq<char>>),
    Message(Result<(Seq<char>, Seq<u8>), ErrorView>),
    Query(Answer<QueryReplyView, Seq<char>>),
    Commit(Answer<CommitView, Seq<char>>),
}

impl View for Reply {
    type V = ReplyView;

    open spec fn view(&self) -> ReplyView {
        match self {
            Reply::Status(answer) => ReplyView::Status(answer@),
            Reply::Message(result) => ReplyView::Message(outcome(*result)),
            Reply::Query(answer) => ReplyView::Query(answer@),
            Reply::Commit(answer) => ReplyView::Commit(answer@),
        }
    }
}

enum Stage {
    Status,
    Message { signer: Signer },
    Account { signer: Signer, msgs: Vec<Any> },
    Simulation { signer: Signer, msgs: Vec<Any>, account: BaseAccount },
    Commit { hash: [u8; 32] },
    Finished,
}

/// How far a transaction has come: which request is out, and what is needed to take its answer.
pub enum StageView {
    /// The status of the node has been asked for.
    Status,
    /// The message has been asked for.
    Message { signer: SignerView },
    /// The account of the signer has been asked for.
    Account { signer: SignerView, msgs: Seq<(Seq<char>, Seq<u8>)> },
    /// The simulation has been asked for.
    Simulation { signer: SignerView, msgs: Seq<(Seq<char>, Seq<u8>)>, account: AccountView },
    /// The transaction with this hash has been submitted.
    Commit { hash: Seq<u8> },
    /// Nothing more is asked for.
    Finished,
}

impl View for Stage {
    type V = StageView;

    closed spec fn view(&self) -> StageView {
        match self {
            Stage::Status => StageView::Status,
            Stage::Message { signer } => StageView::Message { signer: signer@ },
            Stage::Account { signer, msgs } => StageView::Account {
                signer: signer@,
                msgs: messages_view(msgs@),
            },
            Stage::Simulation { signer, msgs, account } => StageView::Simulation {
                signer: signer@,
                msgs: messages_view(msgs@),
                account: account@,
            },
            Stage::Commit { hash } => StageView::Commit { hash: hash@ },
            Stage::Finished => StageView::Finished,
        }
    }
}

/// A transaction that is under way.
pub struct Transaction {
    stage: Stage,
}

impl View for Transaction {
    type V = StageView;

    closed spec fn view(&self) -> StageView {
        self.stage@
    }
}

/// Whether the reply answers the request that is out.
pub open spec fn answers(stage: StageView, reply: ReplyView) -> bool {
    match stage {
        StageView::Status => reply is Status,
        StageView::Message { .. } => reply is Message,
        StageView::Account { .. } => reply is Query,
        StageView::Simulation { .. } => reply is Query,
        StageView::Commit { .. } => reply is Commit,
        StageView::Finished => false,
    }
}

/// The end of a transaction.
pub open spec fn finished(result: Result<ReceiptView, ErrorView>) -> (StageView, RequestView) {
    (StageView::Finished, RequestView::Done(result))
}

/// The gas that a simulation used, or why it is not known. A query that the application refused is
/// a rejection of the transaction.
pub open spec fn simulated_gas(answer: Answer<QueryReplyView, Seq<char>>) -> Result<
    u64,
    ErrorView,
> {
    match queried(answer) {
        Err(ErrorView::Query { code, codespace, log }) => Err(
            ErrorView::Rejected(TxErrorView::Simulation { code, codespace, log }),
        ),
        Err(error) => Err(error),
        Ok(bytes) => match decoded_simulated_gas(bytes) {
            Err(text) => Err(ErrorView::Protocol(text)),
            Ok(None) => Err(ErrorView::Protocol("simulation omitted gas_info"@)),
            Ok(Some(gas)) => Ok(gas),
        },
    }
}

/// After the status of the node: the key is derived, and the message is asked for.
pub open spec fn after_status(
    cfg: ChainConfigView,
    key: SigningKeyView,
    answer: Answer<NodeStatusView, Seq<char>>,
) -> (StageView, RequestView) {
    match checked_status(cfg, answer) {
        Err(error) => finished(Err(error)),
        Ok(_) => match signer_of(key, cfg.prefix) {
            Err(error) => finished(Err(error)),
            Ok(signer) => (
                StageView::Message { signer },
                RequestView::Message { sender: signer.address },
            ),
        },
    }
}

/// After the message: the account of the signer is asked for.
pub open spec fn after_message(
    signer: SignerView,
    result: Result<(Seq<char>, Seq<u8>), ErrorView>,
) -> (StageView, RequestView) {
    match result {
        Err(error) => finished(Err(error)),
        Ok(message) => (
            StageView::Account { signer, msgs: seq![message] },
            RequestView::Query {
                path: ACCOUNT_PATH@,
                data: account_query_encoding(signer.address),
            },
        ),
    }
}

/// After the account: the simulation is asked for.
pub open spec fn after_account(
    cfg: ChainConfigView,
    signer: SignerView,
    msgs: Seq<(Seq<char>, Seq<u8>)>,
    answer: Answer<QueryReplyView, Seq<char>>,
) -> (StageView, RequestView) {
    match queried_account(answer, signer.address) {
        Err(error) => finished(Err(error)),
        Ok(account) => match simulated_transaction(msgs, account.sequence, cfg.denom) {
            Err(error) => finished(Err(error)),
            Ok(bytes) => (
                StageView::Simulation { signer, msgs, account },
                RequestView::Query { path: SIMULATE_PATH@, data: simulation_encoding(bytes) },
            ),
        },
    }
}

/// After the simulation: the transaction is signed, and submitted.
pub open spec fn after_simulation(
    cfg: ChainConfigView,
    signer: SignerView,
    msgs: Seq<(Seq<char>, Seq<u8>)>,
    account: AccountView,
    answer: Answer<QueryReplyView, Seq<char>>,
) -> (StageView, RequestView) {
    match simulated_gas(answer) {
        Err(error) => finished(Err(error)),
        Ok(gas) => match fee_for(gas, cfg) {
            Err(error) => finished(Err(error)),
            Ok(fee) => match signed_transaction(
                signer.key,
                msgs,
                account.account_number,
                account.sequence,
                fee,
                cfg.chain_id,
            ) {
                Err(error) => finished(Err(error)),
                Ok(bytes) => (
                    StageView::Commit { hash: sha256(bytes) },
                    RequestView::Broadcast { bytes },
                ),
            },
        },
    }
}

/// What came of the submitted transaction with the hash `hash`. Where the report on it failed to
/// arrive, or did not arrive in time, its outcome is unknown and the hash is kept.
pub open spec fn submission_outcome(
    hash: Seq<u8>,
    answer: Answer<CommitView, Seq<char>>,
) -> Result<ReceiptView, ErrorView> {
    match answer {
        Answer::Deadline => Err(ErrorView::Timeout { hash: Some(upper_hex(hash)) }),
        Answer::Failed(message) => Err(ErrorView::Broadcast { hash: upper_hex(hash), message }),
        Answer::Reply(response) => commit_outcome(response, hash),
    }
}

/// The next stage of a transaction, and its next request.
pub open spec fn next(
    cfg: ChainConfigView,
    key: SigningKeyView,
    stage: StageView,
    reply: ReplyView,
) -> (StageView, RequestView)
    recommends
        answers(stage, reply),
{
    match (stage, reply) {
        (StageView::Status, ReplyView::Status(answer)) => after_status(cfg, key, answer),
        (StageView::Message { signer }, ReplyView::Message(result)) => after_message(
            signer,
            result,
        ),
        (StageView::Account { signer, msgs }, ReplyView::Query(answer)) => after_account(
            cfg,
            signer,
            msgs,
            answer,
        ),
        (
            StageView::Simulation { signer, msgs, account },
            ReplyView::Query(answer),
        ) => after_simulation(cfg, signer, msgs, account, answer),
        (StageView::Commit { hash }, ReplyView::Commit(answer)) => finished(
            submission_outcome(hash, answer),
        ),
        _ => arbitrary(),
    }
}

impl Rpc {
    /// Begins a transaction. The first request is for the status of the node.
    pub fn transact(&self) -> (begun: (Transaction, Request))
        ensures
            begun.0@ == StageView::Status,
            begun.1@ == RequestView::Status,
    {
        (Transaction { stage: Stage::Status }, Request::Status)
    }
}

impl Transaction {
    /// Whether the reply answers the request that is out.
    pub fn awaits(&self, reply: &Reply) -> (awaited: bool)
        ensures
            awaited == answers(self@, reply@),
    {
        match (&self.stage, reply) {
            (Stage::Status, Reply::Status(_)) => true,
            (Stage::Message { .. }, Reply::Message(_)) => true,
            (Stage::Account { .. }, Reply::Query(_)) => true,
            (Stage::Simulation { .. }, Reply::Query(_)) => true,
            (Stage::Commit { .. }, Reply::Commit(_)) => true,
            _ => false,
        }
    }

    fn finish(result: Result<Receipt, ProcessError>) -> (end: (Transaction, Request))
        ensures
            (end.0@, end.1@) == finished(outcome(result)),
    {
        (Transaction { stage: Stage::Finished }, Request::Done(result))
    }

    fn take_status(rpc: &Rpc, key: &SigningKey, answer: Answer<NodeStatus, String>) -> (step: (
        Transaction,
        Request,
    ))
        ensures
            (step.0@, step.1@) == after_status(rpc@, key@, answer@),
    {
        match rpc.status(answer) {
            Ok(_) => {},
            Err(error) => return Self::finish(Err(error)),
        }
        match key.derive(&rpc.config().prefix) {
            Ok(signer) => {
                let request = Request::Message { sender: signer.address().as_str().to_owned() };
                (Transaction { stage: Stage::Message { signer } }, request)
            },
            Err(error) => Self::finish(Err(error)),
        }
    }

    fn take_message(signer: Signer, result: Result<Any, ProcessError>) -> (step: (
        Transaction,
        Request,
    ))
        ensures
            (step.0@, step.1@) == after_message(signer@, outcome(result)),
    {
        match result {
            Ok(message) => {
                let request = Request::Query {
                    path: ACCOUNT_PATH.to_owned(),
                    data: Rpc::account_request(signer.address().as_str()),
                };
                let ghost written = message@;
                let mut msgs: Vec<Any> = Vec::new();
                msgs.push(message);
                assert(messages_view(msgs@) =~= seq![written]);
                (Transaction { stage: Stage::Account { signer, msgs } }, request)
            },
            Err(error) => Self::finish(Err(error)),
        }
    }

    fn take_account(
        rpc: &Rpc,
        signer: Signer,
        msgs: Vec<Any>,
        answer: Answer<QueryReply, String>,
    ) -> (step: (Transaction, Request))
        ensures
            (step.0@, step.1@) == after_account(rpc@, signer@, messages_view(msgs@), answer@),
    {
        let account = match Rpc::account(answer, signer.address().as_str()) {
            Ok(account) => account,
            Err(error) => return Self::finish(Err(error)),
        };
        match simulation_bytes(&msgs, account.sequence, &rpc.config().denom) {
            Ok(bytes) => {
                let request = Request::Query {
                    path: SIMULATE_PATH.to_owned(),
                    data: encode_simulation(&bytes),
                };
                (Transaction { stage: Stage::Simulation { signer, msgs, account } }, request)
            },
            Err(error) => Self::finish(Err(error)),
        }
    }

    fn read_simulation(answer: Answer<QueryReply, String>) -> (result: Result<u64, ProcessError>)
        ensures
            crate::error::plain_outcome(result) == simulated_gas(answer@),
    {
        let bytes = match Rpc::query(answer) {
            Ok(bytes) => bytes,
            Err(ProcessError::Query { code, codespace, log }) => {
                return Err(ProcessError::from(TxError::Simulation { code, codespace, log }));
            },
            Err(error) => return Err(error),
        };
        match decode_simulated_gas(&bytes) {
            Ok(Some(gas)) => Ok(gas),
            Ok(None) => Err(protocol("simulation omitted gas_info")),
            Err(text) => Err(ProcessError::Protocol(text)),
        }
    }

    fn take_simulation(
        rpc: &Rpc,
        signer: Signer,
        msgs: Vec<Any>,
        account: BaseAccount,
        answer: Answer<QueryReply, String>,
    ) -> (step: (Transaction, Request))
        ensures
            (step.0@, step.1@) == after_simulation(
                rpc@,
                signer@,
                messages_view(msgs@),
                account@,
                answer@,
            ),
    {
        let gas = match Self::read_simulation(answer) {
            Ok(gas) => gas,
            Err(error) => return Self::finish(Err(error)),
        };
        let cfg = rpc.config();
        let fee = match fee(gas, cfg) {
            Ok(fee) => fee,
            Err(error) => return Self::finish(Err(error)),
        };
        match sign(&signer, &msgs, account.account_number, account.sequence, &fee, &cfg.chain_id) {
            Ok(bytes) => {
                let hash = transaction_hash(&bytes);
                (Transaction { stage: Stage::Commit { hash } }, Request::Broadcast { bytes })
            },
            Err(error) => Self::finish(Err(error)),
        }
    }

    fn take_commit(hash: [u8; 32], answer: Answer<CommitResponse, String>) -> (result: Result<
        Receipt,
        ProcessError,
    >)
        ensures
            outcome(result) == submission_outcome(hash@, answer@),
    {
        match answer {
            Answer::Deadline => Err(ProcessError::Timeout { hash: Some(hash_text(&hash)) }),
            Answer::Failed(message) => Err(
                ProcessError::Broadcast { hash: hash_text(&hash), message },
            ),
            Answer::Reply(response) => committed(response, &hash),
        }
    }

    /// Takes what came of the request that is out, and gives the next one.
    pub fn advance(self, rpc: &Rpc, key: &SigningKey, reply: Reply) -> (step: (
        Transaction,
        Request,
    ))
        requires
            answers(self@, reply@),
        ensures
            (step.0@, step.1@) == next(rpc@, key@, self@, reply@),
    {
        match (self.stage, reply) {
            (Stage::Status, Reply::Status(answer)) => Self::take_status(rpc, key, answer),
            (Stage::Message { signer }, Reply::Message(result)) => Self::take_message(
                signer,
                result,
            ),
            (Stage::Account { signer, msgs }, Reply::Query(answer)) => Self::take_account(
                rpc,
                signer,
                msgs,
                answer,
            ),
            (
                Stage::Simulation { signer, msgs, account },
                Reply::Query(answer),
            ) => Self::take_simulation(rpc, signer, msgs, account, answer),
            (Stage::Commit { hash }, Reply::Commit(answer)) => Self::finish(
                Self::take_commit(hash, answer),
            ),
            _ => vstd::pervasive::unreached(),
        }
    }
}

/// Requests and replies say all that they hold.
pub proof fn requests_say_what_they_hold(
    text: String,
    bytes: Vec<u8>,
    end: Result<Receipt, ProcessError>,
    status: Answer<NodeStatus, String>,
    message: Result<Any, ProcessError>,
    query: Answer<QueryReply, String>,
    commit: Answer<CommitResponse, String>,
)
    ensures
        Request::Status@ == RequestView::Status,
        (Request::Message { sender: text })@ == (RequestView::Message { sender: text@ }),
        (Request::Query { path: text, data: bytes })@ == (RequestView::Query {
            path: text@,
            data: bytes@,
        }),
        (Request::Broadcast { bytes })@ == (RequestView::Broadcast { bytes: bytes@ }),
        Request::Done(end)@ == RequestView::Done(outcome(end)),
        Reply::Status(status)@ == ReplyView::Status(status@),
        Reply::Message(message)@ == ReplyView::Message(outcome(message)),
        Reply::Query(query)@ == ReplyView::Query(query@),
        Reply::Commit(commit)@ == ReplyView::Commit(commit@),
{
}

/// Every request is answered by replies of its own sort, and an ended transaction by none.
pub proof fn every_request_has_its_sort_of_reply(
    signer: SignerView,
    msgs: Seq<(Seq<char>, Seq<u8>)>,
    account: AccountView,
    hash: Seq<u8>,
    reply: ReplyView,
)
    ensures
        answers(StageView::Status, reply) <==> reply is Status,
        answers(StageView::Message { signer }, reply) <==> reply is Message,
        answers(StageView::Account { signer, msgs }, reply) <==> reply is Query,
        answers(StageView::Simulation { signer, msgs, account }, reply) <==> reply is Query,
        answers(StageView::Commit { hash }, reply) <==> reply is Commit,
        !answers(StageView::Finished, reply),
{
}

/// A node that is the right one is followed by a request for the message of the derived address.
/// Another one ends the transaction, and so does a key that derives nothing.
pub proof fn the_status_is_followed_by_the_message(
    cfg: ChainConfigView,
    key: SigningKeyView,
    answer: Answer<NodeStatusView, Seq<char>>,
    signer: SignerView,
    error: ErrorView,
)
    ensures
        checked_status(cfg, answer) is Ok && signer_of(key, cfg.prefix) == Ok::<_, ErrorView>(
            signer,
        ) ==> next(cfg, key, StageView::Status, ReplyView::Status(answer)) == (
            StageView::Message { signer },
            RequestView::Message { sender: signer.address },
        ),
        checked_status(cfg, answer) == Err::<NodeStatusView, _>(error) || (checked_status(
            cfg,
            answer,
        ) is Ok && signer_of(key, cfg.prefix) == Err::<SignerView, _>(error)) ==> next(
            cfg,
            key,
            StageView::Status,
            ReplyView::Status(answer),
        ) == (StageView::Finished, RequestView::Done(Err(error))),
{
}

/// A message is kept as it is, and followed by a query for the account of the address that it was
/// written for. Without a message the transaction ends with the reason.
pub proof fn the_message_is_followed_by_the_account(
    cfg: ChainConfigView,
    key: SigningKeyView,
    signer: SignerView,
    message: (Seq<char>, Seq<u8>),
    error: ErrorView,
)
    ensures
        next(cfg, key, StageView::Message { signer }, ReplyView::Message(Ok(message))) == (
            StageView::Account { signer, msgs: seq![message] },
            RequestView::Query {
                path: "/cosmos.auth.v1beta1.Query/Account"@,
                data: account_query_encoding(signer.address),
            },
        ),
        next(cfg, key, StageView::Message { signer }, ReplyView::Message(Err(error))) == (
            StageView::Finished,
            RequestView::Done(Err(error)),
        ),
{
}

/// The account is followed by the simulation of the same messages under its sequence number.
pub proof fn the_account_is_followed_by_the_simulation(
    cfg: ChainConfigView,
    key: SigningKeyView,
    signer: SignerView,
    msgs: Seq<(Seq<char>, Seq<u8>)>,
    answer: Answer<QueryReplyView, Seq<char>>,
    account: AccountView,
    error: ErrorView,
)
    ensures
        queried_account(answer, signer.address) == Ok::<_, ErrorView>(account) && valid_denom(
            cfg.denom,
        ) ==> next(cfg, key, StageView::Account { signer, msgs }, ReplyView::Query(answer)) == (
            StageView::Simulation { signer, msgs, account },
            RequestView::Query {
                path: "/cosmos.tx.v1beta1.Service/Simulate"@,
                data: simulation_encoding(
                    transaction_encoding(
                        body_encoding(msgs, "cosm-client memo"@, 0),
                        auth_info_encoding(None, account.sequence, cfg.denom, 0, 0),
                        seq![Seq::<u8>::empty()],
                    ),
                ),
            },
        ),
        queried_account(answer, signer.address) is Ok && !valid_denom(cfg.denom) ==> next(
            cfg,
            key,
            StageView::Account { signer, msgs },
            ReplyView::Query(answer),
        ) == (
            StageView::Finished,
            RequestView::Done(Err(ErrorView::Protocol(denom_error(cfg.denom)))),
        ),
        queried_account(answer, signer.address) == Err::<AccountView, _>(error) ==> next(
            cfg,
            key,
            StageView::Account { signer, msgs },
            ReplyView::Query(answer),
        ) == (StageView::Finished, RequestView::Done(Err(error))),
{
}

/// A simulation is followed by one submission: that of the same messages, signed by the key of the
/// signer under the account's own numbers, and paying the fee for the simulated gas. The hash that
/// is waited for is that of the submitted bytes.
pub proof fn the_simulation_is_followed_by_the_submission(
    cfg: ChainConfigView,
    key: SigningKeyView,
    signer: SignerView,
    msgs: Seq<(Seq<char>, Seq<u8>)>,
    account: AccountView,
    reply: QueryReplyView,
    gas: u64,
    gas_limit: u64,
    amount: u64,
    signature: Seq<u8>,
)
    requires
        reply.code == 0,
        decoded_simulated_gas(reply.value) == Ok::<_, Seq<char>>(Some(gas)),
        fee_for(gas, cfg) == Ok::<_, ErrorView>(
            FeeView { denom: cfg.denom, amount: amount as nat, gas_limit: gas_limit as nat },
        ),
        document_signature(
            signer.key,
            body_encoding(msgs, "Made with cosm-tome client"@, 0),
            auth_info_encoding(
                Some(signer.key),
                account.sequence,
                cfg.denom,
                amount as u128,
                gas_limit,
            ),
            cfg.chain_id,
            account.account_number,
        ) == Ok::<_, Seq<char>>(signature),
    ensures
        ({
            let bytes = transaction_encoding(
                body_encoding(msgs, "Made with cosm-tome client"@, 0),
                auth_info_encoding(
                    Some(signer.key),
                    account.sequence,
                    cfg.denom,
                    amount as u128,
                    gas_limit,
                ),
                seq![signature],
            );
            next(
                cfg,
                key,
                StageView::Simulation { signer, msgs, account },
                ReplyView::Query(Answer::Reply(reply)),
            ) == (StageView::Commit { hash: sha256(bytes) }, RequestView::Broadcast { bytes })
        }),
{
}

/// Whatever fails at the simulation ends the transaction with its own reason, and nothing is
/// submitted. A simulation that the application refused is a rejection.
pub proof fn a_failed_simulation_ends_the_transaction(
    cfg: ChainConfigView,
    key: SigningKeyView,
    signer: SignerView,
    msgs: Seq<(Seq<char>, Seq<u8>)>,
    account: AccountView,
    reply: QueryReplyView,
    text: Seq<char>,
    gas: u64,
    fee: FeeView,
    error: ErrorView,
)
    ensures
        ({
            let stage = StageView::Simulation { signer, msgs, account };
            let after = |answer: Answer<QueryReplyView, Seq<char>>|
                next(cfg, key, stage, ReplyView::Query(answer));
            let ended = |error: ErrorView| (StageView::Finished, RequestView::Done(Err(error)));
            &&& after(Answer::Deadline) == ended(ErrorView::Timeout { hash: None })
            &&& after(Answer::Failed(text)) == ended(ErrorView::Rpc(text))
            &&& reply.code != 0 ==> after(Answer::Reply(reply)) == ended(
                ErrorView::Rejected(
                    TxErrorView::Simulation {
                        code: reply.code,
                        codespace: reply.codespace,
                        log: reply.log,
                    },
                ),
            )
            &&& reply.code == 0 && decoded_simulated_gas(reply.value) == Err::<Option<u64>, _>(
                text,
            ) ==> after(Answer::Reply(reply)) == ended(ErrorView::Protocol(text))
            &&& reply.code == 0 && decoded_simulated_gas(reply.value) == Ok::<_, Seq<char>>(
                None::<u64>,
            ) ==> after(Answer::Reply(reply)) == ended(
                ErrorView::Protocol("simulation omitted gas_info"@),
            )
            &&& reply.code == 0 && decoded_simulated_gas(reply.value) == Ok::<_, Seq<char>>(
                Some(gas),
            ) ==> {
                &&& fee_for(gas, cfg) == Err::<FeeView, _>(error) ==> after(Answer::Reply(reply))
                    == ended(error)
                &&& fee_for(gas, cfg) == Ok::<_, ErrorView>(fee) && signed_transaction(
                    signer.key,
                    msgs,
                    account.account_number,
                    account.sequence,
                    fee,
                    cfg.chain_id,
                ) == Err::<Seq<u8>, _>(error) ==> after(Answer::Reply(reply)) == ended(error)
            }
        }),
{
}

/// The answer to a submission ends the transaction: a report by what it says, anything else by an
/// unknown outcome under the hash.
pub proof fn the_submission_is_the_last_request(
    cfg: ChainConfigView,
    key: SigningKeyView,
    hash: Seq<u8>,
    response: CommitView,
    message: Seq<char>,
)
    ensures
        next(
            cfg,
            key,
            StageView::Commit { hash },
            ReplyView::Commit(Answer::Reply(response)),
        ) == (StageView::Finished, RequestView::Done(commit_outcome(response, hash))),
        next(
            cfg,
            key,
            StageView::Commit { hash },
            ReplyView::Commit(Answer::Failed(message)),
        ) == (
            StageView::Finished,
            RequestView::Done(Err(ErrorView::Broadcast { hash: upper_hex(hash), message })),
        ),
        next(cfg, key, StageView::Commit { hash }, ReplyView::Commit(Answer::Deadline)) == (
            StageView::Finished,
            RequestView::Done(Err(ErrorView::Timeout { hash: Some(upper_hex(hash)) })),
        ),
{
}

} // verus!
