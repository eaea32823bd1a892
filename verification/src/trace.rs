//! What holds of every run of a transaction, whatever the node replies.
use crate::commit::{
    receipt_needs_a_matching_commit, receipt_of, rejection_is_explicit, CommitView,
};
use crate::config::ChainConfigView;
use crate::digest::{base64_decoded, sha256, upper_hex};
use crate::error::ErrorView;
use crate::receipt::ReceiptView;
use crate::rpc::{checked_status, queried_account, Answer, QueryReplyView};
use crate::signing::{
    fee_for, signed_transaction, signer_of, simulated_transaction, SigningKeyView,
};
use crate::status::NodeStatusView;
use crate::transaction::{
    answers, next, simulated_gas, ReplyView, RequestView, StageView, SIMULATE_PATH,
};
use crate::wire::simulation_encoding;
use vstd::prelude::*;

verus! {

/// The stage that a transaction has reached after the replies.
pub open spec fn stage_after(
    cfg: ChainConfigView,
    key: SigningKeyView,
    replies: Seq<ReplyView>,
) -> StageView
    decreases replies.len(),
{
    if replies.len() == 0 {
        StageView::Status
    } else {
        next(cfg, key, stage_after(cfg, key, replies.drop_last()), replies.last()).0
    }
}

/// The request that is out after the replies.
pub open spec fn request_after(
    cfg: ChainConfigView,
    key: SigningKeyView,
    replies: Seq<ReplyView>,
) -> RequestView {
    if replies.len() == 0 {
        RequestView::Status
    } else {
        next(cfg, key, stage_after(cfg, key, replies.drop_last()), replies.last()).1
    }
}

/// Whether every one of the replies answers the request that was out when it came.
pub open spec fn is_run(
    cfg: ChainConfigView,
    key: SigningKeyView,
    replies: Seq<ReplyView>,
) -> bool
    decreases replies.len(),
{
    replies.len() > 0 ==> is_run(cfg, key, replies.drop_last()) && answers(
        stage_after(cfg, key, replies.drop_last()),
        replies.last(),
    )
}

/// How many of the requests up to the last reply were to submit a transaction.
pub open spec fn submissions(
    cfg: ChainConfigView,
    key: SigningKeyView,
    replies: Seq<ReplyView>,
) -> nat
    decreases replies.len(),
{
    let last: nat = if request_after(cfg, key, replies) is Broadcast {
        1
    } else {
        0
    };
    if replies.len() == 0 {
        last
    } else {
        submissions(cfg, key, replies.drop_last()) + last
    }
}

/// The bytes that a run submitted: those of its fifth request.
pub open spec fn submitted(
    cfg: ChainConfigView,
    key: SigningKeyView,
    replies: Seq<ReplyView>,
) -> Seq<u8> {
    request_after(cfg, key, replies.take(4))->bytes
}

/// How a run comes to the stage at which it is.
spec fn path(cfg: ChainConfigView, key: SigningKeyView, replies: Seq<ReplyView>) -> bool {
    let count = submissions(cfg, key, replies);
    let last = request_after(cfg, key, replies);
    match stage_after(cfg, key, replies) {
        StageView::Status => replies.len() == 0 && count == 0,
        StageView::Message { signer } => {
            &&& replies.len() == 1 && count == 0
            &&& replies[0] is Status && checked_status(cfg, replies[0]->Status_0) is Ok
            &&& signer_of(key, cfg.prefix) == Ok::<_, ErrorView>(signer)
        },
        StageView::Account { signer, msgs } => {
            &&& replies.len() == 2 && count == 0
            &&& replies[0] is Status && checked_status(cfg, replies[0]->Status_0) is Ok
            &&& signer_of(key, cfg.prefix) == Ok::<_, ErrorView>(signer)
            &&& replies[1] is Message && replies[1]->Message_0 is Ok
            &&& msgs == seq![replies[1]->Message_0->Ok_0]
        },
        StageView::Simulation { signer, msgs, account } => {
            &&& replies.len() == 3 && count == 0
            &&& replies[0] is Status && checked_status(cfg, replies[0]->Status_0) is Ok
            &&& signer_of(key, cfg.prefix) == Ok::<_, ErrorView>(signer)
            &&& replies[1] is Message && replies[1]->Message_0 is Ok
            &&& msgs == seq![replies[1]->Message_0->Ok_0]
            &&& replies[2] is Query
            &&& queried_account(replies[2]->Query_0, signer.address) == Ok::<_, ErrorView>(account)
            &&& simulated_transaction(msgs, account.sequence, cfg.denom) is Ok
            &&& last == RequestView::Query {
                path: SIMULATE_PATH@,
                data: simulation_encoding(
                    simulated_transaction(msgs, account.sequence, cfg.denom)->Ok_0,
                ),
            }
        },
        StageView::Commit { hash } => {
            let signer = signer_of(key, cfg.prefix)->Ok_0;
            let msgs = seq![replies[1]->Message_0->Ok_0];
            let account = queried_account(replies[2]->Query_0, signer.address)->Ok_0;
            let gas = simulated_gas(replies[3]->Query_0)->Ok_0;
            &&& replies.len() == 4 && count == 1
            &&& replies[0] is Status && checked_status(cfg, replies[0]->Status_0) is Ok
            &&& signer_of(key, cfg.prefix) is Ok
            &&& replies[1] is Message && replies[1]->Message_0 is Ok
            &&& replies[2] is Query
            &&& queried_account(replies[2]->Query_0, signer.address) is Ok
            &&& simulated_transaction(msgs, account.sequence, cfg.denom) is Ok
            &&& request_after(cfg, key, replies.drop_last()) == RequestView::Query {
                path: SIMULATE_PATH@,
                data: simulation_encoding(
                    simulated_transaction(msgs, account.sequence, cfg.denom)->Ok_0,
                ),
            }
            &&& replies[3] is Query
            &&& simulated_gas(replies[3]->Query_0) is Ok
            &&& fee_for(gas, cfg) is Ok
            &&& last is Broadcast
            &&& signed_transaction(
                signer.key,
                msgs,
                account.account_number,
                account.sequence,
                fee_for(gas, cfg)->Ok_0,
                cfg.chain_id,
            ) == Ok::<_, ErrorView>(last->bytes)
            &&& hash == sha256(last->bytes)
        },
        StageView::Finished => {
            let before = stage_after(cfg, key, replies.drop_last());
            &&& 1 <= replies.len() <= 5
            &&& last is Done
            &&& before is Commit ==> replies.len() == 5 && count == 1 && replies.last() is Commit
                && request_after(cfg, key, replies.drop_last()) is Broadcast && before->hash
                == sha256(request_after(cfg, key, replies.drop_last())->bytes)
            &&& before !is Commit ==> count == 0 && replies.last() !is Commit
        },
    }
}

proof fn lemma_path(cfg: ChainConfigView, key: SigningKeyView, replies: Seq<ReplyView>)
    requires
        is_run(cfg, key, replies),
    ensures
        path(cfg, key, replies),
    decreases replies.len(),
{
    if replies.len() > 0 {
        lemma_path(cfg, key, replies.drop_last());
    }
}

/// A run never submits more than once, and ends after at most five replies.
pub proof fn submits_at_most_once(
    cfg: ChainConfigView,
    key: SigningKeyView,
    replies: Seq<ReplyView>,
)
    requires
        is_run(cfg, key, replies),
    ensures
        submissions(cfg, key, replies) <= 1,
        replies.len() <= 5,
        replies.len() == 5 ==> request_after(cfg, key, replies) is Done,
{
    lemma_path(cfg, key, replies);
}

/// A run that ends before its transaction was submitted has submitted nothing: a node that follows
/// another chain or runs another version, a key that cannot be derived, a message that cannot be
/// written, an account that is not the signer's, and a simulation that fails each end it there.
pub proof fn failures_before_submission_submit_nothing(
    cfg: ChainConfigView,
    key: SigningKeyView,
    replies: Seq<ReplyView>,
)
    requires
        is_run(cfg, key, replies),
        request_after(cfg, key, replies) is Done,
        replies.last() !is Commit,
    ensures
        submissions(cfg, key, replies) == 0,
        request_after(cfg, key, replies)->Done_0 is Err,
{
    lemma_path(cfg, key, replies);
    lemma_path(cfg, key, replies.drop_last());
}

/// A run ends in a receipt only where the node reported on the submitted transaction itself: under
/// its hash, as admitted, as committed at a positive height, and as executed without a failure.
pub proof fn receipt_follows_from_the_submission(
    cfg: ChainConfigView,
    key: SigningKeyView,
    replies: Seq<ReplyView>,
    receipt: ReceiptView,
)
    requires
        is_run(cfg, key, replies),
        request_after(cfg, key, replies) == RequestView::Done(Ok(receipt)),
    ensures
        submissions(cfg, key, replies) == 1,
        receipt.hash == upper_hex(sha256(submitted(cfg, key, replies))),
        receipt.height > 0,
        receipt.code == 0,
        replies.last() matches ReplyView::Commit(Answer::Reply(response)) && response.hash == Some(
            sha256(submitted(cfg, key, replies)),
        ) && response.check_tx.code == 0 && response.tx_result.code == 0 && receipt.height
            == response.height && receipt.log == response.tx_result.log && receipt.events
            == response.tx_result.events,
{
    lemma_path(cfg, key, replies);
    lemma_path(cfg, key, replies.drop_last());
    assert(replies.len() == 5);
    assert(replies.take(4) =~= replies.drop_last());
    if let ReplyView::Commit(Answer::Reply(response)) = replies.last() {
        receipt_needs_a_matching_commit(response, sha256(submitted(cfg, key, replies)));
    }
}

/// Where the deadline ends a run, the error holds a hash exactly where a transaction was submitted,
/// and it is the hash of that transaction. The same holds where the report on it failed to arrive.
/// A message that could not be written ends the run with the error that its writer gave.
pub proof fn unknown_outcome_keeps_the_hash(
    cfg: ChainConfigView,
    key: SigningKeyView,
    replies: Seq<ReplyView>,
    error: ErrorView,
)
    requires
        is_run(cfg, key, replies),
        request_after(cfg, key, replies) == RequestView::Done(Err(error)),
        replies.last() !is Message,
    ensures
        error matches ErrorView::Timeout { hash } ==> hash == if submissions(cfg, key, replies)
            == 1 {
            Some(upper_hex(sha256(submitted(cfg, key, replies))))
        } else {
            None
        },
        error matches ErrorView::Broadcast { hash, .. } ==> submissions(cfg, key, replies) == 1
            && hash == upper_hex(sha256(submitted(cfg, key, replies))),
{
    lemma_path(cfg, key, replies);
    lemma_path(cfg, key, replies.drop_last());
    if stage_after(cfg, key, replies.drop_last()) is Commit {
        assert(replies.take(4) =~= replies.drop_last());
    }
}

/// A run ends in a rejection only where the application said so itself: it refused the simulation,
/// and nothing was submitted; or it reported, under the hash of what was submitted, that it did not
/// admit the transaction or failed to execute it.
pub proof fn rejections_are_explicit(
    cfg: ChainConfigView,
    key: SigningKeyView,
    replies: Seq<ReplyView>,
    error: ErrorView,
)
    requires
        is_run(cfg, key, replies),
        request_after(cfg, key, replies) == RequestView::Done(Err(error)),
        replies.last() !is Message,
        error is Rejected,
    ensures
        match replies.last() {
            ReplyView::Query(Answer::Reply(reply)) => {
                &&& reply.code != 0
                &&& error->Rejected_0 is Simulation
                &&& submissions(cfg, key, replies) == 0
            },
            ReplyView::Commit(Answer::Reply(response)) => error->Rejected_0 !is Simulation
                && response.hash == Some(sha256(submitted(cfg, key, replies))) && (
            response.check_tx.code != 0 || (response.height > 0 && response.tx_result.code != 0)),
            _ => false,
        },
{
    lemma_path(cfg, key, replies);
    lemma_path(cfg, key, replies.drop_last());
    if stage_after(cfg, key, replies.drop_last()) is Commit {
        assert(replies.take(4) =~= replies.drop_last());
        if let ReplyView::Commit(Answer::Reply(response)) = replies.last() {
            rejection_is_explicit(
                response,
                sha256(submitted(cfg, key, replies)),
                error->Rejected_0,
            );
        }
    }
}

/// Nothing is submitted before the node was seen to follow the configured chain and to run a
/// version that is spoken. What is submitted is what was simulated: the transaction that is signed
/// carries the message and the sequence number that the simulation carried, the fee is that of the
/// gas which the simulation used, and the signature is that of the key whose account was looked
/// up.
pub proof fn submission_follows_the_simulation(
    cfg: ChainConfigView,
    key: SigningKeyView,
    replies: Seq<ReplyView>,
    bytes: Seq<u8>,
)
    requires
        is_run(cfg, key, replies),
        request_after(cfg, key, replies) == (RequestView::Broadcast { bytes }),
    ensures
        replies.len() == 4,
        replies[0] is Status,
        checked_status(cfg, replies[0]->Status_0) is Ok,
        replies[1] is Message,
        replies[1]->Message_0 is Ok,
        replies[2] is Query,
        replies[3] is Query,
        signer_of(key, cfg.prefix) is Ok,
        ({
            let signer = signer_of(key, cfg.prefix)->Ok_0;
            let msgs = seq![replies[1]->Message_0->Ok_0];
            let account = queried_account(replies[2]->Query_0, signer.address);
            let gas = simulated_gas(replies[3]->Query_0);
            &&& account is Ok && account->Ok_0.address == signer.address
            &&& gas is Ok
            &&& simulated_transaction(msgs, account->Ok_0.sequence, cfg.denom) is Ok
            &&& request_after(cfg, key, replies.take(3)) == RequestView::Query {
                path: SIMULATE_PATH@,
                data: simulation_encoding(
                    simulated_transaction(msgs, account->Ok_0.sequence, cfg.denom)->Ok_0,
                ),
            }
            &&& fee_for(gas->Ok_0, cfg) is Ok
            &&& signed_transaction(
                signer.key,
                msgs,
                account->Ok_0.account_number,
                account->Ok_0.sequence,
                fee_for(gas->Ok_0, cfg)->Ok_0,
                cfg.chain_id,
            ) == Ok::<_, ErrorView>(bytes)
        }),
{
    lemma_path(cfg, key, replies);
    assert(stage_after(cfg, key, replies) is Commit);
    assert(replies.take(3) =~= replies.drop_last());
}

/// Success is owed: where the node is the right one, the key gives a signer, the message is
/// written, the account is the signer's, the simulation reports its gas, the transaction can be
/// paid and signed, and the node reports it as committed under its hash, the run ends in the
/// receipt.
pub proof fn an_orderly_run_ends_in_a_receipt(
    cfg: ChainConfigView,
    key: SigningKeyView,
    status: Answer<NodeStatusView, Seq<char>>,
    message: (Seq<char>, Seq<u8>),
    account: Answer<QueryReplyView, Seq<char>>,
    simulation: Answer<QueryReplyView, Seq<char>>,
    response: CommitView,
    bytes: Seq<u8>,
)
    requires
        checked_status(cfg, status) is Ok,
        signer_of(key, cfg.prefix) is Ok,
        queried_account(account, signer_of(key, cfg.prefix)->Ok_0.address) is Ok,
        simulated_gas(simulation) is Ok,
        fee_for(simulated_gas(simulation)->Ok_0, cfg) is Ok,
        ({
            let signer = signer_of(key, cfg.prefix)->Ok_0;
            let found = queried_account(account, signer.address)->Ok_0;
            signed_transaction(
                signer.key,
                seq![message],
                found.account_number,
                found.sequence,
                fee_for(simulated_gas(simulation)->Ok_0, cfg)->Ok_0,
                cfg.chain_id,
            ) == Ok::<_, ErrorView>(bytes)
        }),
        response.hash == Some(sha256(bytes)),
        response.check_tx.code == 0,
        response.height > 0,
        response.tx_result.code == 0,
        response.tx_result.gas_used >= 0,
        response.tx_result.gas_wanted >= 0,
        base64_decoded(response.tx_result.data) is Ok,
    ensures
        ({
            let replies = seq![
                ReplyView::Status(status),
                ReplyView::Message(Ok(message)),
                ReplyView::Query(account),
                ReplyView::Query(simulation),
                ReplyView::Commit(Answer::Reply(response)),
            ];
            &&& is_run(cfg, key, replies)
            &&& request_after(cfg, key, replies) == RequestView::Done(
                Ok(
                    receipt_of(
                        response,
                        sha256(bytes),
                        base64_decoded(response.tx_result.data)->Ok_0,
                    ),
                ),
            )
        }),
{
    let first = seq![ReplyView::Status(status)];
    let second = first.push(ReplyView::Message(Ok(message)));
    let third = second.push(ReplyView::Query(account));
    let fourth = third.push(ReplyView::Query(simulation));
    let fifth = fourth.push(ReplyView::Commit(Answer::Reply(response)));
    let empty = Seq::<ReplyView>::empty();
    assert(first.drop_last() =~= empty);
    assert(second.drop_last() =~= first);
    assert(third.drop_last() =~= second);
    assert(fourth.drop_last() =~= third);
    assert(fifth.drop_last() =~= fourth);
    assert(stage_after(cfg, key, empty) == StageView::Status);
    assert(is_run(cfg, key, empty));
    assert(stage_after(cfg, key, first) is Message && is_run(cfg, key, first));
    assert(stage_after(cfg, key, second) is Account && is_run(cfg, key, second));
    assert(stage_after(cfg, key, third) is Simulation && is_run(cfg, key, third));
    assert(stage_after(cfg, key, fourth) is Commit && is_run(cfg, key, fourth));
    assert(is_run(cfg, key, fifth));
    assert(fifth =~= seq![
        ReplyView::Status(status),
        ReplyView::Message(Ok(message)),
        ReplyView::Query(account),
        ReplyView::Query(simulation),
        ReplyView::Commit(Answer::Reply(response)),
    ]);
}

} // verus!
