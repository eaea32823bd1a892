//! Waiting for a chain to make progress, by its own heights and times.
//!
//! As with a transaction, a poll decides and never performs: it says whether to ask the node again
//! at once, to ask it again after [`POLL_INTERVAL`](crate::rpc::POLL_INTERVAL), or to stop.
use crate::config::ChainConfigView;
use crate::error::{plain_outcome, protocol, ErrorView, ProcessError};
use crate::rpc::{checked_status, Answer, Rpc};
use crate::status::{NodeStatus, NodeStatusView};
use vstd::prelude::*;

verus! {

/// What a poll asks of whoever drives it.
#[derive(Debug)]
pub enum PollRequest {
    /// Ask the node for its status at once.
    Ask,
    /// Let the interval pass, and ask the node for its status.
    Wait,
    /// Ask for nothing more: this is what came of the poll.
    Done(Result<(), ProcessError>),
}

/// What a [`PollRequest`] says.
pub enum PollRequestView {
    Ask,
    Wait,
    Done(Result<(), ErrorView>),
}

impl View for PollRequest {
    type V = PollRequestView;

    open spec fn view(&self) -> PollRequestView {
        match self {
            PollRequest::Ask => PollRequestView::Ask,
            PollRequest::Wait => PollRequestView::Wait,
            PollRequest::Done(result) => PollRequestView::Done(plain_outcome(*result)),
        }
    }
}

/// A wait for a number of blocks.
#[derive(Debug)]
pub struct BlockPoll {
    n: u64,
    first_block: bool,
    target: Option<u64>,
}

/// What a [`BlockPoll`] waits for.
pub struct BlockPollView {
    /// How many blocks.
    pub n: u64,
    /// Whether they are counted from the first block at the earliest.
    pub first_block: bool,
    /// The height that ends the wait, once it is known.
    pub target: Option<u64>,
}

impl View for BlockPoll {
    type V = BlockPollView;

    closed spec fn view(&self) -> BlockPollView {
        BlockPollView { n: self.n, first_block: self.first_block, target: self.target }
    }
}

/// How a wait for blocks goes on once `status` has been seen.
pub open spec fn blocks_seen(poll: BlockPollView, status: NodeStatusView) -> (
    BlockPollView,
    PollRequestView,
) {
    match poll.target {
        Some(target) => if status.sync_info.latest_block_height < target {
            (poll, PollRequestView::Wait)
        } else {
            (poll, PollRequestView::Done(Ok(())))
        },
        None => if poll.first_block && status.sync_info.latest_block_height == 0 {
            (poll, PollRequestView::Wait)
        } else if status.sync_info.latest_block_height + poll.n > u64::MAX {
            (
                poll,
                PollRequestView::Done(Err(ErrorView::Protocol("block target overflow"@))),
            )
        } else {
            let target = (status.sync_info.latest_block_height + poll.n) as u64;
            (
                BlockPollView { target: Some(target), ..poll },
                if poll.n > 0 {
                    PollRequestView::Wait
                } else {
                    PollRequestView::Done(Ok(()))
                },
            )
        },
    }
}

/// How a wait for blocks goes on after an answer.
pub open spec fn next_for_blocks(
    cfg: ChainConfigView,
    poll: BlockPollView,
    answer: Answer<NodeStatusView, Seq<char>>,
) -> (BlockPollView, PollRequestView) {
    match checked_status(cfg, answer) {
        Err(error) => (poll, PollRequestView::Done(Err(error))),
        Ok(status) => blocks_seen(poll, status),
    }
}

impl BlockPoll {
    /// Begins to wait for `n` blocks, counted from the latest block. With `first_block` a chain
    /// that has none yet is waited for first.
    pub fn new(n: u64, first_block: bool) -> (begun: (BlockPoll, PollRequest))
        ensures
            begun.0@ == (BlockPollView { n, first_block, target: None }),
            begun.1@ == PollRequestView::Ask,
    {
        (BlockPoll { n, first_block, target: None }, PollRequest::Ask)
    }

    /// Takes an answer to a status request.
    pub fn advance(self, rpc: &Rpc, answer: Answer<NodeStatus, String>) -> (step: (
        BlockPoll,
        PollRequest,
    ))
        ensures
            (step.0@, step.1@) == next_for_blocks(rpc@, self@, answer@),
    {
        let status = match rpc.status(answer) {
            Ok(status) => status,
            Err(error) => return (self, PollRequest::Done(Err(error))),
        };
        match self.target {
            Some(target) => {
                if status.sync_info.latest_block_height < target {
                    (self, PollRequest::Wait)
                } else {
                    (self, PollRequest::Done(Ok(())))
                }
            },
            None => {
                if self.first_block && status.sync_info.latest_block_height == 0 {
                    return (self, PollRequest::Wait);
                }
                match status.sync_info.latest_block_height.checked_add(self.n) {
                    None => (self, PollRequest::Done(Err(protocol("block target overflow")))),
                    Some(target) => {
                        let request = if status.sync_info.latest_block_height < target {
                            PollRequest::Wait
                        } else {
                            PollRequest::Done(Ok(()))
                        };
                        let poll = BlockPoll {
                            n: self.n,
                            first_block: self.first_block,
                            target: Some(target),
                        };
                        (poll, request)
                    },
                }
            },
        }
    }
}

/// A wait for a time span of the chain.
#[derive(Debug)]
pub struct TimePoll {
    n: u64,
    target: Option<i64>,
}

/// What a [`TimePoll`] waits for.
pub struct TimePollView {
    /// How many seconds.
    pub n: u64,
    /// The time that ends the wait, once it is known.
    pub target: Option<i64>,
}

impl View for TimePoll {
    type V = TimePollView;

    closed spec fn view(&self) -> TimePollView {
        TimePollView { n: self.n, target: self.target }
    }
}

/// How a wait for a time goes on once `status` has been seen. The status that fixes the time to
/// wait for never ends the wait: the node is asked again, at once.
pub open spec fn time_seen(poll: TimePollView, status: NodeStatusView) -> (
    TimePollView,
    PollRequestView,
) {
    match poll.target {
        Some(target) => if status.sync_info.latest_block_time.seconds < target {
            (poll, PollRequestView::Wait)
        } else {
            (poll, PollRequestView::Done(Ok(())))
        },
        None => if poll.n > i64::MAX {
            (
                poll,
                PollRequestView::Done(
                    Err(ErrorView::Protocol("out of range integral type conversion attempted"@)),
                ),
            )
        } else if status.sync_info.latest_block_time.seconds + poll.n > i64::MAX {
            (
                poll,
                PollRequestView::Done(Err(ErrorView::Protocol("block time target overflow"@))),
            )
        } else {
            (
                TimePollView {
                    target: Some((status.sync_info.latest_block_time.seconds + poll.n) as i64),
                    ..poll
                },
                PollRequestView::Ask,
            )
        },
    }
}

/// How a wait for a time goes on after an answer.
pub open spec fn next_for_time(
    cfg: ChainConfigView,
    poll: TimePollView,
    answer: Answer<NodeStatusView, Seq<char>>,
) -> (TimePollView, PollRequestView) {
    match checked_status(cfg, answer) {
        Err(error) => (poll, PollRequestView::Done(Err(error))),
        Ok(status) => time_seen(poll, status),
    }
}

impl TimePoll {
    /// Begins to wait until the chain is `n` seconds past its latest block.
    pub fn new(n: u64) -> (begun: (TimePoll, PollRequest))
        ensures
            begun.0@ == (TimePollView { n, target: None }),
            begun.1@ == PollRequestView::Ask,
    {
        (TimePoll { n, target: None }, PollRequest::Ask)
    }

    /// Takes an answer to a status request.
    pub fn advance(self, rpc: &Rpc, answer: Answer<NodeStatus, String>) -> (step: (
        TimePoll,
        PollRequest,
    ))
        ensures
            (step.0@, step.1@) == next_for_time(rpc@, self@, answer@),
    {
        let status = match rpc.status(answer) {
            Ok(status) => status,
            Err(error) => return (self, PollRequest::Done(Err(error))),
        };
        match self.target {
            Some(target) => {
                if status.sync_info.latest_block_time.seconds < target {
                    (self, PollRequest::Wait)
                } else {
                    (self, PollRequest::Done(Ok(())))
                }
            },
            None => {
                if self.n > 0x7FFF_FFFF_FFFF_FFFF {
                    let error = protocol("out of range integral type conversion attempted");
                    return (self, PollRequest::Done(Err(error)));
                }
                match status.sync_info.latest_block_time.seconds.checked_add(self.n as i64) {
                    None => (
                        self,
                        PollRequest::Done(Err(protocol("block time target overflow"))),
                    ),
                    Some(target) => (
                        TimePoll { n: self.n, target: Some(target) },
                        PollRequest::Ask,
                    ),
                }
            },
        }
    }
}

impl Rpc {
    /// Begins to wait for `n` blocks. With `first_block` a chain that has none yet is waited for
    /// first.
    pub fn poll_for_n_blocks(&self, n: u64, first_block: bool) -> (begun: (BlockPoll, PollRequest))
        ensures
            begun.0@ == (BlockPollView { n, first_block, target: None }),
            begun.1@ == PollRequestView::Ask,
    {
        BlockPoll::new(n, first_block)
    }

    /// Begins to wait until the chain is `n` seconds past its latest block.
    pub fn poll_for_n_secs(&self, n: u64) -> (begun: (TimePoll, PollRequest))
        ensures
            begun.0@ == (TimePollView { n, target: None }),
            begun.1@ == PollRequestView::Ask,
    {
        TimePoll::new(n)
    }
}

/// The state of a wait for blocks after the answers, and the request that is out then.
pub open spec fn blocks_after(
    cfg: ChainConfigView,
    poll: BlockPollView,
    answers: Seq<Answer<NodeStatusView, Seq<char>>>,
) -> (BlockPollView, PollRequestView)
    decreases answers.len(),
{
    if answers.len() == 0 {
        (poll, PollRequestView::Ask)
    } else {
        next_for_blocks(cfg, blocks_after(cfg, poll, answers.drop_last()).0, answers.last())
    }
}

/// Whether none of the answers came after the end of the wait for blocks.
pub open spec fn is_wait_for_blocks(
    cfg: ChainConfigView,
    poll: BlockPollView,
    answers: Seq<Answer<NodeStatusView, Seq<char>>>,
) -> bool
    decreases answers.len(),
{
    answers.len() > 0 ==> is_wait_for_blocks(cfg, poll, answers.drop_last()) && blocks_after(
        cfg,
        poll,
        answers.drop_last(),
    ).1 !is Done
}

/// The height that an answer reports.
pub open spec fn height_of(answer: Answer<NodeStatusView, Seq<char>>) -> int {
    answer->Reply_0.sync_info.latest_block_height as int
}

/// The time that an answer reports.
pub open spec fn time_of(answer: Answer<NodeStatusView, Seq<char>>) -> int {
    answer->Reply_0.sync_info.latest_block_time.seconds as int
}

/// Whether the wait is counted from the answer at `start`: no earlier one counts.
pub open spec fn counts_from(
    answers: Seq<Answer<NodeStatusView, Seq<char>>>,
    first_block: bool,
    start: int,
) -> bool {
    &&& 0 <= start < answers.len()
    &&& answers[start] is Reply
    &&& first_block ==> height_of(answers[start]) > 0
    &&& forall|i: int|
        0 <= i < start ==> first_block && (#[trigger] answers[i]) is Reply && height_of(answers[i])
            == 0
}

proof fn lemma_blocks(
    cfg: ChainConfigView,
    n: u64,
    first_block: bool,
    answers: Seq<Answer<NodeStatusView, Seq<char>>>,
) -> (start: int)
    requires
        is_wait_for_blocks(cfg, BlockPollView { n, first_block, target: None }, answers),
    ensures
        ({
            let poll = BlockPollView { n, first_block, target: None };
            let (reached, request) = blocks_after(cfg, poll, answers);
            &&& reached.n == n && reached.first_block == first_block
            &&& match reached.target {
                Some(target) => counts_from(answers, first_block, start) && target == height_of(
                    answers[start],
                ) + n,
                None => request !is Done ==> forall|i: int|
                    0 <= i < answers.len() ==> first_block && (#[trigger] answers[i]) is Reply
                        && height_of(answers[i]) == 0,
            }
            &&& request == PollRequestView::Done(Ok(())) ==> reached.target is Some
                && answers.last() is Reply && height_of(answers.last()) >= reached.target->0
        }),
    decreases answers.len(),
{
    let poll = BlockPollView { n, first_block, target: None };
    if answers.len() == 0 {
        0
    } else {
        let before = answers.drop_last();
        let start = lemma_blocks(cfg, n, first_block, before);
        if blocks_after(cfg, poll, before).0.target is Some {
            assert(forall|i: int| 0 <= i < before.len() ==> before[i] == answers[i]);
            assert(counts_from(before, first_block, start));
            assert(counts_from(answers, first_block, start)) by {
                assert forall|i: int| 0 <= i < start implies first_block && (
                #[trigger] answers[i]) is Reply && height_of(answers[i]) == 0 by {
                    assert(before[i] is Reply);
                }
            }
            start
        } else {
            assert forall|i: int| 0 <= i < before.len() implies first_block && (
            #[trigger] answers[i]) is Reply && height_of(answers[i]) == 0 by {
                assert(before[i] is Reply);
            }
            answers.len() - 1
        }
    }
}

/// A wait for blocks succeeds only once the chain has grown by as many: the last status reports a
/// height that is at least `n` above the one that the wait is counted from. That is the first
/// status of all or, where a first block is waited for, the first one that reports a block.
pub proof fn blocks_have_passed(
    cfg: ChainConfigView,
    n: u64,
    first_block: bool,
    answers: Seq<Answer<NodeStatusView, Seq<char>>>,
)
    requires
        is_wait_for_blocks(cfg, BlockPollView { n, first_block, target: None }, answers),
        blocks_after(cfg, BlockPollView { n, first_block, target: None }, answers).1
            == PollRequestView::Done(Ok(())),
    ensures
        exists|start: int| #[trigger]
            counts_from(answers, first_block, start) && height_of(answers.last()) >= height_of(
                answers[start],
            ) + n,
{
    let start = lemma_blocks(cfg, n, first_block, answers);
    assert(counts_from(answers, first_block, start));
}

/// The state of a wait for a time after the answers, and the request that is out then.
pub open spec fn time_after(
    cfg: ChainConfigView,
    poll: TimePollView,
    answers: Seq<Answer<NodeStatusView, Seq<char>>>,
) -> (TimePollView, PollRequestView)
    decreases answers.len(),
{
    if answers.len() == 0 {
        (poll, PollRequestView::Ask)
    } else {
        next_for_time(cfg, time_after(cfg, poll, answers.drop_last()).0, answers.last())
    }
}

/// Whether none of the answers came after the end of the wait for a time.
pub open spec fn is_wait_for_time(
    cfg: ChainConfigView,
    poll: TimePollView,
    answers: Seq<Answer<NodeStatusView, Seq<char>>>,
) -> bool
    decreases answers.len(),
{
    answers.len() > 0 ==> is_wait_for_time(cfg, poll, answers.drop_last()) && time_after(
        cfg,
        poll,
        answers.drop_last(),
    ).1 !is Done
}

proof fn lemma_time(
    cfg: ChainConfigView,
    n: u64,
    answers: Seq<Answer<NodeStatusView, Seq<char>>>,
)
    requires
        is_wait_for_time(cfg, TimePollView { n, target: None }, answers),
    ensures
        ({
            let poll = TimePollView { n, target: None };
            let (reached, request) = time_after(cfg, poll, answers);
            &&& reached.n == n
            &&& answers.len() > 0 && request !is Done ==> reached.target is Some
            &&& reached.target matches Some(target) ==> answers.len() > 0 && answers[0] is Reply
                && target == time_of(answers[0]) + n
            &&& request == PollRequestView::Done(Ok(())) ==> answers.len() >= 2
                && reached.target is Some && answers.last() is Reply && time_of(answers.last())
                >= reached.target->0
        }),
    decreases answers.len(),
{
    if answers.len() > 0 {
        let before = answers.drop_last();
        lemma_time(cfg, n, before);
        if before.len() > 0 {
            assert(before[0] == answers[0]);
        }
    }
}

/// A wait for a time succeeds only once the chain's own clock is `n` seconds past what its first
/// status reported, and never on the first status alone.
pub proof fn time_has_passed(
    cfg: ChainConfigView,
    n: u64,
    answers: Seq<Answer<NodeStatusView, Seq<char>>>,
)
    requires
        is_wait_for_time(cfg, TimePollView { n, target: None }, answers),
        time_after(cfg, TimePollView { n, target: None }, answers).1 == PollRequestView::Done(
            Ok(()),
        ),
    ensures
        answers.len() >= 2,
        time_of(answers.last()) >= time_of(answers[0]) + n,
{
    lemma_time(cfg, n, answers);
}

/// A wait that runs out of time reports that, and no hash: it has submitted nothing.
pub proof fn waiting_reports_no_hash(
    cfg: ChainConfigView,
    blocks: BlockPollView,
    time: TimePollView,
)
    ensures
        next_for_blocks(cfg, blocks, Answer::Deadline).1 == PollRequestView::Done(
            Err(ErrorView::Timeout { hash: None }),
        ),
        next_for_time(cfg, time, Answer::Deadline).1 == PollRequestView::Done(
            Err(ErrorView::Timeout { hash: None }),
        ),
{
}

/// Requests of a poll say all that they hold.
pub proof fn poll_requests_say_what_they_hold(end: Result<(), ProcessError>)
    ensures
        PollRequest::Ask@ == PollRequestView::Ask,
        PollRequest::Wait@ == PollRequestView::Wait,
        PollRequest::Done(end)@ == PollRequestView::Done(plain_outcome(end)),
{
}

/// Once the height to wait for is known, the first status at or above it ends the wait, and every
/// status below it lets the wait go on unchanged.
pub proof fn a_known_height_ends_the_wait(
    cfg: ChainConfigView,
    n: u64,
    first_block: bool,
    target: u64,
    answer: Answer<NodeStatusView, Seq<char>>,
)
    requires
        checked_status(cfg, answer) is Ok,
    ensures
        ({
            let poll = BlockPollView { n, first_block, target: Some(target) };
            &&& next_for_blocks(cfg, poll, answer).0 == poll
            &&& height_of(answer) >= target ==> next_for_blocks(cfg, poll, answer).1
                == PollRequestView::Done(Ok(()))
            &&& height_of(answer) < target ==> next_for_blocks(cfg, poll, answer).1
                == PollRequestView::Wait
        }),
{
}

/// The status that the wait is counted from fixes the height: `n` above its own. With no block to
/// wait for it ends the wait itself, and a height that has no 64 bits is refused.
pub proof fn the_height_is_counted_from_the_status(
    cfg: ChainConfigView,
    n: u64,
    first_block: bool,
    target: u64,
    answer: Answer<NodeStatusView, Seq<char>>,
)
    requires
        checked_status(cfg, answer) is Ok,
        first_block ==> height_of(answer) > 0,
    ensures
        ({
            let poll = BlockPollView { n, first_block, target: None };
            let counted = BlockPollView { n, first_block, target: Some(target) };
            &&& height_of(answer) + n == target && n > 0 ==> next_for_blocks(cfg, poll, answer) == (
                counted,
                PollRequestView::Wait,
            )
            &&& height_of(answer) + n == target && n == 0 ==> next_for_blocks(cfg, poll, answer)
                == (counted, PollRequestView::Done(Ok(())))
            &&& height_of(answer) + n > u64::MAX ==> next_for_blocks(cfg, poll, answer) == (
                poll,
                PollRequestView::Done(Err(ErrorView::Protocol("block target overflow"@))),
            )
        }),
{
}

/// A chain without a block is waited for, however often it says so, where a first block is asked
/// for.
pub proof fn the_first_block_is_waited_for(
    cfg: ChainConfigView,
    n: u64,
    answer: Answer<NodeStatusView, Seq<char>>,
)
    requires
        checked_status(cfg, answer) is Ok,
        height_of(answer) == 0,
    ensures
        ({
            let poll = BlockPollView { n, first_block: true, target: None };
            next_for_blocks(cfg, poll, answer) == (poll, PollRequestView::Wait)
        }),
{
}

/// A status that cannot be taken ends a wait with its reason, whatever is waited for.
pub proof fn a_failed_status_ends_the_wait(
    cfg: ChainConfigView,
    blocks: BlockPollView,
    time: TimePollView,
    answer: Answer<NodeStatusView, Seq<char>>,
    error: ErrorView,
)
    requires
        checked_status(cfg, answer) == Err::<NodeStatusView, _>(error),
    ensures
        next_for_blocks(cfg, blocks, answer) == (blocks, PollRequestView::Done(Err(error))),
        next_for_time(cfg, time, answer) == (time, PollRequestView::Done(Err(error))),
{
}

/// A wait for blocks goes on only as long as it has to. Where it goes on after the answers, either
/// the last of them reports a height that is less than `n` above the one that the wait is counted
/// from, or a first block is waited for and none of them reports one.
pub proof fn waiting_goes_on_only_below_the_height(
    cfg: ChainConfigView,
    n: u64,
    first_block: bool,
    answers: Seq<Answer<NodeStatusView, Seq<char>>>,
)
    requires
        answers.len() > 0,
        is_wait_for_blocks(cfg, BlockPollView { n, first_block, target: None }, answers),
        blocks_after(cfg, BlockPollView { n, first_block, target: None }, answers).1 !is Done,
    ensures
        blocks_after(cfg, BlockPollView { n, first_block, target: None }, answers).1
            == PollRequestView::Wait,
        (exists|start: int| #[trigger]
            counts_from(answers, first_block, start) && height_of(answers.last()) < height_of(
                answers[start],
            ) + n) || (first_block && forall|i: int|
            0 <= i < answers.len() ==> (#[trigger] answers[i]) is Reply && height_of(answers[i])
                == 0),
{
    let poll = BlockPollView { n, first_block, target: None };
    let start = lemma_blocks(cfg, n, first_block, answers);
    lemma_blocks(cfg, n, first_block, answers.drop_last());
    if blocks_after(cfg, poll, answers).0.target is Some {
        assert(counts_from(answers, first_block, start));
    } else {
        assert(answers[0] is Reply);
    }
}

/// A wait for blocks ends as soon as it may: where the last status reports a height that is at
/// least `n` above the one that the wait is counted from, the wait succeeds.
pub proof fn blocks_that_have_passed_end_the_wait(
    cfg: ChainConfigView,
    n: u64,
    first_block: bool,
    answers: Seq<Answer<NodeStatusView, Seq<char>>>,
    start: int,
)
    requires
        is_wait_for_blocks(cfg, BlockPollView { n, first_block, target: None }, answers),
        counts_from(answers, first_block, start),
        checked_status(cfg, answers.last()) is Ok,
        height_of(answers.last()) >= height_of(answers[start]) + n,
    ensures
        blocks_after(cfg, BlockPollView { n, first_block, target: None }, answers).1
            == PollRequestView::Done(Ok(())),
{
    let poll = BlockPollView { n, first_block, target: None };
    let before = answers.drop_last();
    let counted = lemma_blocks(cfg, n, first_block, answers);
    let earlier = lemma_blocks(cfg, n, first_block, before);
    let reached = blocks_after(cfg, poll, before).0;
    assert(forall|i: int| 0 <= i < before.len() ==> before[i] == answers[i]);
    if reached.target is Some {
        assert(counts_from(before, first_block, earlier));
        if earlier < start {
            assert(height_of(answers[earlier]) == 0);
        }
        if start < earlier {
            assert(height_of(before[start]) == 0);
        }
    } else {
        if start < before.len() {
            assert(before[start] is Reply && height_of(before[start]) == 0);
        }
    }
}

/// Once the time to wait for is known, the first status at or past it ends the wait, and every
/// status before it lets the wait go on unchanged.
pub proof fn a_known_time_ends_the_wait(
    cfg: ChainConfigView,
    n: u64,
    target: i64,
    answer: Answer<NodeStatusView, Seq<char>>,
)
    requires
        checked_status(cfg, answer) is Ok,
    ensures
        ({
            let poll = TimePollView { n, target: Some(target) };
            &&& next_for_time(cfg, poll, answer).0 == poll
            &&& time_of(answer) >= target ==> next_for_time(cfg, poll, answer).1
                == PollRequestView::Done(Ok(()))
            &&& time_of(answer) < target ==> next_for_time(cfg, poll, answer).1
                == PollRequestView::Wait
        }),
{
}

/// The first status fixes the time, `n` seconds past its own, and the node is asked again at once.
/// A time that has no 64 bits is refused.
pub proof fn the_time_is_counted_from_the_status(
    cfg: ChainConfigView,
    n: u64,
    target: i64,
    answer: Answer<NodeStatusView, Seq<char>>,
)
    requires
        checked_status(cfg, answer) is Ok,
    ensures
        ({
            let poll = TimePollView { n, target: None };
            &&& n <= i64::MAX && time_of(answer) + n == target ==> next_for_time(cfg, poll, answer)
                == (TimePollView { n, target: Some(target) }, PollRequestView::Ask)
            &&& n <= i64::MAX && time_of(answer) + n > i64::MAX ==> next_for_time(cfg, poll, answer)
                == (
                poll,
                PollRequestView::Done(Err(ErrorView::Protocol("block time target overflow"@))),
            )
            &&& n > i64::MAX ==> next_for_time(cfg, poll, answer) == (
                poll,
                PollRequestView::Done(
                    Err(ErrorView::Protocol("out of range integral type conversion attempted"@)),
                ),
            )
        }),
{
}

/// A wait for a time goes on only as long as it has to: it waits only where the last status reports
/// a time that is less than `n` seconds past the first one.
pub proof fn waiting_goes_on_only_before_the_time(
    cfg: ChainConfigView,
    n: u64,
    answers: Seq<Answer<NodeStatusView, Seq<char>>>,
)
    requires
        answers.len() > 1,
        is_wait_for_time(cfg, TimePollView { n, target: None }, answers),
        time_after(cfg, TimePollView { n, target: None }, answers).1 !is Done,
    ensures
        time_after(cfg, TimePollView { n, target: None }, answers).1 == PollRequestView::Wait,
        time_of(answers.last()) < time_of(answers[0]) + n,
{
    lemma_time(cfg, n, answers.drop_last());
    lemma_time(cfg, n, answers);
}

/// A wait for a time ends as soon as it may: where a later status reports a time that is at least
/// `n` seconds past the first one, the wait succeeds.
pub proof fn time_that_has_passed_ends_the_wait(
    cfg: ChainConfigView,
    n: u64,
    answers: Seq<Answer<NodeStatusView, Seq<char>>>,
)
    requires
        answers.len() > 1,
        is_wait_for_time(cfg, TimePollView { n, target: None }, answers),
        checked_status(cfg, answers.last()) is Ok,
        time_of(answers.last()) >= time_of(answers[0]) + n,
    ensures
        time_after(cfg, TimePollView { n, target: None }, answers).1 == PollRequestView::Done(
            Ok(()),
        ),
{
    lemma_time(cfg, n, answers.drop_last());
    lemma_time(cfg, n, answers);
}

} // verus!
