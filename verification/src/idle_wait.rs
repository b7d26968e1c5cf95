use vstd::prelude::*;

verus! {

/// Milliseconds to sleep before asking a wallet again about a pending request.
pub const POLL_INTERVAL_MILLIS: u64 = 500;

/// The two directions of a channel between two nodes.
#[derive(Debug, Clone, Copy, PartialEq, Eq)]
pub enum Side {
    /// The first node's wallet, asked about a request pending towards the second node.
    First,
    /// The second node's wallet, asked about a request pending towards the first node.
    Second,
}

/// Where a wait for an idle channel stands.
#[derive(Debug, Clone, Copy, PartialEq, Eq)]
pub enum IdleWait {
    /// Asking the wallet on the given side whether a request is still pending.
    Checking(Side),
    /// Neither side has a pending request: the channel is idle.
    Idle,
    /// A query failed; the wait ends with that error.
    Failed,
}

/// What a wallet answered when asked about a pending channel request.
#[derive(Debug, Clone, Copy, PartialEq, Eq)]
pub enum PendingReport {
    /// A transaction request is still pending.
    Pending,
    /// No transaction request is pending.
    NoPending,
    /// The query returned an error.
    QueryFailed,
}

/// What the caller does next for the wait.
#[derive(Debug, Clone, Copy, PartialEq, Eq)]
pub enum WaitAction {
    /// Ask the wallet on the given side at once.
    Query(Side),
    /// Sleep for the given number of milliseconds, then ask the wallet on the given side.
    SleepThenQuery(Side, u64),
    /// The channel is idle: the wait succeeds.
    Finished,
    /// A query failed: the wait returns its error.
    Abort,
}

/// The state a wait starts in.
pub open spec fn wait_start() -> IdleWait {
    IdleWait::Checking(Side::First)
}

/// One step of the wait: the next state and action after a report.
pub open spec fn wait_step(state: IdleWait, report: PendingReport) -> (IdleWait, WaitAction) {
    match state {
        IdleWait::Checking(side) => match report {
            PendingReport::Pending => (state, WaitAction::SleepThenQuery(side, POLL_INTERVAL_MILLIS)),
            PendingReport::NoPending => match side {
                Side::First => (IdleWait::Checking(Side::Second), WaitAction::Query(Side::Second)),
                Side::Second => (IdleWait::Idle, WaitAction::Finished),
            },
            PendingReport::QueryFailed => (IdleWait::Failed, WaitAction::Abort),
        },
        IdleWait::Idle => (IdleWait::Idle, WaitAction::Finished),
        IdleWait::Failed => (IdleWait::Failed, WaitAction::Abort),
    }
}

/// The state after a sequence of reports, starting from `state`.
pub open spec fn wait_run(state: IdleWait, reports: Seq<PendingReport>) -> IdleWait
    decreases reports.len(),
{
    if reports.len() == 0 {
        state
    } else {
        wait_run(wait_step(state, reports[0]).0, reports.drop_first())
    }
}

impl IdleWait {
    /// Begins a wait: the first node's wallet is asked first.
    pub fn start() -> (res: (IdleWait, WaitAction))
        ensures
            res.0 == wait_start(),
            res.1 == WaitAction::Query(Side::First),
    {
        (IdleWait::Checking(Side::First), WaitAction::Query(Side::First))
    }

    /// Takes the answer of the last query and says where the wait goes next.
    pub fn step(self, report: PendingReport) -> (res: (IdleWait, WaitAction))
        ensures
            res == wait_step(self, report),
            res.1 == WaitAction::Finished <==> res.0 == IdleWait::Idle,
            res.1 == WaitAction::Abort <==> res.0 == IdleWait::Failed,
            self is Checking && report == PendingReport::QueryFailed ==> res == (
            IdleWait::Failed,
            WaitAction::Abort,
            ),
    {
        proof {
            lemma_action_matches_outcome(self, report);
        }
        match self {
            IdleWait::Checking(side) => match report {
                PendingReport::Pending => (self, WaitAction::SleepThenQuery(side, POLL_INTERVAL_MILLIS)),
                PendingReport::NoPending => match side {
                    Side::First => (IdleWait::Checking(Side::Second), WaitAction::Query(Side::Second)),
                    Side::Second => (IdleWait::Idle, WaitAction::Finished),
                },
                PendingReport::QueryFailed => (IdleWait::Failed, WaitAction::Abort),
            },
            IdleWait::Idle => (IdleWait::Idle, WaitAction::Finished),
            IdleWait::Failed => (IdleWait::Failed, WaitAction::Abort),
        }
    }

    /// Whether the wait has ended, idle or failed.
    pub fn is_finished(&self) -> (b: bool)
        ensures
            b == !(*self is Checking),
    {
        match self {
            IdleWait::Checking(_) => false,
            _ => true,
        }
    }
}

/// A failed query, on either side, ends the wait with the action that returns the
/// query's error.
pub proof fn lemma_query_failure_aborts(side: Side)
    ensures
        wait_step(IdleWait::Checking(side), PendingReport::QueryFailed) == (
        IdleWait::Failed,
        WaitAction::Abort,
        ),
{
}

/// What the caller is told to do always matches where the wait went: it finishes
/// exactly when the wait is idle, aborts exactly when the wait failed, asks (or sleeps
/// and asks) exactly the wallet the wait is now checking, and sleeps only for the poll
/// interval on a pending report that left the wait where it was. A wait that is still
/// checking fails exactly on a failed query, and becomes idle exactly when the second
/// wallet reports nothing pending.
pub proof fn lemma_action_matches_outcome(state: IdleWait, report: PendingReport)
    ensures
        ({
            let (next, action) = wait_step(state, report);
            &&& (action == WaitAction::Finished <==> next == IdleWait::Idle)
            &&& (action == WaitAction::Abort <==> next == IdleWait::Failed)
            &&& (action matches WaitAction::Query(side) ==> next == IdleWait::Checking(side)
                && state == IdleWait::Checking(Side::First) && report == PendingReport::NoPending)
            &&& (action matches WaitAction::SleepThenQuery(side, millis) ==> next
                == IdleWait::Checking(side) && state == next && report == PendingReport::Pending
                && millis == 500)
            &&& (state is Checking ==> (next == IdleWait::Failed <==> report
                == PendingReport::QueryFailed))
            &&& (state is Checking ==> (next == IdleWait::Idle <==> state == IdleWait::Checking(
                Side::Second,
            ) && report == PendingReport::NoPending))
        }),
{
}

/// A pending request keeps the wait on the same side: the caller sleeps for the poll
/// interval and asks the same wallet again.
pub proof fn lemma_pending_polls_same_side(side: Side)
    ensures
        wait_step(IdleWait::Checking(side), PendingReport::Pending)
            == (IdleWait::Checking(side), WaitAction::SleepThenQuery(side, POLL_INTERVAL_MILLIS)),
{
}

/// An ended wait stays ended, whatever reports come after.
pub proof fn lemma_finished_wait_is_final(state: IdleWait, reports: Seq<PendingReport>)
    requires
        !(state is Checking),
    ensures
        wait_run(state, reports) == state,
    decreases reports.len(),
{
    if reports.len() > 0 {
        lemma_finished_wait_is_final(state, reports.drop_first());
    }
}

/// The number of "no pending request" reports that a state still needs before the
/// channel is idle.
pub open spec fn sides_left(state: IdleWait) -> nat {
    match state {
        IdleWait::Checking(Side::First) => 2,
        IdleWait::Checking(Side::Second) => 1,
        _ => 0,
    }
}

/// The number of "no pending request" reports in a sequence.
pub open spec fn no_pending_count(reports: Seq<PendingReport>) -> nat
    decreases reports.len(),
{
    if reports.len() == 0 {
        0
    } else {
        (if reports[0] == PendingReport::NoPending { 1nat } else { 0nat })
            + no_pending_count(reports.drop_first())
    }
}

proof fn lemma_idle_counts(state: IdleWait, reports: Seq<PendingReport>)
    requires
        state is Checking,
        wait_run(state, reports) == IdleWait::Idle,
    ensures
        no_pending_count(reports) >= sides_left(state),
    decreases reports.len(),
{
    if reports.len() > 0 {
        let next = wait_step(state, reports[0]).0;
        if next is Checking {
            lemma_idle_counts(next, reports.drop_first());
        } else if next is Failed {
            lemma_finished_wait_is_final(next, reports.drop_first());
        }
    }
}

/// A wait that started fresh ends idle only after both wallets have reported that
/// nothing is pending: at least two "no pending request" reports came in.
pub proof fn lemma_idle_needs_both_sides(reports: Seq<PendingReport>)
    requires
        wait_run(wait_start(), reports) == IdleWait::Idle,
    ensures
        no_pending_count(reports) >= 2,
{
    lemma_idle_counts(wait_start(), reports);
}

/// A failed query ends a wait that is still checking, and it stays failed whatever
/// reports follow.
pub proof fn lemma_failure_ends_wait(
    state: IdleWait,
    reports: Seq<PendingReport>,
)
    requires
        state is Checking,
    ensures
        wait_run(state, seq![PendingReport::QueryFailed] + reports) == IdleWait::Failed,
{
    let all = seq![PendingReport::QueryFailed] + reports;
    assert(all.drop_first() =~= reports);
    lemma_finished_wait_is_final(IdleWait::Failed, reports);
}

/// Two "no pending request" reports, one per side, make a fresh wait idle, however many
/// "pending" reports came before each of them.
pub proof fn lemma_both_sides_clear_make_idle(first_polls: nat, second_polls: nat)
    ensures
        wait_run(
            wait_start(),
            Seq::new(first_polls, |i: int| PendingReport::Pending)
                + seq![PendingReport::NoPending]
                + Seq::new(second_polls, |i: int| PendingReport::Pending)
                + seq![PendingReport::NoPending],
        ) == IdleWait::Idle,
{
    let tail = Seq::new(second_polls, |i: int| PendingReport::Pending) + seq![PendingReport::NoPending];
    lemma_polls_then(IdleWait::Checking(Side::Second), second_polls, seq![PendingReport::NoPending]);
    let all = Seq::new(first_polls, |i: int| PendingReport::Pending)
        + seq![PendingReport::NoPending]
        + Seq::new(second_polls, |i: int| PendingReport::Pending)
        + seq![PendingReport::NoPending];
    let after_first = seq![PendingReport::NoPending] + tail;
    assert(all =~= Seq::new(first_polls, |i: int| PendingReport::Pending) + after_first);
    lemma_polls_then(wait_start(), first_polls, after_first);
    assert(after_first.drop_first() =~= tail);
    assert(wait_run(wait_start(), after_first) == wait_run(IdleWait::Checking(Side::Second), tail));
    let last = seq![PendingReport::NoPending];
    assert(last.drop_first() =~= Seq::<PendingReport>::empty());
    assert(last[0] == PendingReport::NoPending);
    assert(wait_step(IdleWait::Checking(Side::Second), last[0]).0 == IdleWait::Idle);
    assert(wait_run(IdleWait::Idle, last.drop_first()) == IdleWait::Idle);
    assert(wait_run(IdleWait::Checking(Side::Second), last) == IdleWait::Idle);
}

proof fn lemma_polls_then(state: IdleWait, polls: nat, rest: Seq<PendingReport>)
    requires
        state is Checking,
    ensures
        wait_run(state, Seq::new(polls, |i: int| PendingReport::Pending) + rest) == wait_run(state, rest),
    decreases polls,
{
    if polls > 0 {
        let all = Seq::new(polls, |i: int| PendingReport::Pending) + rest;
        let shorter = Seq::new((polls - 1) as nat, |i: int| PendingReport::Pending) + rest;
        assert(all.drop_first() =~= shorter);
        assert(all[0] == PendingReport::Pending);
        lemma_polls_then(state, (polls - 1) as nat, rest);
    }
}

} // verus!
