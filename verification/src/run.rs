//! Whole exchanges: what a series of replies leads to, and what holds of
//! every such series.

use vstd::prelude::*;
use crate::error::{Error, Poll};
use crate::protocol::{KeyId, Phase, Reply, Request, State, Step};

verus! {

/// What a series of replies came to.
pub struct Run<E> {
    /// The state after the last reply that was taken.
    pub state: State,
    /// The requests that were answered, in order.
    pub requests: Seq<Request>,
    /// The result of the operation, if it has ended.
    pub outcome: Option<Poll<Error<E>>>,
}

impl<E> Run<E> {
    /// This run, and `next` begun where it ended.
    pub open spec fn followed_by(self, next: Run<E>) -> Run<E> {
        Run { state: next.state, requests: self.requests + next.requests, outcome: next.outcome }
    }
}

/// `n` times `a`.
pub open spec fn repeat<A>(a: A, n: nat) -> Seq<A> {
    Seq::new(n, |i: int| a)
}

/// Hands `replies` to the exchange one by one, beginning at `state`. The run
/// stops when the operation ends, when the replies are used up, or before a
/// reply that does not answer the outstanding request.
pub open spec fn run<E>(state: State, replies: Seq<Reply<E>>) -> Run<E>
    decreases replies.len(),
{
    if replies.len() == 0 || !state.accepts(replies[0]) {
        Run { state, requests: Seq::empty(), outcome: None }
    } else {
        let (next, step) = state.advance(replies[0]);
        let request = state.phase.pending().unwrap();
        match step {
            Step::Finished(result) => Run {
                state: next,
                requests: seq![request],
                outcome: Some(result),
            },
            Step::Perform(_) => Run {
                state: state,
                requests: seq![request],
                outcome: None,
            }.followed_by(run(next, replies.skip(1))),
        }
    }
}

/// A run over `first + rest` is the run over `first`, then the run over
/// `rest`, when `first` is taken whole and does not end the operation.
pub proof fn lemma_run_append<E>(state: State, first: Seq<Reply<E>>, rest: Seq<Reply<E>>)
    requires
        run(state, first).outcome is None,
        run(state, first).requests.len() == first.len(),
    ensures
        run(state, first + rest) == run(state, first).followed_by(run(run(state, first).state, rest)),
    decreases first.len(),
{
    if first.len() > 0 {
        let all = first + rest;
        assert(all.skip(1) =~= first.skip(1) + rest);
        let (next, step) = state.advance(first[0]);
        let tail = run(next, first.skip(1));
        lemma_run_append(next, first.skip(1), rest);
        let request = state.phase.pending().unwrap();
        assert((seq![request] + tail.requests) + run(tail.state, rest).requests
            =~= seq![request] + (tail.requests + run(tail.state, rest).requests));
    }
}

/// In a wait inside `configure`, `n` busy answers within the bound are each
/// followed by another sample, and only the count of those left changes.
pub proof fn lemma_busy_wait<E>(state: State, n: nat)
    requires
        state.phase is StartWait || state.phase is ComputeWait,
        n <= state.left,
    ensures
        run::<E>(state, repeat(Reply::Busy(true), n)) == (Run::<E> {
            state: State {
                left: (state.left - n) as u32,
                busy: n > 0 || state.busy,
                ..state
            },
            requests: repeat(Request::QueryBusy, n),
            outcome: None,
        }),
    decreases n,
{
    let replies = repeat(Reply::<E>::Busy(true), n);
    if n == 0 {
        assert(repeat(Request::QueryBusy, n) =~= Seq::empty());
    } else {
        let next = State { left: (state.left - 1) as u32, busy: true, ..state };
        assert(replies.skip(1) =~= repeat(Reply::<E>::Busy(true), (n - 1) as nat));
        lemma_busy_wait::<E>(next, (n - 1) as nat);
        assert(seq![Request::QueryBusy] + repeat(Request::QueryBusy, (n - 1) as nat)
            =~= repeat(Request::QueryBusy, n));
    }
}

/// While the keyed-hash engine answers would-block within the bound, its
/// configuration is asked again, and only the count of answers left changes.
pub proof fn lemma_hmac_wait<E>(state: State, key_id: KeyId, n: nat)
    requires
        state.phase == Phase::HmacConfigure(key_id),
        n <= state.left,
    ensures
        run::<E>(state, repeat(Reply::Hmac(Poll::WouldBlock), n)) == (Run::<E> {
            state: State { left: (state.left - n) as u32, ..state },
            requests: repeat(Request::HmacConfigure(key_id), n),
            outcome: None,
        }),
    decreases n,
{
    let replies = repeat(Reply::<E>::Hmac(Poll::WouldBlock), n);
    if n == 0 {
        assert(repeat(Request::HmacConfigure(key_id), n) =~= Seq::empty());
    } else {
        let next = State { left: (state.left - 1) as u32, ..state };
        assert(replies.skip(1) =~= repeat(Reply::<E>::Hmac(Poll::WouldBlock), (n - 1) as nat));
        lemma_hmac_wait::<E>(next, key_id, (n - 1) as nat);
        assert(seq![Request::HmacConfigure(key_id)] + repeat(
            Request::HmacConfigure(key_id),
            (n - 1) as nat,
        ) =~= repeat(Request::HmacConfigure(key_id), n));
    }
}

/// One more reply after a run that was taken whole and has not ended the
/// operation: the run goes on by the rule of the exchange.
pub proof fn lemma_run_push<E>(state: State, replies: Seq<Reply<E>>, reply: Reply<E>)
    requires
        run(state, replies).outcome is None,
        run(state, replies).requests.len() == replies.len(),
        run(state, replies).state.accepts(reply),
    ensures
        ({
            let before = run(state, replies);
            let (next, step) = before.state.advance(reply);
            run(state, replies.push(reply)) == (Run::<E> {
                state: next,
                requests: before.requests.push(before.state.phase.pending().unwrap()),
                outcome: match step {
                    Step::Finished(result) => Some(result),
                    Step::Perform(_) => None,
                },
            })
        }),
{
    let before = run(state, replies);
    let last = seq![reply];
    assert(run(before.state.advance(reply).0, last.skip(1)).requests =~= Seq::empty());
    lemma_run_append(state, replies, last);
    assert(replies + last =~= replies.push(reply));
    let request = before.state.phase.pending().unwrap();
    assert(before.requests + seq![request] =~= before.requests.push(request));
}

/// The most requests that the operation under way can still make, however
/// the hardware answers.
pub open spec fn budget(state: State) -> nat {
    let limits = state.limits;
    match state.phase {
        Phase::Idle | Phase::Configured | Phase::Failed => 0,
        Phase::EnableEngine => 2,
        Phase::ReadKeyMismatch => 1,
        Phase::HmacInit(_) => (limits.hmac + limits.start + limits.compute + 8) as nat,
        Phase::HmacConfigure(_) => (state.left + limits.start + limits.compute + 7) as nat,
        Phase::AssertStart => (limits.start + limits.compute + 6) as nat,
        Phase::StartWait => (state.left + limits.compute + 5) as nat,
        Phase::ReadDiagnostics => (limits.compute + 4) as nat,
        Phase::LoadParameters => (limits.compute + 3) as nat,
        Phase::AssertCompute => (limits.compute + 2) as nat,
        Phase::ComputeWait => (state.left + 1) as nat,
        Phase::AssertFinish => 3,
        Phase::FinishWait => 2,
        Phase::ReadFaults => 1,
        Phase::ResetEngine => 1,
    }
}

/// Every reply that is taken uses up some of the budget: where the
/// operation goes on, less is left than before.
pub proof fn law_advance_spends_budget<E>(state: State, reply: Reply<E>)
    requires
        state.accepts(reply),
    ensures
        budget(state) >= 1,
        state.advance(reply).1 is Perform ==> budget(state.advance(reply).0) < budget(state),
        state.advance(reply).1 is Perform ==> state.advance(reply).0.phase.pending() is Some,
{
}

/// No run makes more requests than the budget of the state it begins in,
/// and a run that has not ended the operation has made fewer: whatever the
/// hardware answers, no operation goes on for ever.
pub proof fn law_run_is_bounded<E>(state: State, replies: Seq<Reply<E>>)
    ensures
        run(state, replies).requests.len() <= budget(state),
        run(state, replies).outcome is None && state.phase.pending() is Some ==> run(
            state,
            replies,
        ).requests.len() < budget(state),
    decreases replies.len(),
{
    if replies.len() > 0 && state.accepts(replies[0]) {
        law_advance_spends_budget(state, replies[0]);
        law_run_is_bounded(state.advance(replies[0]).0, replies.skip(1));
    }
}

/// Nothing but a reset lets go of the block, and nothing changes the
/// bounds: a run that does not begin in a reset ends with the block and the
/// bounds it began with.
pub proof fn law_run_keeps_block<E>(state: State, replies: Seq<Reply<E>>)
    requires
        !(state.phase is ResetEngine),
    ensures
        run(state, replies).state.block == state.block,
        run(state, replies).state.limits == state.limits,
        !(run(state, replies).state.phase is ResetEngine),
    decreases replies.len(),
{
    if replies.len() > 0 && state.accepts(replies[0]) {
        let (next, step) = state.advance(replies[0]);
        if step is Perform {
            law_run_keeps_block(next, replies.skip(1));
        }
    }
}

/// Would-block is the answer of a completion poll only: a run that begins
/// anywhere but inside `finalize` never ends with it.
pub proof fn law_only_finalize_would_block<E>(state: State, replies: Seq<Reply<E>>)
    requires
        !(state.phase is AssertFinish),
        !(state.phase is FinishWait),
    ensures
        !(run(state, replies).outcome matches Some(Poll::WouldBlock)),
    decreases replies.len(),
{
    if replies.len() > 0 && state.accepts(replies[0]) {
        let (next, step) = state.advance(replies[0]);
        if step is Perform {
            law_only_finalize_would_block(next, replies.skip(1));
        }
    }
}

} // verus!
