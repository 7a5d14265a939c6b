//! What holds of every signing sequence.
//!
//! The hardware is free in how long it stays busy and in what its latches
//! say. Each law here fixes those choices by its parameters and states what
//! the driver asks for and how the operation ends.

use vstd::prelude::*;
use crate::data::DsData;
use crate::error::{Error, Poll};
use crate::protocol::{
    verdict, FaultLatches, KeyId, Phase, PollLimits, Reply, Request, State, Step,
};
use crate::run::{
    law_run_is_bounded, lemma_busy_wait, lemma_hmac_wait, lemma_run_append, lemma_run_push, repeat,
    run, Run,
};

verus! {

/// The replies up to the keyed-hash engine's last answer, where the engine
/// first answers would-block `hmac_blocks` times.
pub open spec fn replies_to_hmac<E>(hmac_blocks: nat) -> Seq<Reply<E>> {
    seq![Reply::Done] + repeat(Reply::Hmac(Poll::WouldBlock), hmac_blocks)
}

/// The requests that [`replies_to_hmac`] answers.
pub open spec fn requests_to_hmac(key_id: KeyId, hmac_blocks: nat) -> Seq<Request> {
    seq![Request::HmacInit] + repeat(Request::HmacConfigure(key_id), hmac_blocks)
}

/// The replies up to the last sample of the wait after the start signal,
/// where the keyed-hash engine accepts after `hmac_blocks` would-block
/// answers and the signature engine is first busy `start_busy` times.
pub open spec fn replies_to_start<E>(hmac_blocks: nat, start_busy: nat) -> Seq<Reply<E>> {
    replies_to_hmac(hmac_blocks) + seq![Reply::Hmac(Poll::Ready), Reply::Done] + repeat(
        Reply::Busy(true),
        start_busy,
    )
}

/// The requests that [`replies_to_start`] answers.
pub open spec fn requests_to_start(key_id: KeyId, hmac_blocks: nat, start_busy: nat) -> Seq<
    Request,
> {
    requests_to_hmac(key_id, hmac_blocks) + seq![
        Request::HmacConfigure(key_id),
        Request::AssertStart,
    ] + repeat(Request::QueryBusy, start_busy)
}

/// The state in the wait for the keyed-hash engine, after `hmac_blocks`
/// would-block answers.
pub open spec fn state_at_hmac(state: State, key_id: KeyId, data: DsData, hmac_blocks: nat) -> State {
    State {
        phase: Phase::HmacConfigure(key_id),
        left: (state.limits.hmac - hmac_blocks) as u32,
        block: Some(data),
        ..state
    }
}

/// The state in the wait after the start signal, after `start_busy` busy
/// samples.
pub open spec fn state_at_start(state: State, data: DsData, start_busy: nat) -> State {
    State {
        phase: Phase::StartWait,
        left: (state.limits.start - start_busy) as u32,
        busy: start_busy > 0 || state.busy,
        block: Some(data),
        ..state
    }
}

/// Up to the keyed-hash engine's last would-block answer, the driver has
/// initialized that engine once and asked for its configuration once for
/// each answer.
pub proof fn lemma_run_to_hmac<E>(state: State, key_id: KeyId, data: DsData, hmac_blocks: nat)
    requires
        data@.well_formed(),
        hmac_blocks <= state.limits.hmac,
    ensures
        run::<E>(state.configure::<E>(key_id, data).0, replies_to_hmac(hmac_blocks)) == (Run::<E> {
            state: state_at_hmac(state, key_id, data, hmac_blocks),
            requests: requests_to_hmac(key_id, hmac_blocks),
            outcome: None,
        }),
{
    let begun = state.configure::<E>(key_id, data).0;
    let none = Seq::<Reply<E>>::empty();
    lemma_run_push(begun, none, Reply::<E>::Done);
    let first = seq![Reply::<E>::Done];
    let at_hmac = state_at_hmac(state, key_id, data, 0);
    lemma_hmac_wait::<E>(at_hmac, key_id, hmac_blocks);
    lemma_run_append(begun, first, repeat(Reply::<E>::Hmac(Poll::WouldBlock), hmac_blocks));
}

/// Up to the last busy sample after the start signal, the driver has gone
/// through the keyed-hash engine, asserted the start signal once and
/// sampled the busy bit once for each busy answer.
pub proof fn lemma_run_to_start<E>(
    state: State,
    key_id: KeyId,
    data: DsData,
    hmac_blocks: nat,
    start_busy: nat,
)
    requires
        data@.well_formed(),
        hmac_blocks <= state.limits.hmac,
        start_busy <= state.limits.start,
    ensures
        run::<E>(
            state.configure::<E>(key_id, data).0,
            replies_to_start(hmac_blocks, start_busy),
        ) == (Run::<E> {
            state: state_at_start(state, data, start_busy),
            requests: requests_to_start(key_id, hmac_blocks, start_busy),
            outcome: None,
        }),
{
    let begun = state.configure::<E>(key_id, data).0;
    let r0 = replies_to_hmac::<E>(hmac_blocks);
    let q0 = requests_to_hmac(key_id, hmac_blocks);
    lemma_run_to_hmac::<E>(state, key_id, data, hmac_blocks);
    lemma_run_push(begun, r0, Reply::<E>::Hmac(Poll::Ready));
    let r1 = r0.push(Reply::<E>::Hmac(Poll::Ready));
    let q1 = q0.push(Request::HmacConfigure(key_id));
    lemma_run_push(begun, r1, Reply::<E>::Done);
    let r2 = r1.push(Reply::<E>::Done);
    let q2 = q1.push(Request::AssertStart);
    let at_start = state_at_start(state, data, 0);
    lemma_busy_wait::<E>(at_start, start_busy);
    lemma_run_append(begun, r2, repeat(Reply::<E>::Busy(true), start_busy));
    assert(r2 =~= r0 + seq![Reply::<E>::Hmac(Poll::Ready), Reply::<E>::Done]);
    assert(q2 =~= q0 + seq![Request::HmacConfigure(key_id), Request::AssertStart]);
}

/// The replies up to the last busy sample of the wait after the compute
/// signal, where in addition the diagnostic read gives `diagnostics` (the
/// busy bit, then the key-mismatch bit) and the engine is first busy
/// `compute_busy` times after the compute signal.
pub open spec fn replies_to_compute<E>(
    hmac_blocks: nat,
    start_busy: nat,
    diagnostics: (bool, bool),
    compute_busy: nat,
) -> Seq<Reply<E>> {
    replies_to_start(hmac_blocks, start_busy) + seq![
        Reply::Busy(false),
        Reply::Diagnostics { busy: diagnostics.0, key_mismatch: diagnostics.1 },
        Reply::Done,
        Reply::Done,
    ] + repeat(Reply::Busy(true), compute_busy)
}

/// The requests that [`replies_to_compute`] answers.
pub open spec fn requests_to_compute(
    key_id: KeyId,
    hmac_blocks: nat,
    start_busy: nat,
    compute_busy: nat,
) -> Seq<Request> {
    requests_to_start(key_id, hmac_blocks, start_busy) + seq![
        Request::QueryBusy,
        Request::ReadDiagnostics,
        Request::LoadParameters,
        Request::AssertCompute,
    ] + repeat(Request::QueryBusy, compute_busy)
}

/// The state in the wait after the compute signal, after `compute_busy`
/// busy samples.
pub open spec fn state_at_compute(
    state: State,
    data: DsData,
    diagnostics: (bool, bool),
    compute_busy: nat,
) -> State {
    State {
        phase: Phase::ComputeWait,
        left: (state.limits.compute - compute_busy) as u32,
        busy: compute_busy > 0 || diagnostics.0,
        key_mismatch: diagnostics.1,
        block: Some(data),
        ..state
    }
}

/// Up to the last busy sample after the compute signal, the driver has
/// waited for the start to settle, read the diagnostics, had the block
/// loaded, asserted the compute signal, and sampled the busy bit once for
/// each busy answer: the block is loaded after the start signal and before
/// the compute signal.
pub proof fn lemma_run_to_compute<E>(
    state: State,
    key_id: KeyId,
    data: DsData,
    hmac_blocks: nat,
    start_busy: nat,
    diagnostics: (bool, bool),
    compute_busy: nat,
)
    requires
        data@.well_formed(),
        hmac_blocks <= state.limits.hmac,
        start_busy <= state.limits.start,
        compute_busy <= state.limits.compute,
    ensures
        run::<E>(
            state.configure::<E>(key_id, data).0,
            replies_to_compute(hmac_blocks, start_busy, diagnostics, compute_busy),
        ) == (Run::<E> {
            state: state_at_compute(state, data, diagnostics, compute_busy),
            requests: requests_to_compute(key_id, hmac_blocks, start_busy, compute_busy),
            outcome: None,
        }),
{
    let begun = state.configure::<E>(key_id, data).0;
    let r0 = replies_to_start::<E>(hmac_blocks, start_busy);
    let q0 = requests_to_start(key_id, hmac_blocks, start_busy);
    lemma_run_to_start::<E>(state, key_id, data, hmac_blocks, start_busy);
    lemma_run_push(begun, r0, Reply::<E>::Busy(false));
    let r1 = r0.push(Reply::<E>::Busy(false));
    let q1 = q0.push(Request::QueryBusy);
    let read = Reply::<E>::Diagnostics { busy: diagnostics.0, key_mismatch: diagnostics.1 };
    lemma_run_push(begun, r1, read);
    let r2 = r1.push(read);
    let q2 = q1.push(Request::ReadDiagnostics);
    lemma_run_push(begun, r2, Reply::<E>::Done);
    let r3 = r2.push(Reply::<E>::Done);
    let q3 = q2.push(Request::LoadParameters);
    lemma_run_push(begun, r3, Reply::<E>::Done);
    let r4 = r3.push(Reply::<E>::Done);
    let q4 = q3.push(Request::AssertCompute);
    let at_compute = state_at_compute(state, data, diagnostics, 0);
    lemma_busy_wait::<E>(at_compute, compute_busy);
    lemma_run_append(begun, r4, repeat(Reply::<E>::Busy(true), compute_busy));
    assert(r4 =~= r0 + seq![Reply::<E>::Busy(false), read, Reply::<E>::Done, Reply::<E>::Done]);
    assert(q4 =~= q0 + seq![
        Request::QueryBusy,
        Request::ReadDiagnostics,
        Request::LoadParameters,
        Request::AssertCompute,
    ]);
}

/// A block whose length hint is out of range is refused with
/// `InvalidParam`, the driver stays as it was, and whatever replies are
/// offered then, none is taken: no request was made of the hardware.
pub proof fn law_configure_refuses_bad_length<E>(
    state: State,
    key_id: KeyId,
    data: DsData,
    replies: Seq<Reply<E>>,
)
    requires
        state.phase is Idle,
        !data@.well_formed(),
    ensures
        state.configure::<E>(key_id, data) == (
            state,
            Step::<E>::Finished(Poll::Failed(Error::InvalidParam)),
        ),
        run(state.configure::<E>(key_id, data).0, replies).requests == Seq::<Request>::empty(),
{
}

/// With a block in range, a keyed-hash engine that accepts within its bound
/// and a signature engine that comes to rest within its bounds, `configure`
/// succeeds. The driver has then made exactly the requests of the sequence,
/// in order, holds the block, and is ready for `finalize` with the whole
/// bound of would-block answers before it.
pub proof fn law_configure_completes<E>(
    state: State,
    key_id: KeyId,
    data: DsData,
    hmac_blocks: nat,
    start_busy: nat,
    diagnostics: (bool, bool),
    compute_busy: nat,
)
    requires
        state.phase is Idle,
        data@.well_formed(),
        hmac_blocks <= state.limits.hmac,
        start_busy <= state.limits.start,
        compute_busy <= state.limits.compute,
    ensures
        run::<E>(
            state.configure::<E>(key_id, data).0,
            replies_to_compute(hmac_blocks, start_busy, diagnostics, compute_busy).push(
                Reply::Busy(false),
            ),
        ) == (Run::<E> {
            state: State {
                phase: Phase::Configured,
                left: state.limits.finish,
                busy: false,
                key_mismatch: diagnostics.1,
                block: Some(data),
                ..state
            },
            requests: requests_to_compute(key_id, hmac_blocks, start_busy, compute_busy).push(
                Request::QueryBusy,
            ),
            outcome: Some(Poll::Ready),
        }),
{
    let begun = state.configure::<E>(key_id, data).0;
    let replies = replies_to_compute::<E>(hmac_blocks, start_busy, diagnostics, compute_busy);
    lemma_run_to_compute::<E>(state, key_id, data, hmac_blocks, start_busy, diagnostics, compute_busy);
    lemma_run_push(begun, replies, Reply::<E>::Busy(false));
}

/// An error of the keyed-hash engine ends `configure` with that error inside
/// `Hmac`, whatever it is and after however many would-block answers within
/// the bound. Nothing is asked of the signature engine, and the driver is
/// left failed.
pub proof fn law_configure_passes_hmac_error<E>(
    state: State,
    key_id: KeyId,
    data: DsData,
    hmac_blocks: nat,
    error: E,
)
    requires
        state.phase is Idle,
        data@.well_formed(),
        hmac_blocks <= state.limits.hmac,
    ensures
        run::<E>(
            state.configure::<E>(key_id, data).0,
            replies_to_hmac(hmac_blocks).push(Reply::Hmac(Poll::Failed(error))),
        ) == (Run::<E> {
            state: state_at_hmac(state, key_id, data, hmac_blocks).at(Phase::Failed),
            requests: requests_to_hmac(key_id, hmac_blocks).push(Request::HmacConfigure(key_id)),
            outcome: Some(Poll::Failed(Error::Hmac(error))),
        }),
{
    let begun = state.configure::<E>(key_id, data).0;
    let replies = replies_to_hmac::<E>(hmac_blocks);
    lemma_run_to_hmac::<E>(state, key_id, data, hmac_blocks);
    lemma_run_push(begun, replies, Reply::<E>::Hmac(Poll::Failed(error)));
}

/// A keyed-hash engine that answers would-block once more than its bound
/// allows ends `configure` with `Timeout`, after one initialization and one
/// configuration attempt for each answer. The driver is left failed.
pub proof fn law_configure_times_out_on_hmac<E>(state: State, key_id: KeyId, data: DsData)
    requires
        state.phase is Idle,
        data@.well_formed(),
    ensures
        run::<E>(
            state.configure::<E>(key_id, data).0,
            replies_to_hmac(state.limits.hmac as nat).push(Reply::Hmac(Poll::WouldBlock)),
        ) == (Run::<E> {
            state: state_at_hmac(state, key_id, data, state.limits.hmac as nat).at(Phase::Failed),
            requests: requests_to_hmac(key_id, state.limits.hmac as nat).push(
                Request::HmacConfigure(key_id),
            ),
            outcome: Some(Poll::Failed(Error::Timeout)),
        }),
{
    let begun = state.configure::<E>(key_id, data).0;
    let hmac_blocks = state.limits.hmac as nat;
    let replies = replies_to_hmac::<E>(hmac_blocks);
    lemma_run_to_hmac::<E>(state, key_id, data, hmac_blocks);
    lemma_run_push(begun, replies, Reply::<E>::Hmac(Poll::WouldBlock));
}

/// A signature engine that is busy after the start signal for one sample
/// more than its bound allows ends `configure` with `Timeout`. The block
/// has not been loaded and the compute signal not asserted.
pub proof fn law_configure_times_out_after_start<E>(
    state: State,
    key_id: KeyId,
    data: DsData,
    hmac_blocks: nat,
)
    requires
        state.phase is Idle,
        data@.well_formed(),
        hmac_blocks <= state.limits.hmac,
    ensures
        run::<E>(
            state.configure::<E>(key_id, data).0,
            replies_to_start(hmac_blocks, state.limits.start as nat).push(Reply::Busy(true)),
        ) == (Run::<E> {
            state: State {
                phase: Phase::Failed,
                busy: true,
                ..state_at_start(state, data, state.limits.start as nat)
            },
            requests: requests_to_start(key_id, hmac_blocks, state.limits.start as nat).push(
                Request::QueryBusy,
            ),
            outcome: Some(Poll::Failed(Error::Timeout)),
        }),
{
    let begun = state.configure::<E>(key_id, data).0;
    let start_busy = state.limits.start as nat;
    let replies = replies_to_start::<E>(hmac_blocks, start_busy);
    lemma_run_to_start::<E>(state, key_id, data, hmac_blocks, start_busy);
    lemma_run_push(begun, replies, Reply::<E>::Busy(true));
}

/// A signature engine that is busy after the compute signal for one sample
/// more than its bound allows ends `configure` with `Timeout`.
pub proof fn law_configure_times_out_after_compute<E>(
    state: State,
    key_id: KeyId,
    data: DsData,
    hmac_blocks: nat,
    start_busy: nat,
    diagnostics: (bool, bool),
)
    requires
        state.phase is Idle,
        data@.well_formed(),
        hmac_blocks <= state.limits.hmac,
        start_busy <= state.limits.start,
    ensures
        run::<E>(
            state.configure::<E>(key_id, data).0,
            replies_to_compute(
                hmac_blocks,
                start_busy,
                diagnostics,
                state.limits.compute as nat,
            ).push(Reply::Busy(true)),
        ) == (Run::<E> {
            state: State {
                phase: Phase::Failed,
                busy: true,
                ..state_at_compute(state, data, diagnostics, state.limits.compute as nat)
            },
            requests: requests_to_compute(
                key_id,
                hmac_blocks,
                start_busy,
                state.limits.compute as nat,
            ).push(Request::QueryBusy),
            outcome: Some(Poll::Failed(Error::Timeout)),
        }),
{
    let begun = state.configure::<E>(key_id, data).0;
    let compute_busy = state.limits.compute as nat;
    let replies = replies_to_compute::<E>(hmac_blocks, start_busy, diagnostics, compute_busy);
    lemma_run_to_compute::<E>(state, key_id, data, hmac_blocks, start_busy, diagnostics, compute_busy);
    lemma_run_push(begun, replies, Reply::<E>::Busy(true));
}

/// The requests of one completion poll that finds the engine busy.
pub open spec fn busy_poll_requests() -> Seq<Request> {
    seq![Request::AssertFinish, Request::QueryBusy]
}

/// The requests of one completion poll that finds the engine at rest.
pub open spec fn last_poll_requests() -> Seq<Request> {
    seq![Request::AssertFinish, Request::QueryBusy, Request::ReadFaults]
}

/// One completion poll that finds the engine busy.
pub open spec fn busy_poll<E>(state: State) -> Run<E> {
    run(state.finalize::<E>().0, seq![Reply::Done, Reply::Busy(true)])
}

/// One completion poll that finds the engine at rest, with `faults` in its
/// latches.
pub open spec fn last_poll<E>(state: State, faults: FaultLatches) -> Run<E> {
    run(state.finalize::<E>().0, seq![Reply::Done, Reply::Busy(false), Reply::Faults(faults)])
}

/// `finalize` on a busy engine, while the bound allows, answers would-block.
/// It has asserted the finish signal once and sampled the busy bit once.
/// The driver is configured as before, with one would-block answer less
/// before it, so the poll may be made again.
pub proof fn law_finalize_would_block<E>(state: State)
    requires
        state.phase is Configured,
        state.left > 0,
    ensures
        busy_poll::<E>(state) == (Run::<E> {
            state: State { left: (state.left - 1) as u32, busy: true, ..state },
            requests: busy_poll_requests(),
            outcome: Some(Poll::WouldBlock),
        }),
{
    let begun = state.finalize::<E>().0;
    let none = Seq::<Reply<E>>::empty();
    lemma_run_push(begun, none, Reply::<E>::Done);
    let r1 = none.push(Reply::<E>::Done);
    lemma_run_push(begun, r1, Reply::<E>::Busy(true));
    assert(r1.push(Reply::<E>::Busy(true)) =~= seq![Reply::<E>::Done, Reply::<E>::Busy(true)]);
    assert(Seq::<Request>::empty().push(Request::AssertFinish).push(Request::QueryBusy)
        =~= busy_poll_requests());
}

/// `finalize` on a busy engine, once the bound is used up, fails with
/// `Timeout` and leaves the driver failed.
pub proof fn law_finalize_times_out<E>(state: State)
    requires
        state.phase is Configured,
        state.left == 0,
    ensures
        busy_poll::<E>(state) == (Run::<E> {
            state: State { phase: Phase::Failed, busy: true, ..state },
            requests: busy_poll_requests(),
            outcome: Some(Poll::Failed(Error::Timeout)),
        }),
{
    let begun = state.finalize::<E>().0;
    let none = Seq::<Reply<E>>::empty();
    lemma_run_push(begun, none, Reply::<E>::Done);
    let r1 = none.push(Reply::<E>::Done);
    lemma_run_push(begun, r1, Reply::<E>::Busy(true));
    assert(r1.push(Reply::<E>::Busy(true)) =~= seq![Reply::<E>::Done, Reply::<E>::Busy(true)]);
    assert(Seq::<Request>::empty().push(Request::AssertFinish).push(Request::QueryBusy)
        =~= busy_poll_requests());
}

/// `finalize` on an engine at rest reads the fault latches and ends with
/// what they stand for: `InvalidPadding` if the padding latch is set,
/// else `InvalidDigest` if the digest latch is set, else success. The
/// driver is at rest afterwards.
pub proof fn law_finalize_reports_latches<E>(state: State, faults: FaultLatches)
    requires
        state.phase is Configured,
    ensures
        last_poll::<E>(state, faults) == (Run::<E> {
            state: State { phase: Phase::Idle, busy: false, ..state },
            requests: last_poll_requests(),
            outcome: Some(verdict(faults)),
        }),
        faults.padding_bad ==> last_poll::<E>(state, faults).outcome == Some(
            Poll::<Error<E>>::Failed(Error::InvalidPadding),
        ),
        !faults.padding_bad && faults.digest_bad ==> last_poll::<E>(state, faults).outcome
            == Some(Poll::<Error<E>>::Failed(Error::InvalidDigest)),
        !faults.padding_bad && !faults.digest_bad ==> last_poll::<E>(state, faults).outcome
            == Some(Poll::<Error<E>>::Ready),
{
    let begun = state.finalize::<E>().0;
    let none = Seq::<Reply<E>>::empty();
    lemma_run_push(begun, none, Reply::<E>::Done);
    let r1 = none.push(Reply::<E>::Done);
    lemma_run_push(begun, r1, Reply::<E>::Busy(false));
    let r2 = r1.push(Reply::<E>::Busy(false));
    lemma_run_push(begun, r2, Reply::<E>::Faults(faults));
    assert(r2.push(Reply::<E>::Faults(faults)) =~= seq![
        Reply::<E>::Done,
        Reply::<E>::Busy(false),
        Reply::<E>::Faults(faults),
    ]);
    assert(Seq::<Request>::empty().push(Request::AssertFinish).push(Request::QueryBusy).push(
        Request::ReadFaults,
    ) =~= last_poll_requests());
}

/// The polls of a caller that calls `finalize` again after each would-block
/// answer, where the engine is found busy `busy_polls` times and then at
/// rest with `faults` in its latches. The run ends early where a poll ends
/// otherwise than with would-block.
pub open spec fn polls<E>(state: State, busy_polls: nat, faults: FaultLatches) -> Run<E>
    decreases busy_polls,
{
    if busy_polls == 0 {
        last_poll(state, faults)
    } else {
        let first = busy_poll::<E>(state);
        if first.outcome matches Some(Poll::WouldBlock) {
            first.followed_by(polls(first.state, (busy_polls - 1) as nat, faults))
        } else {
            first
        }
    }
}

/// The requests of `n` polls that find the engine busy.
pub open spec fn busy_polls_requests(n: nat) -> Seq<Request>
    decreases n,
{
    if n == 0 {
        Seq::empty()
    } else {
        busy_poll_requests() + busy_polls_requests((n - 1) as nat)
    }
}

/// A caller that polls until the answer is no longer would-block gets, from
/// an engine that comes to rest within the bound, what the fault latches
/// stand for. Each poll has asserted the finish signal once and sampled the
/// busy bit once; only the last has read the latches.
pub proof fn law_polls_report_latches<E>(state: State, busy_polls: nat, faults: FaultLatches)
    requires
        state.phase is Configured,
        busy_polls <= state.left,
    ensures
        polls::<E>(state, busy_polls, faults) == (Run::<E> {
            state: State {
                phase: Phase::Idle,
                left: (state.left - busy_polls) as u32,
                busy: false,
                ..state
            },
            requests: busy_polls_requests(busy_polls) + last_poll_requests(),
            outcome: Some(verdict(faults)),
        }),
    decreases busy_polls,
{
    if busy_polls == 0 {
        law_finalize_reports_latches::<E>(state, faults);
    } else {
        law_finalize_would_block::<E>(state);
        let first = busy_poll::<E>(state);
        law_polls_report_latches::<E>(first.state, (busy_polls - 1) as nat, faults);
        assert(busy_poll_requests() + (busy_polls_requests((busy_polls - 1) as nat)
            + last_poll_requests()) =~= busy_polls_requests(busy_polls) + last_poll_requests());
    }
}

/// A caller that polls until the answer is no longer would-block gets
/// `Timeout` from an engine that stays busy: after as many would-block
/// answers as the bound allows, the next poll fails. The latches are never
/// read.
pub proof fn law_polls_time_out<E>(state: State, busy_polls: nat, faults: FaultLatches)
    requires
        state.phase is Configured,
        busy_polls > state.left,
    ensures
        polls::<E>(state, busy_polls, faults) == (Run::<E> {
            state: State { phase: Phase::Failed, left: 0, busy: true, ..state },
            requests: busy_polls_requests((state.left + 1) as nat),
            outcome: Some(Poll::Failed(Error::Timeout)),
        }),
    decreases busy_polls,
{
    if state.left == 0 {
        law_finalize_times_out::<E>(state);
        assert(busy_polls_requests(1) =~= busy_poll_requests()) by {
            assert(busy_polls_requests(1) == busy_poll_requests() + busy_polls_requests(0));
        }
    } else {
        law_finalize_would_block::<E>(state);
        let first = busy_poll::<E>(state);
        law_polls_time_out::<E>(first.state, (busy_polls - 1) as nat, faults);
    }
}

/// Whatever the hardware answers, and for however long, `configure` makes no
/// more requests than its three bounds and the eight fixed steps add up to.
pub proof fn law_configure_is_bounded<E>(
    state: State,
    key_id: KeyId,
    data: DsData,
    replies: Seq<Reply<E>>,
)
    requires
        state.phase is Idle,
    ensures
        run(state.configure::<E>(key_id, data).0, replies).requests.len() <= state.limits.hmac
            + state.limits.start + state.limits.compute + 8,
{
    law_run_is_bounded(state.configure::<E>(key_id, data).0, replies);
}

/// Whatever the hardware answers, one call of `finalize` makes at most
/// three requests: it does not wait.
pub proof fn law_finalize_is_bounded<E>(state: State, replies: Seq<Reply<E>>)
    ensures
        run(state.finalize::<E>().0, replies).requests.len() <= 3,
{
    law_run_is_bounded(state.finalize::<E>().0, replies);
}

/// What the hardware does in the course of one signing sequence.
pub struct Behaviour {
    /// Would-block answers of the keyed-hash engine before it accepts.
    pub hmac_blocks: nat,
    /// Busy samples after the start signal.
    pub start_busy: nat,
    /// The busy bit and the key-mismatch bit of the diagnostic read.
    pub diagnostics: (bool, bool),
    /// Busy samples after the compute signal.
    pub compute_busy: nat,
    /// Completion polls that find the engine busy.
    pub finish_busy: nat,
    /// The fault latches once the engine is at rest.
    pub faults: FaultLatches,
}

impl Behaviour {
    /// Every wait ends within its bound.
    pub open spec fn within(self, limits: PollLimits) -> bool {
        &&& self.hmac_blocks <= limits.hmac
        &&& self.start_busy <= limits.start
        &&& self.compute_busy <= limits.compute
        &&& self.finish_busy <= limits.finish
    }
}

/// The result of a whole signing sequence on hardware that behaves as
/// `hardware` says: `configure`, and after its success `finalize`, called
/// again after each would-block answer. Where `configure` fails, its result
/// is the result of the sequence.
pub open spec fn sequence_outcome<E>(
    state: State,
    key_id: KeyId,
    data: DsData,
    hardware: Behaviour,
) -> Option<Poll<Error<E>>> {
    let configured = run::<E>(
        state.configure::<E>(key_id, data).0,
        replies_to_compute(
            hardware.hmac_blocks,
            hardware.start_busy,
            hardware.diagnostics,
            hardware.compute_busy,
        ).push(Reply::Busy(false)),
    );
    if configured.outcome matches Some(Poll::Ready) {
        polls::<E>(configured.state, hardware.finish_busy, hardware.faults).outcome
    } else {
        configured.outcome
    }
}

/// For every key slot and every block in range, on hardware whose waits end
/// within their bounds, the signing sequence ends with what the fault
/// latches stand for, whatever the diagnostic bits were.
pub proof fn law_sequence_reports_latches<E>(
    state: State,
    key_id: KeyId,
    data: DsData,
    hardware: Behaviour,
)
    requires
        state.phase is Idle,
        data@.well_formed(),
        hardware.within(state.limits),
    ensures
        sequence_outcome::<E>(state, key_id, data, hardware) == Some(verdict::<E>(hardware.faults)),
{
    law_configure_completes::<E>(
        state,
        key_id,
        data,
        hardware.hmac_blocks,
        hardware.start_busy,
        hardware.diagnostics,
        hardware.compute_busy,
    );
    let configured = State {
        phase: Phase::Configured,
        left: state.limits.finish,
        busy: false,
        key_mismatch: hardware.diagnostics.1,
        block: Some(data),
        ..state
    };
    law_polls_report_latches::<E>(configured, hardware.finish_busy, hardware.faults);
}

/// Where the engine finds nothing wrong with the decrypted block, the
/// sequence succeeds: neither `InvalidPadding` nor `InvalidDigest` comes
/// out. (That a block encrypted for the key slot in use decrypts without a
/// fault is the engine's part.)
pub proof fn law_sound_block_signs<E>(
    state: State,
    key_id: KeyId,
    data: DsData,
    hardware: Behaviour,
)
    requires
        state.phase is Idle,
        data@.well_formed(),
        hardware.within(state.limits),
        !hardware.faults.padding_bad,
        !hardware.faults.digest_bad,
    ensures
        sequence_outcome::<E>(state, key_id, data, hardware) == Some(Poll::<Error<E>>::Ready),
{
    law_sequence_reports_latches::<E>(state, key_id, data, hardware);
}

/// Where the engine finds the padding of the decrypted block bad, the
/// sequence ends with `InvalidPadding`, whatever the digest latch says.
pub proof fn law_bad_padding_is_reported<E>(
    state: State,
    key_id: KeyId,
    data: DsData,
    hardware: Behaviour,
)
    requires
        state.phase is Idle,
        data@.well_formed(),
        hardware.within(state.limits),
        hardware.faults.padding_bad,
    ensures
        sequence_outcome::<E>(state, key_id, data, hardware) == Some(
            Poll::<Error<E>>::Failed(Error::InvalidPadding),
        ),
{
    law_sequence_reports_latches::<E>(state, key_id, data, hardware);
}

/// Where the engine finds the padding good and the digest bad, the sequence
/// ends with `InvalidDigest`, never with `InvalidPadding`.
pub proof fn law_bad_digest_is_reported<E>(
    state: State,
    key_id: KeyId,
    data: DsData,
    hardware: Behaviour,
)
    requires
        state.phase is Idle,
        data@.well_formed(),
        hardware.within(state.limits),
        !hardware.faults.padding_bad,
        hardware.faults.digest_bad,
    ensures
        sequence_outcome::<E>(state, key_id, data, hardware) == Some(
            Poll::<Error<E>>::Failed(Error::InvalidDigest),
        ),
{
    law_sequence_reports_latches::<E>(state, key_id, data, hardware);
}

/// Where the engine finds any fault, as it does with a block decrypted
/// under the wrong key, the sequence never succeeds: it ends with
/// `InvalidPadding` or with `InvalidDigest`.
pub proof fn law_fault_never_passes<E>(
    state: State,
    key_id: KeyId,
    data: DsData,
    hardware: Behaviour,
)
    requires
        state.phase is Idle,
        data@.well_formed(),
        hardware.within(state.limits),
        hardware.faults.padding_bad || hardware.faults.digest_bad,
    ensures
        sequence_outcome::<E>(state, key_id, data, hardware) == Some(
            Poll::<Error<E>>::Failed(Error::InvalidPadding),
        ) || sequence_outcome::<E>(state, key_id, data, hardware) == Some(
            Poll::<Error<E>>::Failed(Error::InvalidDigest),
        ),
{
    law_sequence_reports_latches::<E>(state, key_id, data, hardware);
}

/// On hardware whose waits inside `configure` end within their bounds and
/// whose engine then stays busy for more polls than the bound allows, the
/// signing sequence ends with `Timeout`.
pub proof fn law_stuck_engine_times_out<E>(
    state: State,
    key_id: KeyId,
    data: DsData,
    hardware: Behaviour,
)
    requires
        state.phase is Idle,
        data@.well_formed(),
        hardware.hmac_blocks <= state.limits.hmac,
        hardware.start_busy <= state.limits.start,
        hardware.compute_busy <= state.limits.compute,
        hardware.finish_busy > state.limits.finish,
    ensures
        sequence_outcome::<E>(state, key_id, data, hardware) == Some(
            Poll::<Error<E>>::Failed(Error::Timeout),
        ),
{
    law_configure_completes::<E>(
        state,
        key_id,
        data,
        hardware.hmac_blocks,
        hardware.start_busy,
        hardware.diagnostics,
        hardware.compute_busy,
    );
    let configured = State {
        phase: Phase::Configured,
        left: state.limits.finish,
        busy: false,
        key_mismatch: hardware.diagnostics.1,
        block: Some(data),
        ..state
    };
    law_polls_time_out::<E>(configured, hardware.finish_busy, hardware.faults);
}

/// `enable` cannot fail: the engine is woken, the key-mismatch bit is read
/// into the record, and the driver is at rest again.
pub proof fn law_enable_completes<E>(state: State, key_mismatch: bool)
    requires
        state.phase is Idle,
    ensures
        run::<E>(
            state.enable::<E>().0,
            seq![Reply::Done, Reply::KeyMismatch(key_mismatch)],
        ) == (Run::<E> {
            state: State { key_mismatch, ..state },
            requests: seq![Request::EnableEngine, Request::ReadKeyMismatch],
            outcome: Some(Poll::Ready),
        }),
{
    let begun = state.enable::<E>().0;
    let none = Seq::<Reply<E>>::empty();
    lemma_run_push(begun, none, Reply::<E>::Done);
    let r1 = none.push(Reply::<E>::Done);
    lemma_run_push(begun, r1, Reply::<E>::KeyMismatch(key_mismatch));
    assert(r1.push(Reply::<E>::KeyMismatch(key_mismatch)) =~= seq![
        Reply::<E>::Done,
        Reply::<E>::KeyMismatch(key_mismatch),
    ]);
    assert(Seq::<Request>::empty().push(Request::EnableEngine).push(Request::ReadKeyMismatch)
        =~= seq![Request::EnableEngine, Request::ReadKeyMismatch]);
}

/// `reset` leads from every state, a failed one too, back to the state of
/// a driver just made with the same bounds, with one request to the
/// hardware.
pub proof fn law_reset_restores<E>(state: State)
    ensures
        run::<E>(state.reset::<E>().0, seq![Reply::Done]) == (Run::<E> {
            state: State::initial(state.limits),
            requests: seq![Request::ResetEngine],
            outcome: Some(Poll::Ready),
        }),
{
    let begun = state.reset::<E>().0;
    let none = Seq::<Reply<E>>::empty();
    lemma_run_push(begun, none, Reply::<E>::Done);
}

} // verus!
