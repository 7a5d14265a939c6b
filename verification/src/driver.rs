//! The driver: the owner of the two engines, and the keeper of the exchange.

use vstd::pervasive::unreached;
use vstd::prelude::*;
use crate::clock::{power_up_order, Peripheral, PeripheralClockControl};
use crate::data::DsData;
use crate::error::{Error, Poll};
use crate::protocol::{verdict, FaultLatches, KeyId, Phase, PollLimits, Reply, Request, State, Step};
use crate::run::budget;

verus! {

/// Driver of one signature engine and of the keyed-hash engine that feeds
/// it. `D` and `H` are the caller's handles to the two engines. The driver
/// owns both from `new` to `free`, so nothing else can reach either engine
/// while a signing sequence is under way.
pub struct Ds<D, H> {
    ds: D,
    hmac: H,
    state: State,
}

impl<D, H> View for Ds<D, H> {
    type V = State;

    closed spec fn view(&self) -> State {
        self.state
    }
}

impl<D, H> Ds<D, H> {
    /// The handle to the signature engine.
    pub closed spec fn engine(&self) -> D {
        self.ds
    }

    /// The handle to the keyed-hash engine.
    pub closed spec fn keyed_hash(&self) -> H {
        self.hmac
    }

    /// Takes the two engines and asks `clocks` for what they run on: the
    /// hash unit first, then the keyed-hash engine, then the signature
    /// engine. The new driver is at rest.
    pub fn new(ds: D, hmac: H, clocks: &mut PeripheralClockControl, limits: PollLimits) -> (driver: Self)
        ensures
            driver.engine() == ds,
            driver.keyed_hash() == hmac,
            driver@ == State::initial(limits),
            final(clocks)@ == old(clocks)@ + power_up_order(),
    {
        clocks.enable(Peripheral::Sha);
        clocks.enable(Peripheral::Hmac);
        clocks.enable(Peripheral::Ds);
        Ds {
            ds,
            hmac,
            state: State {
                phase: Phase::Idle,
                limits,
                left: 0,
                busy: false,
                key_mismatch: false,
                block: None,
            },
        }
    }

    /// Gives the signature engine back. The keyed-hash engine is dropped.
    pub fn free(self) -> (ds: D)
        ensures
            ds == self.engine(),
    {
        self.ds
    }

    /// Step 1. Enable the DS module: the engine is woken, then its
    /// key-mismatch bit is read for the record. Nothing here can fail.
    pub fn enable<E>(&mut self) -> (step: Step<E>)
        requires
            old(self)@.phase is Idle,
        ensures
            (final(self)@, step) == old(self)@.enable::<E>(),
            final(self).engine() == old(self).engine(),
            final(self).keyed_hash() == old(self).keyed_hash(),
    {
        self.state.phase = Phase::EnableEngine;
        Step::Perform(Request::EnableEngine)
    }

    /// Begins the key configuration with `data` and the key slot `key_id`.
    ///
    /// A block whose length hint is out of range is refused with
    /// `InvalidParam` before anything is asked of the hardware, and the
    /// driver stays as it was. Else the driver keeps the block and asks for
    /// the first request of the sequence: keyed-hash engine, start signal,
    /// wait, diagnostics, transfer of the block, compute signal, wait.
    pub fn configure<E>(&mut self, key_id: KeyId, data: DsData) -> (step: Step<E>)
        requires
            old(self)@.phase is Idle,
        ensures
            (final(self)@, step) == old(self)@.configure::<E>(key_id, data),
            !data@.well_formed() ==> final(self)@ == old(self)@ && step == Step::<E>::Finished(
                Poll::Failed(Error::InvalidParam),
            ),
            data@.well_formed() ==> final(self)@.block == Some(data) && step == Step::<E>::Perform(
                Request::HmacInit,
            ),
            final(self).engine() == old(self).engine(),
            final(self).keyed_hash() == old(self).keyed_hash(),
    {
        if !data.is_well_formed() {
            return Step::Finished(Poll::Failed(Error::InvalidParam));
        }
        self.state.phase = Phase::HmacInit(key_id);
        self.state.block = Some(data);
        Step::Perform(Request::HmacInit)
    }

    /// Begins one completion poll: the finish signal is asserted once and
    /// the busy bit sampled once. The poll ends with `WouldBlock` while the
    /// engine is busy, and may then be made again.
    pub fn finalize<E>(&mut self) -> (step: Step<E>)
        requires
            old(self)@.phase is Configured,
        ensures
            (final(self)@, step) == old(self)@.finalize::<E>(),
            final(self).engine() == old(self).engine(),
            final(self).keyed_hash() == old(self).keyed_hash(),
    {
        self.state.phase = Phase::AssertFinish;
        Step::Perform(Request::AssertFinish)
    }

    /// Gives up whatever is under way and brings driver and engine back to
    /// rest. This is the way on after a failed operation.
    pub fn reset<E>(&mut self) -> (step: Step<E>)
        ensures
            (final(self)@, step) == old(self)@.reset::<E>(),
            final(self).engine() == old(self).engine(),
            final(self).keyed_hash() == old(self).keyed_hash(),
    {
        self.state.phase = Phase::ResetEngine;
        Step::Perform(Request::ResetEngine)
    }

    /// Takes the reply to the outstanding request and says what comes next.
    pub fn advance<E>(&mut self, reply: Reply<E>) -> (step: Step<E>)
        requires
            old(self)@.accepts(reply),
        ensures
            (final(self)@, step) == old(self)@.advance(reply),
            final(self).engine() == old(self).engine(),
            final(self).keyed_hash() == old(self).keyed_hash(),
    {
        match (self.state.phase, reply) {
            (Phase::EnableEngine, Reply::Done) => {
                self.state.phase = Phase::ReadKeyMismatch;
                Step::Perform(Request::ReadKeyMismatch)
            },
            (Phase::ReadKeyMismatch, Reply::KeyMismatch(key_mismatch)) => {
                self.state.phase = Phase::Idle;
                self.state.key_mismatch = key_mismatch;
                Step::Finished(Poll::Ready)
            },
            (Phase::HmacInit(key_id), Reply::Done) => {
                self.state.phase = Phase::HmacConfigure(key_id);
                self.state.left = self.state.limits.hmac;
                Step::Perform(Request::HmacConfigure(key_id))
            },
            (Phase::HmacConfigure(_), Reply::Hmac(Poll::Ready)) => {
                self.state.phase = Phase::AssertStart;
                Step::Perform(Request::AssertStart)
            },
            (Phase::HmacConfigure(key_id), Reply::Hmac(Poll::WouldBlock)) => {
                self.ask_again(Request::HmacConfigure(key_id))
            },
            (Phase::HmacConfigure(_), Reply::Hmac(Poll::Failed(e))) => {
                self.state.phase = Phase::Failed;
                Step::Finished(Poll::Failed(Error::Hmac(e)))
            },
            (Phase::AssertStart, Reply::Done) => {
                self.state.phase = Phase::StartWait;
                self.state.left = self.state.limits.start;
                Step::Perform(Request::QueryBusy)
            },
            (Phase::StartWait, Reply::Busy(busy)) => {
                self.state.busy = busy;
                if busy {
                    self.ask_again(Request::QueryBusy)
                } else {
                    self.state.phase = Phase::ReadDiagnostics;
                    Step::Perform(Request::ReadDiagnostics)
                }
            },
            (Phase::ReadDiagnostics, Reply::Diagnostics { busy, key_mismatch }) => {
                self.state.phase = Phase::LoadParameters;
                self.state.busy = busy;
                self.state.key_mismatch = key_mismatch;
                Step::Perform(Request::LoadParameters)
            },
            (Phase::LoadParameters, Reply::Done) => {
                self.state.phase = Phase::AssertCompute;
                Step::Perform(Request::AssertCompute)
            },
            (Phase::AssertCompute, Reply::Done) => {
                self.state.phase = Phase::ComputeWait;
                self.state.left = self.state.limits.compute;
                Step::Perform(Request::QueryBusy)
            },
            (Phase::ComputeWait, Reply::Busy(busy)) => {
                self.state.busy = busy;
                if busy {
                    self.ask_again(Request::QueryBusy)
                } else {
                    self.state.phase = Phase::Configured;
                    self.state.left = self.state.limits.finish;
                    Step::Finished(Poll::Ready)
                }
            },
            (Phase::AssertFinish, Reply::Done) => {
                self.state.phase = Phase::FinishWait;
                Step::Perform(Request::QueryBusy)
            },
            (Phase::FinishWait, Reply::Busy(busy)) => {
                self.state.busy = busy;
                if !busy {
                    self.state.phase = Phase::ReadFaults;
                    Step::Perform(Request::ReadFaults)
                } else if self.state.left == 0 {
                    self.state.phase = Phase::Failed;
                    Step::Finished(Poll::Failed(Error::Timeout))
                } else {
                    self.state.phase = Phase::Configured;
                    self.state.left = self.state.left - 1;
                    Step::Finished(Poll::WouldBlock)
                }
            },
            (Phase::ReadFaults, Reply::Faults(faults)) => {
                self.state.phase = Phase::Idle;
                Step::Finished(result_of(faults))
            },
            (Phase::ResetEngine, Reply::Done) => {
                self.state.phase = Phase::Idle;
                self.state.left = 0;
                self.state.busy = false;
                self.state.key_mismatch = false;
                self.state.block = None;
                Step::Finished(Poll::Ready)
            },
            _ => unreached(),
        }
    }

    /// The step after a busy answer inside `configure`, where `request` is
    /// the one that was answered.
    fn ask_again<E>(&mut self, request: Request) -> (step: Step<E>)
        requires
            old(self)@.phase.pending() == Some(request),
        ensures
            (final(self)@, step) == old(self)@.ask_again::<E>(),
            final(self).engine() == old(self).engine(),
            final(self).keyed_hash() == old(self).keyed_hash(),
    {
        if self.state.left == 0 {
            self.state.phase = Phase::Failed;
            Step::Finished(Poll::Failed(Error::Timeout))
        } else {
            self.state.left = self.state.left - 1;
            Step::Perform(request)
        }
    }

    /// Whether the signature engine was busy when its busy bit was last
    /// sampled or read.
    pub fn is_busy(&self) -> (busy: bool)
        ensures
            busy == self@.busy,
    {
        self.state.busy
    }

    /// The key-mismatch bit as last read.
    pub fn key_mismatch(&self) -> (bit: bool)
        ensures
            bit == self@.key_mismatch,
    {
        self.state.key_mismatch
    }

    /// Where the driver stands.
    pub fn phase(&self) -> (phase: Phase)
        ensures
            phase == self@.phase,
    {
        self.state.phase
    }

    /// The bounds the driver was made with.
    pub fn limits(&self) -> (limits: PollLimits)
        ensures
            limits == self@.limits,
    {
        self.state.limits
    }

    /// The block of the configuration at hand: the one to copy into the
    /// engine on `Request::LoadParameters`.
    pub fn block(&self) -> (block: Option<&DsData>)
        ensures
            block == match self@.block {
                Some(data) => Some(&data),
                None => None,
            },
    {
        self.state.block.as_ref()
    }

    /// The request that is outstanding, if one is.
    pub fn pending(&self) -> (request: Option<Request>)
        ensures
            request == self@.phase.pending(),
    {
        match self.state.phase {
            Phase::Idle | Phase::Configured | Phase::Failed => None,
            Phase::EnableEngine => Some(Request::EnableEngine),
            Phase::ReadKeyMismatch => Some(Request::ReadKeyMismatch),
            Phase::HmacInit(_) => Some(Request::HmacInit),
            Phase::HmacConfigure(key_id) => Some(Request::HmacConfigure(key_id)),
            Phase::AssertStart => Some(Request::AssertStart),
            Phase::StartWait | Phase::ComputeWait | Phase::FinishWait => Some(Request::QueryBusy),
            Phase::ReadDiagnostics => Some(Request::ReadDiagnostics),
            Phase::LoadParameters => Some(Request::LoadParameters),
            Phase::AssertCompute => Some(Request::AssertCompute),
            Phase::AssertFinish => Some(Request::AssertFinish),
            Phase::ReadFaults => Some(Request::ReadFaults),
            Phase::ResetEngine => Some(Request::ResetEngine),
        }
    }

    /// The most requests that the operation under way can still make,
    /// however the hardware answers. A caller that has performed this many
    /// has seen the operation end.
    pub fn budget(&self) -> (n: u64)
        ensures
            n == budget(self@),
    {
        let hmac = self.state.limits.hmac as u64;
        let start = self.state.limits.start as u64;
        let compute = self.state.limits.compute as u64;
        let left = self.state.left as u64;
        match self.state.phase {
            Phase::Idle | Phase::Configured | Phase::Failed => 0,
            Phase::EnableEngine => 2,
            Phase::ReadKeyMismatch => 1,
            Phase::HmacInit(_) => hmac + start + compute + 8,
            Phase::HmacConfigure(_) => left + start + compute + 7,
            Phase::AssertStart => start + compute + 6,
            Phase::StartWait => left + compute + 5,
            Phase::ReadDiagnostics => compute + 4,
            Phase::LoadParameters => compute + 3,
            Phase::AssertCompute => compute + 2,
            Phase::ComputeWait => left + 1,
            Phase::AssertFinish => 3,
            Phase::FinishWait => 2,
            Phase::ReadFaults => 1,
            Phase::ResetEngine => 1,
        }
    }

    /// Whether `reply` answers the outstanding request, so that `advance`
    /// may be called with it.
    pub fn accepts<E>(&self, reply: &Reply<E>) -> (ok: bool)
        ensures
            ok == self@.accepts(*reply),
    {
        match self.pending() {
            None => false,
            Some(request) => match request {
                Request::ReadKeyMismatch => matches!(reply, Reply::KeyMismatch(_)),
                Request::HmacConfigure(_) => matches!(reply, Reply::Hmac(_)),
                Request::QueryBusy => matches!(reply, Reply::Busy(_)),
                Request::ReadDiagnostics => matches!(reply, Reply::Diagnostics { .. }),
                Request::ReadFaults => matches!(reply, Reply::Faults(_)),
                Request::EnableEngine
                | Request::HmacInit
                | Request::AssertStart
                | Request::LoadParameters
                | Request::AssertCompute
                | Request::AssertFinish
                | Request::ResetEngine => matches!(reply, Reply::Done),
            },
        }
    }

    /// The signature engine, to perform a request on.
    pub fn ds_mut(&mut self) -> (ds: &mut D)
        ensures
            *ds == old(self).engine(),
            final(self).engine() == *final(ds),
            final(self).keyed_hash() == old(self).keyed_hash(),
            final(self)@ == old(self)@,
    {
        &mut self.ds
    }

    /// The keyed-hash engine, to perform a request on.
    pub fn hmac_mut(&mut self) -> (hmac: &mut H)
        ensures
            *hmac == old(self).keyed_hash(),
            final(self).keyed_hash() == *final(hmac),
            final(self).engine() == old(self).engine(),
            final(self)@ == old(self)@,
    {
        &mut self.hmac
    }
}

/// Turns the fault latches into the result of the signing sequence: bad
/// padding first, then a bad digest, else success.
pub fn result_of<E>(faults: FaultLatches) -> (result: Poll<Error<E>>)
    ensures
        result == verdict::<E>(faults),
{
    if faults.padding_bad {
        Poll::Failed(Error::InvalidPadding)
    } else if faults.digest_bad {
        Poll::Failed(Error::InvalidDigest)
    } else {
        Poll::Ready
    }
}

} // verus!
