//! The exchange between the driver and the hardware, and its rules.
//!
//! The driver asks for one hardware operation at a time, as a [`Request`],
//! and is told what came of it, as a [`Reply`]. [`State`] is all the driver
//! remembers between the two, and [`State::advance`] is the rule that takes
//! a state and a reply to the next state and the next [`Step`].

use vstd::prelude::*;
use crate::data::DsData;
use crate::error::{Error, Poll};

verus! {

/// Identifier of a provisioned key slot. Which identifiers are valid is for
/// whoever provisions the slots to say; the driver only passes one on.
#[derive(Debug, Clone, Copy, PartialEq, Eq)]
pub struct KeyId(pub u8);

/// For each place where the driver waits for an engine, how many busy
/// answers it asks again before it gives up with [`Error::Timeout`].
/// A wait therefore samples its engine at most one time more than its bound.
#[derive(Debug, Clone, Copy, PartialEq, Eq)]
pub struct PollLimits {
    /// Bound for the keyed-hash engine to accept its configuration.
    pub hmac: u32,
    /// Bound for the wait after the start signal.
    pub start: u32,
    /// Bound for the wait after the compute signal.
    pub compute: u32,
    /// Bound for the would-block answers of `finalize` after one `configure`.
    pub finish: u32,
}

/// The fault latches that the engine sets when it checks a decrypted block.
#[derive(Debug, Clone, Copy, PartialEq, Eq)]
pub struct FaultLatches {
    /// The block decrypted without the expected padding.
    pub padding_bad: bool,
    /// The digest inside the block does not match the decrypted parameters.
    pub digest_bad: bool,
}

/// One hardware operation that the driver asks for.
#[derive(Debug, Clone, Copy, PartialEq, Eq)]
pub enum Request {
    /// Bring the signature engine out of reset, as far as the hardware at
    /// hand needs it. Answered by [`Reply::Done`].
    EnableEngine,
    /// Read the key-mismatch status bit. Answered by [`Reply::KeyMismatch`].
    ReadKeyMismatch,
    /// Initialize the keyed-hash engine. Answered by [`Reply::Done`].
    HmacInit,
    /// Configure the keyed-hash engine once, without waiting, to feed the
    /// signature engine from this key slot. Answered by [`Reply::Hmac`].
    HmacConfigure(KeyId),
    /// Assert the start signal. Answered by [`Reply::Done`].
    AssertStart,
    /// Sample the busy bit. Answered by [`Reply::Busy`].
    QueryBusy,
    /// Read the busy and key-mismatch bits for the record. Answered by
    /// [`Reply::Diagnostics`].
    ReadDiagnostics,
    /// Copy the initialization vector and the encrypted parameters of the
    /// driver's block into the engine's memory. Answered by [`Reply::Done`].
    LoadParameters,
    /// Assert the compute signal. Answered by [`Reply::Done`].
    AssertCompute,
    /// Assert the finish signal. Answered by [`Reply::Done`].
    AssertFinish,
    /// Read the fault latches. Answered by [`Reply::Faults`].
    ReadFaults,
    /// Force the engine back to rest. Answered by [`Reply::Done`].
    ResetEngine,
}

/// What the hardware answered to a [`Request`]. `E` is the error type of the
/// keyed-hash engine.
#[derive(Debug, PartialEq, Eq)]
pub enum Reply<E> {
    /// The operation was carried out; there is nothing to report.
    Done,
    /// The key-mismatch bit.
    KeyMismatch(bool),
    /// The keyed-hash engine's answer to its configuration.
    Hmac(Poll<E>),
    /// The busy bit.
    Busy(bool),
    /// The busy and key-mismatch bits, read together.
    Diagnostics { busy: bool, key_mismatch: bool },
    /// The fault latches.
    Faults(FaultLatches),
}

/// What the caller does next.
#[derive(Debug, PartialEq, Eq)]
pub enum Step<E> {
    /// Perform this request and hand its reply to `advance`.
    Perform(Request),
    /// The operation has ended, with this result.
    Finished(Poll<Error<E>>),
}

/// Where the driver stands. A phase in which a request is outstanding is
/// named after that request.
#[derive(Debug, Clone, Copy, PartialEq, Eq)]
pub enum Phase {
    /// At rest: nothing is configured and nothing is outstanding.
    Idle,
    EnableEngine,
    ReadKeyMismatch,
    HmacInit(KeyId),
    HmacConfigure(KeyId),
    AssertStart,
    /// Sampling the busy bit after the start signal.
    StartWait,
    ReadDiagnostics,
    LoadParameters,
    AssertCompute,
    /// Sampling the busy bit after the compute signal.
    ComputeWait,
    /// Configured: the engine has computed, and `finalize` may be called.
    Configured,
    AssertFinish,
    /// Sampling the busy bit, once, after the finish signal.
    FinishWait,
    ReadFaults,
    ResetEngine,
    /// An operation has failed half-way. Only `reset` leads on from here.
    Failed,
}

/// All that the driver remembers between a request and its reply.
pub struct State {
    pub phase: Phase,
    /// The bounds the driver was made with.
    pub limits: PollLimits,
    /// How many more busy answers the wait at hand asks again.
    pub left: u32,
    /// The busy bit as last sampled.
    pub busy: bool,
    /// The key-mismatch bit as last read.
    pub key_mismatch: bool,
    /// The block of the configuration at hand.
    pub block: Option<DsData>,
}

/// The result that the fault latches stand for. Bad padding means that the
/// decrypted block is garbage, so the digest latch is not looked at then.
pub open spec fn verdict<E>(faults: FaultLatches) -> Poll<Error<E>> {
    if faults.padding_bad {
        Poll::Failed(Error::InvalidPadding)
    } else if faults.digest_bad {
        Poll::Failed(Error::InvalidDigest)
    } else {
        Poll::Ready
    }
}

impl Phase {
    /// The request that is outstanding in this phase.
    pub open spec fn pending(self) -> Option<Request> {
        match self {
            Phase::Idle | Phase::Configured | Phase::Failed => None,
            Phase::EnableEngine => Some(Request::EnableEngine),
            Phase::ReadKeyMismatch => Some(Request::ReadKeyMismatch),
            Phase::HmacInit(_) => Some(Request::HmacInit),
            Phase::HmacConfigure(key_id) => Some(Request::HmacConfigure(key_id)),
            Phase::AssertStart => Some(Request::AssertStart),
            Phase::StartWait | Phase::ComputeWait | Phase::FinishWait => Some(Request::QueryBusy),
            Phase::ReadDiagnostics => Some(Request::ReadDiagnostics),
            Phase::LoadParameters => Some(Request::LoadParameters),
            Phase::AssertCompute => Some(Request::AssertCompute),
            Phase::AssertFinish => Some(Request::AssertFinish),
            Phase::ReadFaults => Some(Request::ReadFaults),
            Phase::ResetEngine => Some(Request::ResetEngine),
        }
    }
}

impl Request {
    /// Whether `reply` is of the kind that answers this request.
    pub open spec fn answered_by<E>(self, reply: Reply<E>) -> bool {
        match self {
            Request::ReadKeyMismatch => reply is KeyMismatch,
            Request::HmacConfigure(_) => reply is Hmac,
            Request::QueryBusy => reply is Busy,
            Request::ReadDiagnostics => reply is Diagnostics,
            Request::ReadFaults => reply is Faults,
            Request::EnableEngine
            | Request::HmacInit
            | Request::AssertStart
            | Request::LoadParameters
            | Request::AssertCompute
            | Request::AssertFinish
            | Request::ResetEngine => reply is Done,
        }
    }
}

impl State {
    /// The state of a driver that has just been made.
    pub open spec fn initial(limits: PollLimits) -> State {
        State {
            phase: Phase::Idle,
            limits,
            left: 0,
            busy: false,
            key_mismatch: false,
            block: None,
        }
    }

    /// `self`, in another phase.
    pub open spec fn at(self, phase: Phase) -> State {
        State { phase, ..self }
    }

    /// A request is outstanding and `reply` answers it.
    pub open spec fn accepts<E>(self, reply: Reply<E>) -> bool {
        match self.phase.pending() {
            Some(request) => request.answered_by(reply),
            None => false,
        }
    }

    /// The step that leaves the driver in this state with nothing finished.
    pub open spec fn go<E>(self) -> (State, Step<E>)
        recommends
            self.phase.pending() is Some,
    {
        (self, Step::Perform(self.phase.pending().unwrap()))
    }

    /// A busy answer inside `configure`: the request is made again while
    /// the bound allows, else the operation fails with a timeout.
    pub open spec fn ask_again<E>(self) -> (State, Step<E>)
        recommends
            self.phase.pending() is Some,
    {
        if self.left == 0 {
            (self.at(Phase::Failed), Step::Finished(Poll::Failed(Error::Timeout)))
        } else {
            State { left: (self.left - 1) as u32, ..self }.go()
        }
    }

    /// A busy answer inside `finalize`: the caller is told to come back
    /// while the bound allows, else the operation fails with a timeout.
    pub open spec fn come_back<E>(self) -> (State, Step<E>) {
        if self.left == 0 {
            (self.at(Phase::Failed), Step::Finished(Poll::Failed(Error::Timeout)))
        } else {
            (
                State { phase: Phase::Configured, left: (self.left - 1) as u32, ..self },
                Step::Finished(Poll::WouldBlock),
            )
        }
    }

    /// `enable`: the wake-up of the engine begins.
    pub open spec fn enable<E>(self) -> (State, Step<E>) {
        self.at(Phase::EnableEngine).go()
    }

    /// `configure`: a block whose length hint is out of range is refused and
    /// nothing changes; else the key derivation begins.
    pub open spec fn configure<E>(self, key_id: KeyId, data: DsData) -> (State, Step<E>) {
        if !data@.well_formed() {
            (self, Step::Finished(Poll::Failed(Error::InvalidParam)))
        } else {
            State { phase: Phase::HmacInit(key_id), block: Some(data), ..self }.go()
        }
    }

    /// `finalize`: one completion poll begins.
    pub open spec fn finalize<E>(self) -> (State, Step<E>) {
        self.at(Phase::AssertFinish).go()
    }

    /// `reset`: whatever was under way is given up.
    pub open spec fn reset<E>(self) -> (State, Step<E>) {
        self.at(Phase::ResetEngine).go()
    }

    /// The rule of the exchange: the state and the step that follow when
    /// `reply` answers the outstanding request.
    pub open spec fn advance<E>(self, reply: Reply<E>) -> (State, Step<E>)
        recommends
            self.accepts(reply),
    {
        match (self.phase, reply) {
            (Phase::EnableEngine, Reply::Done) => self.at(Phase::ReadKeyMismatch).go(),
            (Phase::ReadKeyMismatch, Reply::KeyMismatch(key_mismatch)) => (
                State { phase: Phase::Idle, key_mismatch, ..self },
                Step::Finished(Poll::Ready),
            ),
            (Phase::HmacInit(key_id), Reply::Done) => State {
                phase: Phase::HmacConfigure(key_id),
                left: self.limits.hmac,
                ..self
            }.go(),
            (Phase::HmacConfigure(_), Reply::Hmac(Poll::Ready)) => self.at(Phase::AssertStart).go(),
            (Phase::HmacConfigure(_), Reply::Hmac(Poll::WouldBlock)) => self.ask_again(),
            (Phase::HmacConfigure(_), Reply::Hmac(Poll::Failed(e))) => (
                self.at(Phase::Failed),
                Step::Finished(Poll::Failed(Error::Hmac(e))),
            ),
            (Phase::AssertStart, Reply::Done) => State {
                phase: Phase::StartWait,
                left: self.limits.start,
                ..self
            }.go(),
            (Phase::StartWait, Reply::Busy(true)) => State { busy: true, ..self }.ask_again(),
            (Phase::StartWait, Reply::Busy(false)) => State {
                phase: Phase::ReadDiagnostics,
                busy: false,
                ..self
            }.go(),
            (Phase::ReadDiagnostics, Reply::Diagnostics { busy, key_mismatch }) => State {
                phase: Phase::LoadParameters,
                busy,
                key_mismatch,
                ..self
            }.go(),
            (Phase::LoadParameters, Reply::Done) => self.at(Phase::AssertCompute).go(),
            (Phase::AssertCompute, Reply::Done) => State {
                phase: Phase::ComputeWait,
                left: self.limits.compute,
                ..self
            }.go(),
            (Phase::ComputeWait, Reply::Busy(true)) => State { busy: true, ..self }.ask_again(),
            (Phase::ComputeWait, Reply::Busy(false)) => (
                State { phase: Phase::Configured, left: self.limits.finish, busy: false, ..self },
                Step::Finished(Poll::Ready),
            ),
            (Phase::AssertFinish, Reply::Done) => self.at(Phase::FinishWait).go(),
            (Phase::FinishWait, Reply::Busy(true)) => State { busy: true, ..self }.come_back(),
            (Phase::FinishWait, Reply::Busy(false)) => State {
                phase: Phase::ReadFaults,
                busy: false,
                ..self
            }.go(),
            (Phase::ReadFaults, Reply::Faults(faults)) => (
                self.at(Phase::Idle),
                Step::Finished(verdict(faults)),
            ),
            (Phase::ResetEngine, Reply::Done) => (
                State::initial(self.limits),
                Step::Finished(Poll::Ready),
            ),
            _ => arbitrary(),
        }
    }
}

} // verus!
