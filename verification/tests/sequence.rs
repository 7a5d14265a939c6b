use std::collections::VecDeque;

use ds_driver::{
    DsData, Ds, Error, FaultLatches, KeyId, Peripheral, PeripheralClockControl, Phase, Poll,
    PollLimits, Reply, Request, Step, DS_C_LEN, DS_IV_LEN,
};

const KEY_SLOT_A: KeyId = KeyId(1);
const KEY_SLOT_B: KeyId = KeyId(2);

/// An engine pair that answers by script and records what it was asked.
struct Script {
    /// Answers of the keyed-hash engine, first to last.
    hmac: VecDeque<Poll<u8>>,
    /// Busy bits, in the order in which they are sampled.
    busy: VecDeque<bool>,
    /// Busy bit sampled once `busy` is used up.
    then_busy: bool,
    diagnostics: (bool, bool),
    key_mismatch: bool,
    faults: FaultLatches,
    asked: Vec<Request>,
}

impl Script {
    fn new() -> Script {
        Script {
            hmac: VecDeque::new(),
            busy: VecDeque::new(),
            then_busy: false,
            diagnostics: (false, false),
            key_mismatch: false,
            faults: FaultLatches { padding_bad: false, digest_bad: false },
            asked: Vec::new(),
        }
    }

    fn answer(&mut self, request: Request) -> Reply<u8> {
        self.asked.push(request);
        match request {
            Request::ReadKeyMismatch => Reply::KeyMismatch(self.key_mismatch),
            Request::HmacConfigure(_) => Reply::Hmac(self.hmac.pop_front().unwrap_or(Poll::Ready)),
            Request::QueryBusy => Reply::Busy(self.busy.pop_front().unwrap_or(self.then_busy)),
            Request::ReadDiagnostics => Reply::Diagnostics {
                busy: self.diagnostics.0,
                key_mismatch: self.diagnostics.1,
            },
            Request::ReadFaults => Reply::Faults(self.faults),
            Request::EnableEngine
            | Request::HmacInit
            | Request::AssertStart
            | Request::LoadParameters
            | Request::AssertCompute
            | Request::AssertFinish
            | Request::ResetEngine => Reply::Done,
        }
    }
}

fn limits(hmac: u32, start: u32, compute: u32, finish: u32) -> PollLimits {
    PollLimits { hmac, start, compute, finish }
}

fn block(rsa_length: usize) -> DsData {
    let mut c = [0u8; DS_C_LEN];
    for (i, byte) in c.iter_mut().enumerate() {
        *byte = (i * 7 % 256) as u8;
    }
    DsData::new(rsa_length, [0xA5; DS_IV_LEN], c)
}

fn driver(limits: PollLimits) -> Ds<&'static str, &'static str> {
    let mut clocks = PeripheralClockControl::new();
    Ds::new("ds", "hmac", &mut clocks, limits)
}

/// Performs requests on the script until the operation ends.
fn drive(ds: &mut Ds<&'static str, &'static str>, first: Step<u8>, script: &mut Script) -> Poll<Error<u8>> {
    let mut step = first;
    loop {
        match step {
            Step::Finished(result) => return result,
            Step::Perform(request) => {
                assert_eq!(ds.pending(), Some(request));
                let reply = script.answer(request);
                assert!(ds.accepts(&reply));
                step = ds.advance(reply);
            }
        }
    }
}

fn configure(ds: &mut Ds<&'static str, &'static str>, key_id: KeyId, data: DsData, script: &mut Script) -> Poll<Error<u8>> {
    assert_eq!(ds.phase(), Phase::Idle);
    let first = ds.configure(key_id, data);
    drive(ds, first, script)
}

fn finalize(ds: &mut Ds<&'static str, &'static str>, script: &mut Script) -> Poll<Error<u8>> {
    assert_eq!(ds.phase(), Phase::Configured);
    let first = ds.finalize();
    drive(ds, first, script)
}

fn configure_requests(key_id: KeyId, hmac_blocks: usize, start_busy: usize, compute_busy: usize) -> Vec<Request> {
    let mut expected = vec![Request::HmacInit];
    expected.extend(vec![Request::HmacConfigure(key_id); hmac_blocks + 1]);
    expected.push(Request::AssertStart);
    expected.extend(vec![Request::QueryBusy; start_busy + 1]);
    expected.push(Request::ReadDiagnostics);
    expected.push(Request::LoadParameters);
    expected.push(Request::AssertCompute);
    expected.extend(vec![Request::QueryBusy; compute_busy + 1]);
    expected
}

#[test]
fn new_asks_for_clocks_in_dependency_order() {
    let mut clocks = PeripheralClockControl::new();
    let ds: Ds<u32, u64> = Ds::new(11, 22, &mut clocks, limits(1, 2, 3, 4));
    assert_eq!(
        clocks.requested(),
        &vec![Peripheral::Sha, Peripheral::Hmac, Peripheral::Ds]
    );
    assert_eq!(ds.phase(), Phase::Idle);
    assert_eq!(ds.pending(), None);
    assert_eq!(ds.limits(), limits(1, 2, 3, 4));
    assert!(!ds.is_busy());
    assert!(!ds.key_mismatch());
    assert!(ds.block().is_none());
}

#[test]
fn new_appends_to_earlier_clock_requests() {
    let mut clocks = PeripheralClockControl::new();
    clocks.enable(Peripheral::Ds);
    let _ds: Ds<u32, u64> = Ds::new(11, 22, &mut clocks, limits(0, 0, 0, 0));
    assert_eq!(
        clocks.requested(),
        &vec![Peripheral::Ds, Peripheral::Sha, Peripheral::Hmac, Peripheral::Ds]
    );
}

#[test]
fn free_gives_the_engine_back() {
    let mut clocks = PeripheralClockControl::new();
    let mut ds: Ds<String, u64> = Ds::new(String::from("engine"), 22, &mut clocks, limits(1, 1, 1, 1));
    ds.ds_mut().push_str("-used");
    *ds.hmac_mut() += 1;
    assert_eq!(ds.free(), "engine-used");
}

#[test]
fn enable_wakes_then_reads_key_mismatch() {
    let mut ds = driver(limits(1, 1, 1, 1));
    let mut script = Script::new();
    script.key_mismatch = true;
    let first = ds.enable();
    assert_eq!(first, Step::Perform(Request::EnableEngine));
    assert_eq!(drive(&mut ds, first, &mut script), Poll::Ready);
    assert_eq!(script.asked, vec![Request::EnableEngine, Request::ReadKeyMismatch]);
    assert!(ds.key_mismatch());
    assert_eq!(ds.phase(), Phase::Idle);
}

#[test]
fn configure_then_finalize_with_provisioned_block() {
    let mut ds = driver(limits(4, 4, 4, 4));
    let mut script = Script::new();
    let data = block(127);
    assert_eq!(configure(&mut ds, KEY_SLOT_A, data, &mut script), Poll::Ready);
    assert_eq!(ds.phase(), Phase::Configured);
    assert_eq!(ds.block(), Some(&data));
    assert_eq!(script.asked, configure_requests(KEY_SLOT_A, 0, 0, 0));

    script.asked.clear();
    script.busy = VecDeque::from(vec![true, true, false]);
    assert_eq!(finalize(&mut ds, &mut script), Poll::WouldBlock);
    assert_eq!(finalize(&mut ds, &mut script), Poll::WouldBlock);
    assert_eq!(finalize(&mut ds, &mut script), Poll::Ready);
    assert_eq!(ds.phase(), Phase::Idle);
    assert_eq!(
        script.asked,
        vec![
            Request::AssertFinish,
            Request::QueryBusy,
            Request::AssertFinish,
            Request::QueryBusy,
            Request::AssertFinish,
            Request::QueryBusy,
            Request::ReadFaults,
        ]
    );
}

#[test]
fn wrong_key_configures_but_finalize_reports_invalid_digest() {
    let mut ds = driver(limits(4, 4, 4, 4));
    let mut script = Script::new();
    script.faults = FaultLatches { padding_bad: false, digest_bad: true };
    assert_eq!(configure(&mut ds, KEY_SLOT_B, block(127), &mut script), Poll::Ready);
    assert_eq!(script.asked[1], Request::HmacConfigure(KEY_SLOT_B));
    assert_eq!(finalize(&mut ds, &mut script), Poll::Failed(Error::InvalidDigest));
    assert_eq!(ds.phase(), Phase::Idle);
}

#[test]
fn bad_padding_is_reported_as_invalid_padding() {
    let mut ds = driver(limits(4, 4, 4, 4));
    let mut script = Script::new();
    script.faults = FaultLatches { padding_bad: true, digest_bad: false };
    assert_eq!(configure(&mut ds, KEY_SLOT_A, block(63), &mut script), Poll::Ready);
    assert_eq!(finalize(&mut ds, &mut script), Poll::Failed(Error::InvalidPadding));
}

#[test]
fn bad_padding_comes_before_bad_digest() {
    let mut ds = driver(limits(4, 4, 4, 4));
    let mut script = Script::new();
    script.faults = FaultLatches { padding_bad: true, digest_bad: true };
    assert_eq!(configure(&mut ds, KEY_SLOT_A, block(63), &mut script), Poll::Ready);
    assert_eq!(finalize(&mut ds, &mut script), Poll::Failed(Error::InvalidPadding));
}

#[test]
fn out_of_range_length_is_refused_before_any_request() {
    let mut ds = driver(limits(4, 4, 4, 4));
    let step: Step<u8> = ds.configure(KEY_SLOT_A, block(128));
    assert_eq!(step, Step::Finished(Poll::Failed(Error::InvalidParam)));
    assert_eq!(ds.phase(), Phase::Idle);
    assert_eq!(ds.pending(), None);
    assert!(ds.block().is_none());
    assert!(!ds.accepts(&Reply::<u8>::Done));

    let mut script = Script::new();
    assert_eq!(configure(&mut ds, KEY_SLOT_A, block(127), &mut script), Poll::Ready);
}

#[test]
fn configure_waits_within_its_bounds() {
    let mut ds = driver(limits(2, 3, 1, 0));
    let mut script = Script::new();
    script.hmac = VecDeque::from(vec![Poll::WouldBlock, Poll::WouldBlock, Poll::Ready]);
    script.busy = VecDeque::from(vec![true, true, true, false, true, false]);
    script.diagnostics = (true, true);
    assert_eq!(configure(&mut ds, KEY_SLOT_A, block(127), &mut script), Poll::Ready);
    assert_eq!(script.asked, configure_requests(KEY_SLOT_A, 2, 3, 1));
    assert_eq!(script.asked.len(), 2 + 3 + 1 + 8);
    assert!(ds.key_mismatch());
    assert!(!ds.is_busy());
}

#[test]
fn block_is_loaded_between_start_and_compute() {
    let mut ds = driver(limits(0, 0, 0, 0));
    let mut script = Script::new();
    assert_eq!(configure(&mut ds, KEY_SLOT_A, block(31), &mut script), Poll::Ready);
    let at = |request: Request| script.asked.iter().position(|r| *r == request).unwrap();
    assert!(at(Request::AssertStart) < at(Request::LoadParameters));
    assert!(at(Request::LoadParameters) < at(Request::AssertCompute));
    assert_eq!(script.asked.iter().filter(|r| **r == Request::LoadParameters).count(), 1);
}

#[test]
fn keyed_hash_error_ends_configure() {
    let mut ds = driver(limits(4, 4, 4, 4));
    let mut script = Script::new();
    script.hmac = VecDeque::from(vec![Poll::WouldBlock, Poll::Failed(42)]);
    assert_eq!(
        configure(&mut ds, KEY_SLOT_A, block(127), &mut script),
        Poll::Failed(Error::Hmac(42))
    );
    assert_eq!(
        script.asked,
        vec![
            Request::HmacInit,
            Request::HmacConfigure(KEY_SLOT_A),
            Request::HmacConfigure(KEY_SLOT_A),
        ]
    );
    assert_eq!(ds.phase(), Phase::Failed);
    assert_eq!(ds.pending(), None);
}

#[test]
fn keyed_hash_that_never_accepts_times_out() {
    let mut ds = driver(limits(3, 4, 4, 4));
    let mut script = Script::new();
    script.hmac = VecDeque::from(vec![
        Poll::WouldBlock,
        Poll::WouldBlock,
        Poll::WouldBlock,
        Poll::WouldBlock,
        Poll::WouldBlock,
    ]);
    assert_eq!(
        configure(&mut ds, KEY_SLOT_A, block(127), &mut script),
        Poll::Failed(Error::Timeout)
    );
    assert_eq!(script.asked.len(), 1 + 4);
    assert_eq!(ds.phase(), Phase::Failed);
}

#[test]
fn engine_that_never_starts_times_out() {
    let mut ds = driver(limits(1, 2, 4, 4));
    let mut script = Script::new();
    script.then_busy = true;
    assert_eq!(
        configure(&mut ds, KEY_SLOT_A, block(127), &mut script),
        Poll::Failed(Error::Timeout)
    );
    assert_eq!(
        script.asked,
        vec![
            Request::HmacInit,
            Request::HmacConfigure(KEY_SLOT_A),
            Request::AssertStart,
            Request::QueryBusy,
            Request::QueryBusy,
            Request::QueryBusy,
        ]
    );
    assert!(ds.is_busy());
    assert_eq!(ds.phase(), Phase::Failed);
}

#[test]
fn engine_that_never_computes_times_out() {
    let mut ds = driver(limits(1, 2, 0, 4));
    let mut script = Script::new();
    script.busy = VecDeque::from(vec![false]);
    script.then_busy = true;
    assert_eq!(
        configure(&mut ds, KEY_SLOT_A, block(127), &mut script),
        Poll::Failed(Error::Timeout)
    );
    assert_eq!(script.asked.last(), Some(&Request::QueryBusy));
    assert_eq!(script.asked.len(), 8);
    assert_eq!(ds.phase(), Phase::Failed);
}

#[test]
fn finalize_on_busy_engine_would_block_and_can_be_repeated() {
    let mut ds = driver(limits(0, 0, 0, 5));
    let mut script = Script::new();
    assert_eq!(configure(&mut ds, KEY_SLOT_A, block(127), &mut script), Poll::Ready);
    script.then_busy = true;
    for _ in 0..5 {
        script.asked.clear();
        assert_eq!(finalize(&mut ds, &mut script), Poll::WouldBlock);
        assert_eq!(script.asked, vec![Request::AssertFinish, Request::QueryBusy]);
        assert_eq!(ds.phase(), Phase::Configured);
        assert!(ds.is_busy());
    }
    script.then_busy = false;
    assert_eq!(finalize(&mut ds, &mut script), Poll::Ready);
    assert!(!ds.is_busy());
}

#[test]
fn finalize_on_stuck_engine_times_out() {
    let mut ds = driver(limits(0, 0, 0, 2));
    let mut script = Script::new();
    assert_eq!(configure(&mut ds, KEY_SLOT_A, block(127), &mut script), Poll::Ready);
    script.then_busy = true;
    script.asked.clear();
    assert_eq!(finalize(&mut ds, &mut script), Poll::WouldBlock);
    assert_eq!(finalize(&mut ds, &mut script), Poll::WouldBlock);
    assert_eq!(finalize(&mut ds, &mut script), Poll::Failed(Error::Timeout));
    assert_eq!(ds.phase(), Phase::Failed);
    assert!(!script.asked.contains(&Request::ReadFaults));
}

#[test]
fn finalize_with_zero_bound_samples_once() {
    let mut ds = driver(limits(0, 0, 0, 0));
    let mut script = Script::new();
    assert_eq!(configure(&mut ds, KEY_SLOT_A, block(127), &mut script), Poll::Ready);
    script.then_busy = true;
    assert_eq!(finalize(&mut ds, &mut script), Poll::Failed(Error::Timeout));
}

#[test]
fn reset_leads_on_after_a_failure() {
    let mut ds = driver(limits(0, 0, 0, 0));
    let mut script = Script::new();
    script.hmac = VecDeque::from(vec![Poll::Failed(1)]);
    script.diagnostics = (true, true);
    assert_eq!(
        configure(&mut ds, KEY_SLOT_A, block(127), &mut script),
        Poll::Failed(Error::Hmac(1))
    );
    script.asked.clear();
    let first = ds.reset();
    assert_eq!(first, Step::Perform(Request::ResetEngine));
    assert_eq!(drive(&mut ds, first, &mut script), Poll::Ready);
    assert_eq!(script.asked, vec![Request::ResetEngine]);
    assert_eq!(ds.phase(), Phase::Idle);
    assert!(ds.block().is_none());
    assert_eq!(configure(&mut ds, KEY_SLOT_B, block(127), &mut script), Poll::Ready);
}

#[test]
fn accepts_only_the_reply_in_kind() {
    let mut ds = driver(limits(1, 1, 1, 1));
    assert!(!ds.accepts(&Reply::<u8>::Busy(false)));
    let _: Step<u8> = ds.configure(KEY_SLOT_A, block(5));
    assert_eq!(ds.pending(), Some(Request::HmacInit));
    assert!(ds.accepts(&Reply::<u8>::Done));
    assert!(!ds.accepts(&Reply::<u8>::Busy(false)));
    assert!(!ds.accepts(&Reply::<u8>::Hmac(Poll::Ready)));
    let step: Step<u8> = ds.advance(Reply::Done);
    assert_eq!(step, Step::Perform(Request::HmacConfigure(KEY_SLOT_A)));
    assert!(ds.accepts(&Reply::<u8>::Hmac(Poll::WouldBlock)));
    assert!(!ds.accepts(&Reply::<u8>::Done));
    assert!(!ds.accepts(&Reply::<u8>::KeyMismatch(true)));
    assert!(!ds.accepts(&Reply::<u8>::Faults(FaultLatches { padding_bad: false, digest_bad: false })));
}

#[test]
fn budget_bounds_the_requests_left() {
    let mut ds = driver(limits(2, 3, 1, 9));
    assert_eq!(ds.budget(), 0);
    let mut step: Step<u8> = ds.configure(KEY_SLOT_A, block(127));
    assert_eq!(ds.budget(), 2 + 3 + 1 + 8);
    let mut script = Script::new();
    script.hmac = VecDeque::from(vec![Poll::WouldBlock, Poll::WouldBlock, Poll::Ready]);
    script.busy = VecDeque::from(vec![true, true, true, false, true, false]);
    let mut before = ds.budget();
    while let Step::Perform(request) = step {
        step = ds.advance(script.answer(request));
        assert!(ds.budget() < before);
        before = ds.budget();
    }
    assert_eq!(step, Step::Finished(Poll::Ready));
    assert_eq!(ds.budget(), 0);
    let _: Step<u8> = ds.finalize();
    assert_eq!(ds.budget(), 3);
}

#[test]
fn budget_holds_for_the_largest_bounds() {
    let mut ds = driver(limits(u32::MAX, u32::MAX, u32::MAX, u32::MAX));
    let _: Step<u8> = ds.configure(KEY_SLOT_A, block(0));
    assert_eq!(ds.budget(), 3 * (u32::MAX as u64) + 8);
}
