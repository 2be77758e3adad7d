//! Call orchestration: the retry/backoff/throttle-recovery state machine
//! that drives one logical request end to end.
//!
//! One exchange with the transport yields a [`TransportEvent`]; [`step`]
//! decides what to do with it: deliver the body, reject definitively,
//! pause the whole quota set for a server-given delay, or back off and
//! retry, spending one unit of the attempt budget. [`run_call`] replays a
//! whole call against a transport whose responses are given up front, and
//! is proved to follow the mathematical state machine [`call_model`].

use vstd::prelude::*;

use crate::limiter::BucketModel;
use crate::quota::acquire_result;
use crate::quota::first_exhausted;
use crate::quota::lemma_first_exhausted_is;
use crate::quota::lemma_shape_eq_pointwise;
use crate::quota::QuotaSet;
use crate::util::all_dec_digits;
use crate::util::dec_value;
use crate::util::parse_u64;

verus! {

/// The fixed attempt budget: how many sends one logical call may spend
/// before it is reported as failed.
pub const MAX_ATTEMPTS: u8 = 3;

/// What one exchange with the transport produced.
pub enum TransportEvent {
    /// The server answered: its status code, the raw value of the
    /// retry-after header if it was present, and the body text.
    Response { status: u16, retry_after: Option<String>, body: String },
    /// The exchange itself failed (connection error, timeout).
    Failure,
}

/// The four classes of status codes the orchestrator distinguishes.
pub enum StatusClass {
    /// 2xx: terminal success.
    Success,
    /// 429: the server asks every caller to pause.
    Throttled,
    /// 404: the resource definitively does not exist; never retried.
    NotFound,
    /// Everything else: transient, retried within the attempt budget.
    Transient,
}

/// Which class a status code falls in.
pub open spec fn classify_spec(status: u16) -> StatusClass {
    if 200 <= status && status < 300 {
        StatusClass::Success
    } else if status == 429 {
        StatusClass::Throttled
    } else if status == 404 {
        StatusClass::NotFound
    } else {
        StatusClass::Transient
    }
}

/// Exec mirror of [`classify_spec`].
pub fn classify_status(status: u16) -> (r: StatusClass)
    ensures
        r == classify_spec(status),
{
    if 200 <= status && status < 300 {
        StatusClass::Success
    } else if status == 429 {
        StatusClass::Throttled
    } else if status == 404 {
        StatusClass::NotFound
    } else {
        StatusClass::Transient
    }
}

/// The class of an event: a transport failure counts as transient.
pub open spec fn event_class(e: TransportEvent) -> StatusClass {
    match e {
        TransportEvent::Response { status, .. } => classify_spec(status),
        TransportEvent::Failure => StatusClass::Transient,
    }
}

/// The body text an event carries.
pub open spec fn event_body(e: TransportEvent) -> Seq<char> {
    match e {
        TransportEvent::Response { body, .. } => body@,
        TransportEvent::Failure => Seq::<char>::empty(),
    }
}

/// The pause a retry-after header value asks for: its decimal value,
/// if the header is a plain decimal number that fits.
pub open spec fn header_delay(h: Option<String>) -> Option<u64> {
    match h {
        Some(s) => if s@.len() > 0 && all_dec_digits(s@) && dec_value(s@) <= u64::MAX {
            Some(dec_value(s@) as u64)
        } else {
            None
        },
        None => None,
    }
}

/// The usable server-given pause of an event: present exactly when the
/// status is the throttle signal and the retry-after header parses.
/// Without a usable delay the orchestrator cannot compute a pause and
/// falls back to the transient-failure path.
pub open spec fn event_retry_delay(e: TransportEvent) -> Option<u64> {
    match e {
        TransportEvent::Response { status, retry_after, .. } => if classify_spec(status)
            is Throttled {
            header_delay(retry_after)
        } else {
            None
        },
        TransportEvent::Failure => None,
    }
}

/// What the orchestrator does after one exchange.
pub enum StepOutcome {
    /// Terminal success: hand this body to the decoder.
    Deliver { body: String },
    /// Terminal failure: the resource does not exist; do not retry.
    RejectNotFound,
    /// Terminal failure: the attempt budget is spent.
    RejectExhausted,
    /// Drain every bucket, wait this many seconds, refill every bucket,
    /// then re-acquire permits; the attempt budget is not touched.
    Pause { delay_secs: u64 },
    /// Wait a short fixed backoff, then re-acquire permits; one unit of
    /// the attempt budget is spent.
    Backoff,
}

/// Decide what to do with one transport event, given how many attempts
/// the call has already spent.
///
/// Every event but a throttle signal with a usable delay consumes one
/// attempt; throttling is an expected control signal, not an error.
pub fn step(attempt_count: u8, event: &TransportEvent) -> (r: (StepOutcome, u8))
    requires
        attempt_count < MAX_ATTEMPTS,
    ensures
        (event_class(*event) is Throttled && event_retry_delay(*event) is Some) ==> r.1
            == attempt_count,
        !(event_class(*event) is Throttled && event_retry_delay(*event) is Some) ==> r.1
            == attempt_count + 1,
        event_class(*event) is Success ==> (r.0 matches StepOutcome::Deliver { body } && body@
            == event_body(*event)),
        event_class(*event) is NotFound ==> r.0 is RejectNotFound,
        event_retry_delay(*event) matches Some(d) ==> (r.0 matches StepOutcome::Pause {
            delay_secs,
        } && delay_secs == d),
        (event_class(*event) is Transient || (event_class(*event) is Throttled
            && event_retry_delay(*event) is None)) ==> if attempt_count + 1 < MAX_ATTEMPTS {
            r.0 is Backoff
        } else {
            r.0 is RejectExhausted
        },
{
    match event {
        TransportEvent::Response { status, retry_after, body } => {
            match classify_status(*status) {
                StatusClass::Success => (StepOutcome::Deliver { body: body.clone() }, attempt_count
                    + 1),
                StatusClass::NotFound => (StepOutcome::RejectNotFound, attempt_count + 1),
                StatusClass::Throttled => {
                    let parsed: Option<u64> = match retry_after {
                        Some(h) => parse_u64(h.as_str()),
                        None => None,
                    };
                    match parsed {
                        Some(delay) => (StepOutcome::Pause { delay_secs: delay }, attempt_count),
                        None => (transient_outcome(attempt_count), attempt_count + 1),
                    }
                },
                StatusClass::Transient => (transient_outcome(attempt_count), attempt_count + 1),
            }
        },
        TransportEvent::Failure => (transient_outcome(attempt_count), attempt_count + 1),
    }
}

/// The reaction to a transient failure: back off if budget is left,
/// otherwise give up.
fn transient_outcome(attempt_count: u8) -> (r: StepOutcome)
    requires
        attempt_count < MAX_ATTEMPTS,
    ensures
        attempt_count + 1 < MAX_ATTEMPTS ==> r is Backoff,
        attempt_count + 1 >= MAX_ATTEMPTS ==> r is RejectExhausted,
{
    if attempt_count + 1 < MAX_ATTEMPTS {
        StepOutcome::Backoff
    } else {
        StepOutcome::RejectExhausted
    }
}

/// A bucket sequence with every bucket reset to full, as the periodic
/// timers and `refill_all` leave it.
pub open spec fn refilled(s: Seq<BucketModel>) -> Seq<BucketModel> {
    s.map(|_i: int, b: BucketModel| BucketModel { available: b.capacity, ..b })
}

/// What one permit-acquisition round does to the quota set: if a pass
/// over the current state succeeds it is taken; otherwise the caller
/// waits for the periodic refill, after which the set is full and a pass
/// is sure to succeed. The second component counts the waits (0 or 1).
pub open spec fn acquire_round(q: Seq<BucketModel>) -> (Seq<BucketModel>, nat) {
    if first_exhausted(q) == q.len() {
        (acquire_result(q), 0)
    } else {
        (acquire_result(refilled(q)), 1)
    }
}

/// Acquire one permit from every bucket, waiting out a refill period
/// when a pass fails. Mirrors [`acquire_round`]; the actual sleeping
/// between the failed pass and the refill is the caller's.
pub fn wait_for_permits(quota: &mut QuotaSet) -> (waited: bool)
    requires
        old(quota).wf(),
    ensures
        final(quota).wf(),
        QuotaSet::shape(final(quota)@) == QuotaSet::shape(old(quota)@),
        final(quota)@ == acquire_round(old(quota)@).0,
        (if waited {
            1nat
        } else {
            0nat
        }) == acquire_round(old(quota)@).1,
{
    let first = quota.acquire_all();
    if first.is_ok() {
        false
    } else {
        quota.refill_all();
        proof {
            lemma_shape_eq_pointwise(quota@, old(quota)@);
            assert(quota@ =~= refilled(old(quota)@));
            assert forall|i: int| 0 <= i < quota@.len() implies quota@[i].available > 0 by {
                assert(old(quota)@[i].wf());
            }
            lemma_first_exhausted_is(quota@, quota@.len() as int);
        }
        let second = quota.acquire_all();
        proof {
            assert(second is Ok);
        }
        true
    }
}

/// The terminal outcomes a call can reach.
pub enum CallKind {
    /// A 2xx response: the body is delivered.
    Delivered,
    /// A 404 response: definitive, never retried.
    NotFound,
    /// The attempt budget was spent on transient failures.
    Exhausted,
}

/// The mathematical result of running one call against a transport whose
/// responses are `events`, in order.
pub ghost struct CallModel {
    /// Which terminal outcome the call reached.
    pub kind: CallKind,
    /// The delivered body (empty unless `kind` is `Delivered`).
    pub body: Seq<char>,
    /// The attempt count at the end of the call.
    pub attempts: nat,
    /// How many exchanges were performed.
    pub sends: nat,
    /// The server-given pauses served, in order.
    pub pauses: Seq<u64>,
    /// How many refill periods were waited out for permits.
    pub waits: nat,
    /// The quota set as the call leaves it.
    pub quota: Seq<BucketModel>,
}

/// The state machine of one logical call, as a function of the
/// transport's responses.
///
/// Permits are acquired before every send ([`acquire_round`]). A 2xx or
/// 404 response is terminal. A throttle signal with a usable delay
/// records the pause, leaves the quota set refilled (drained, then
/// refilled when the pause ends), and does not consume an attempt. Any
/// other response — and a transport that gives no response at all —
/// consumes one attempt; when the budget is spent the call ends. The
/// attempt budget is checked before acquiring permits.
pub open spec fn call_model(
    events: Seq<TransportEvent>,
    attempts: nat,
    max: nat,
    q: Seq<BucketModel>,
) -> CallModel
    decreases events.len(), max - attempts,
{
    if attempts >= max {
        CallModel {
            kind: CallKind::Exhausted,
            body: Seq::empty(),
            attempts,
            sends: 0,
            pauses: Seq::empty(),
            waits: 0,
            quota: q,
        }
    } else {
        let q1 = acquire_round(q).0;
        let w = acquire_round(q).1;
        if events.len() == 0 {
            if attempts + 1 >= max {
                CallModel {
                    kind: CallKind::Exhausted,
                    body: Seq::empty(),
                    attempts: attempts + 1,
                    sends: 1,
                    pauses: Seq::empty(),
                    waits: w,
                    quota: q1,
                }
            } else {
                let rec = call_model(events, attempts + 1, max, q1);
                CallModel { sends: rec.sends + 1, waits: w + rec.waits, ..rec }
            }
        } else {
            let e = events[0];
            match event_class(e) {
                StatusClass::Success => CallModel {
                    kind: CallKind::Delivered,
                    body: event_body(e),
                    attempts: attempts + 1,
                    sends: 1,
                    pauses: Seq::empty(),
                    waits: w,
                    quota: q1,
                },
                StatusClass::NotFound => CallModel {
                    kind: CallKind::NotFound,
                    body: Seq::empty(),
                    attempts: attempts + 1,
                    sends: 1,
                    pauses: Seq::empty(),
                    waits: w,
                    quota: q1,
                },
                StatusClass::Throttled => match event_retry_delay(e) {
                    Some(d) => {
                        let rec = call_model(events.skip(1), attempts, max, refilled(q1));
                        CallModel {
                            sends: rec.sends + 1,
                            pauses: seq![d] + rec.pauses,
                            waits: w + rec.waits,
                            ..rec
                        }
                    },
                    None => {
                        if attempts + 1 >= max {
                            CallModel {
                                kind: CallKind::Exhausted,
                                body: Seq::empty(),
                                attempts: attempts + 1,
                                sends: 1,
                                pauses: Seq::empty(),
                                waits: w,
                                quota: q1,
                            }
                        } else {
                            let rec = call_model(events.skip(1), attempts + 1, max, q1);
                            CallModel { sends: rec.sends + 1, waits: w + rec.waits, ..rec }
                        }
                    },
                },
                StatusClass::Transient => {
                    if attempts + 1 >= max {
                        CallModel {
                            kind: CallKind::Exhausted,
                            body: Seq::empty(),
                            attempts: attempts + 1,
                            sends: 1,
                            pauses: Seq::empty(),
                            waits: w,
                            quota: q1,
                        }
                    } else {
                        let rec = call_model(events.skip(1), attempts + 1, max, q1);
                        CallModel { sends: rec.sends + 1, waits: w + rec.waits, ..rec }
                    }
                },
            }
        }
    }
}

/// An error a call surfaces to its caller.
#[derive(Debug)]
pub enum CallError {
    /// The resource definitively does not exist upstream.
    NotFound { endpoint: String },
    /// The call failed after spending its whole attempt budget.
    AttemptsExhausted { endpoint: String, attempts: u8 },
    /// A successful response whose body did not match the expected
    /// shape; raised by the decoding layer, not retried.
    Decode { endpoint: String, message: String },
}

/// Everything one finished call reports.
#[derive(Debug)]
pub struct CallReport {
    /// The delivered body, or the terminal error.
    pub result: Result<String, CallError>,
    /// The attempt count at the end of the call.
    pub attempt_count: u8,
    /// How many exchanges were performed.
    pub sends: usize,
    /// The server-given pauses served, in order.
    pub pauses: Vec<u64>,
    /// How many refill periods were waited out for permits.
    pub refill_waits: usize,
}

/// The loop invariant of [`run_call`]: what has been accumulated so far,
/// plus the model of the remaining events, makes up the whole model.
spec fn run_call_inv(
    m: CallModel,
    rest: Seq<TransportEvent>,
    attempts: nat,
    q: Seq<BucketModel>,
    sends: nat,
    pauses: Seq<u64>,
    waits: nat,
) -> bool {
    let rec = call_model(rest, attempts, MAX_ATTEMPTS as nat, q);
    &&& m.kind == rec.kind
    &&& m.body == rec.body
    &&& m.attempts == rec.attempts
    &&& m.sends == sends + rec.sends
    &&& m.pauses == pauses + rec.pauses
    &&& m.waits == waits + rec.waits
    &&& m.quota == rec.quota
}

/// Run one whole call against a transport whose responses are given up
/// front, in order; when the responses run out, every further exchange
/// counts as a transport failure.
///
/// The report is exactly what [`call_model`] says for these events, and
/// the quota set is left exactly as the model says.
pub fn run_call(quota: &mut QuotaSet, endpoint_url: &str, events: Vec<TransportEvent>) -> (r:
    CallReport)
    requires
        old(quota).wf(),
        events@.len() + MAX_ATTEMPTS <= usize::MAX,
    ensures
        final(quota).wf(),
        final(quota)@ == call_model(events@, 0, MAX_ATTEMPTS as nat, old(quota)@).quota,
        r.attempt_count == call_model(events@, 0, MAX_ATTEMPTS as nat, old(quota)@).attempts,
        r.sends == call_model(events@, 0, MAX_ATTEMPTS as nat, old(quota)@).sends,
        r.pauses@ == call_model(events@, 0, MAX_ATTEMPTS as nat, old(quota)@).pauses,
        r.refill_waits == call_model(events@, 0, MAX_ATTEMPTS as nat, old(quota)@).waits,
        call_model(events@, 0, MAX_ATTEMPTS as nat, old(quota)@).kind is Delivered ==> (r.result
            matches Ok(b) && b@ == call_model(events@, 0, MAX_ATTEMPTS as nat, old(quota)@).body),
        call_model(events@, 0, MAX_ATTEMPTS as nat, old(quota)@).kind is NotFound ==> (r.result
            matches Err(CallError::NotFound { endpoint }) && endpoint@ == endpoint_url@),
        call_model(events@, 0, MAX_ATTEMPTS as nat, old(quota)@).kind is Exhausted ==> (r.result
            matches Err(CallError::AttemptsExhausted { endpoint, attempts }) && endpoint@
            == endpoint_url@ && attempts == call_model(
            events@,
            0,
            MAX_ATTEMPTS as nat,
            old(quota)@,
        ).attempts),
{
    let ghost m = call_model(events@, 0, MAX_ATTEMPTS as nat, old(quota)@);
    proof {
        assert(events@.skip(0) =~= events@);
        assert(Seq::<u64>::empty() + m.pauses =~= m.pauses);
    }
    let mut i: usize = 0;
    let mut attempt_count: u8 = 0;
    let mut sends: usize = 0;
    let mut waits: usize = 0;
    let mut pauses: Vec<u64> = Vec::new();
    loop
        invariant
            quota.wf(),
            m == call_model(events@, 0, MAX_ATTEMPTS as nat, old(quota)@),
            attempt_count < MAX_ATTEMPTS,
            i <= events@.len(),
            events@.len() + MAX_ATTEMPTS <= usize::MAX,
            sends <= i + attempt_count,
            waits <= sends,
            run_call_inv(
                m,
                events@.skip(i as int),
                attempt_count as nat,
                quota@,
                sends as nat,
                pauses@,
                waits as nat,
            ),
        decreases events@.len() - i + MAX_ATTEMPTS - attempt_count,
    {
        let ghost rest = events@.skip(i as int);
        let ghost q_before = quota@;
        let ghost rec = call_model(rest, attempt_count as nat, MAX_ATTEMPTS as nat, q_before);
        let waited = wait_for_permits(quota);
        if waited {
            waits = waits + 1;
        }
        sends = sends + 1;
        let (outcome, next_count) = if i < events.len() {
            proof {
                assert(rest[0] == events@[i as int]);
                assert(rest.skip(1) =~= events@.skip(i as int + 1));
            }
            let r = step(attempt_count, &events[i]);
            i = i + 1;
            r
        } else {
            proof {
                assert(rest.len() == 0);
            }
            let failure = TransportEvent::Failure;
            step(attempt_count, &failure)
        };
        match outcome {
            StepOutcome::Deliver { body } => {
                return CallReport {
                    result: Ok(body),
                    attempt_count: next_count,
                    sends,
                    pauses,
                    refill_waits: waits,
                };
            },
            StepOutcome::RejectNotFound => {
                return CallReport {
                    result: Err(CallError::NotFound { endpoint: endpoint_url.to_owned() }),
                    attempt_count: next_count,
                    sends,
                    pauses,
                    refill_waits: waits,
                };
            },
            StepOutcome::RejectExhausted => {
                return CallReport {
                    result: Err(
                        CallError::AttemptsExhausted {
                            endpoint: endpoint_url.to_owned(),
                            attempts: next_count,
                        },
                    ),
                    attempt_count: next_count,
                    sends,
                    pauses,
                    refill_waits: waits,
                };
            },
            StepOutcome::Pause { delay_secs } => {
                let ghost pauses_before = pauses@;
                quota.drain_all();
                pauses.push(delay_secs);
                quota.refill_all();
                proof {
                    lemma_shape_eq_pointwise(quota@, q_before);
                    lemma_shape_eq_pointwise(acquire_round(q_before).0, q_before);
                    assert(quota@ =~= refilled(acquire_round(q_before).0));
                    assert(pauses@ =~= pauses_before + seq![delay_secs]);
                    assert(pauses_before + (seq![delay_secs] + call_model(
                        rest.skip(1),
                        attempt_count as nat,
                        MAX_ATTEMPTS as nat,
                        refilled(acquire_round(q_before).0),
                    ).pauses) =~= (pauses_before + seq![delay_secs]) + call_model(
                        rest.skip(1),
                        attempt_count as nat,
                        MAX_ATTEMPTS as nat,
                        refilled(acquire_round(q_before).0),
                    ).pauses);
                }
                attempt_count = next_count;
            },
            StepOutcome::Backoff => {
                attempt_count = next_count;
            },
        }
    }
}

/// Not-found is terminal: a call whose first exchange yields a
/// not-found status ends at once, after exactly that one send, with the
/// not-found outcome — whatever responses would have followed and
/// whatever state the quota set is in.
pub proof fn lemma_not_found_terminal(events: Seq<TransportEvent>, q: Seq<BucketModel>)
    requires
        events.len() >= 1,
        event_class(events[0]) is NotFound,
    ensures
        call_model(events, 0, MAX_ATTEMPTS as nat, q).kind is NotFound,
        call_model(events, 0, MAX_ATTEMPTS as nat, q).sends == 1,
        call_model(events, 0, MAX_ATTEMPTS as nat, q).attempts == 1,
{
}

/// Attempt-budget enforcement, generalized over the attempts already
/// spent: if every response the transport has left is of the transient
/// class, the call performs exactly the remaining budget of sends and
/// ends with the exhausted outcome. A transport that stops responding
/// behaves the same way.
pub proof fn lemma_attempt_budget_from(
    events: Seq<TransportEvent>,
    attempts: nat,
    q: Seq<BucketModel>,
)
    requires
        attempts < MAX_ATTEMPTS as nat,
        forall|i: int| 0 <= i < events.len() ==> event_class(events[i]) is Transient,
    ensures
        call_model(events, attempts, MAX_ATTEMPTS as nat, q).kind is Exhausted,
        call_model(events, attempts, MAX_ATTEMPTS as nat, q).sends == MAX_ATTEMPTS as nat
            - attempts,
        call_model(events, attempts, MAX_ATTEMPTS as nat, q).attempts == MAX_ATTEMPTS as nat,
    decreases events.len(), MAX_ATTEMPTS as nat - attempts,
{
    if attempts + 1 < MAX_ATTEMPTS as nat {
        if events.len() == 0 {
            lemma_attempt_budget_from(events, attempts + 1, acquire_round(q).0);
        } else {
            let rest = events.skip(1);
            assert forall|i: int| 0 <= i < rest.len() implies event_class(rest[i])
                is Transient by {
                assert(rest[i] == events[i + 1]);
            }
            lemma_attempt_budget_from(rest, attempts + 1, acquire_round(q).0);
        }
    }
}

/// Attempt-budget enforcement: a call whose transport yields only
/// transient failures (a generic server-error status, or no response at
/// all) performs exactly `MAX_ATTEMPTS` sends and ends with the
/// attempts-exhausted outcome — not one send more.
pub proof fn lemma_attempt_budget(events: Seq<TransportEvent>, q: Seq<BucketModel>)
    requires
        forall|i: int| 0 <= i < events.len() ==> event_class(events[i]) is Transient,
    ensures
        call_model(events, 0, MAX_ATTEMPTS as nat, q).kind is Exhausted,
        call_model(events, 0, MAX_ATTEMPTS as nat, q).sends == MAX_ATTEMPTS as nat,
        call_model(events, 0, MAX_ATTEMPTS as nat, q).attempts == MAX_ATTEMPTS as nat,
{
    lemma_attempt_budget_from(events, 0, q);
}

} // verus!
