//! The ingestion of one request, as a state machine.
//!
//! The machine decides; its caller acts.  Each step takes the event that the
//! caller observed and the reading of a monotonic clock, and returns the
//! action to perform next: a question to the identity store, a write to one
//! of the stores, or the answer to the request.  The clock counts nanoseconds
//! from the moment the request was received.
//!
//! A request passes through these stages, and ends at the first failure:
//! the vessel is checked; the readings are classified and the quarantined
//! signals are written one by one; the accepted signals are written one by
//! one; the metrics are written; the response is given.  Writes that were
//! made before a failure stay.

use crate::registry::{SignalKind, SignalRegistry};
use crate::rejection::Rejection;
use crate::request::{
    accepted_count, accepted_of, classify_all, outcome_counts, quarantined_of, views,
    IncomingReading, ParsedSignal, ParsedSignalView, QuarantinedSignal, QuarantinedSignalView,
    ReadingView, TelemetryRequest,
};
use crate::timestamp::{rfc3339_instant, Timestamp};
use vstd::prelude::*;

verus! {

/// The nanoseconds in a millisecond.
pub const NANOS_PER_MILLI: u64 = 1_000_000;

/// The whole milliseconds between two readings of the clock, and 0 where the
/// second reading is not the later one.
pub open spec fn elapsed_ms(from: u64, to: u64) -> i64 {
    if from <= to {
        ((to - from) / (NANOS_PER_MILLI as int)) as i64
    } else {
        0
    }
}

/// The whole milliseconds between two readings of the clock.
pub fn elapsed_millis(from: u64, to: u64) -> (ms: i64)
    ensures
        ms == elapsed_ms(from, to),
        0 <= ms,
{
    if from <= to {
        let span: u64 = (to - from) / NANOS_PER_MILLI;
        span as i64
    } else {
        0
    }
}

/// Where a request stands.
#[derive(Debug, Clone, Copy, PartialEq, Eq, Structural)]
pub enum Stage {
    /// Nothing has been asked of a store yet.
    Opened,
    /// The identity store has been asked about the vessel.  The validation
    /// window opened at `since`.
    CheckingVessel { since: u64 },
    /// The quarantined signal at `next` is being written.
    Quarantining { next: usize, since: u64 },
    /// The accepted signal at `next` is being written.  The ingestion window
    /// opened at `since`.
    Ingesting { next: usize, since: u64, validation_ms: i64 },
    /// The metrics are being written.
    RecordingMetrics { validation_ms: i64, ingestion_ms: i64, total_ms: i64 },
    /// The request has been answered.
    Finished,
}

/// What the caller observed since the last action.
#[derive(Debug, Clone, Copy, PartialEq, Eq, Structural)]
pub enum Event {
    /// The request is to be started.
    Begin,
    /// The identity store answered: the vessel is registered and active, or
    /// it is not.
    VesselFound(bool),
    /// The write succeeded.
    Stored,
    /// The store failed.
    StoreFailed,
}

/// The answer to a request that was ingested.
#[allow(non_snake_case)]
#[derive(Debug, Clone, PartialEq, Eq)]
pub struct IngestionResponse {
    pub ok: bool,
    pub vesselId: String,
    pub validSignals: usize,
    pub validationMs: i64,
    pub ingestionMs: i64,
    pub totalMs: i64,
}

/// The response, with its text as characters.
#[allow(non_snake_case)]
pub ghost struct IngestionResponseView {
    pub ok: bool,
    pub vesselId: Seq<char>,
    pub validSignals: usize,
    pub validationMs: i64,
    pub ingestionMs: i64,
    pub totalMs: i64,
}

impl View for IngestionResponse {
    type V = IngestionResponseView;

    open spec fn view(&self) -> IngestionResponseView {
        IngestionResponseView {
            ok: self.ok,
            vesselId: self.vesselId@,
            validSignals: self.validSignals,
            validationMs: self.validationMs,
            ingestionMs: self.ingestionMs,
            totalMs: self.totalMs,
        }
    }
}

/// The timings of one request, as they are stored.
#[allow(non_snake_case)]
#[derive(Debug, Clone, PartialEq, Eq)]
pub struct IngestionMetrics {
    pub vesselId: String,
    pub validationMs: i64,
    pub ingestionMs: i64,
    pub totalMs: i64,
}

/// The metrics row, with its text as characters.
#[allow(non_snake_case)]
pub ghost struct IngestionMetricsView {
    pub vesselId: Seq<char>,
    pub validationMs: i64,
    pub ingestionMs: i64,
    pub totalMs: i64,
}

impl View for IngestionMetrics {
    type V = IngestionMetricsView;

    open spec fn view(&self) -> IngestionMetricsView {
        IngestionMetricsView {
            vesselId: self.vesselId@,
            validationMs: self.validationMs,
            ingestionMs: self.ingestionMs,
            totalMs: self.totalMs,
        }
    }
}

/// What the caller is to do next.
#[derive(Debug, Clone, PartialEq, Eq)]
pub enum Action {
    /// Ask the identity store whether the vessel is registered and active.
    CheckVessel { vessel_id: String },
    /// Write one row to the filtered store.
    WriteQuarantined { vessel_id: String, timestamp: Timestamp, signal: QuarantinedSignal },
    /// Write one row to the raw store.
    WriteAccepted { vessel_id: String, timestamp: Timestamp, signal: ParsedSignal },
    /// Write the metrics row of the request.
    WriteMetrics(IngestionMetrics),
    /// Answer the request: it was ingested.
    Respond(IngestionResponse),
    /// Answer the request: it is turned away.
    Reject(Rejection),
}

/// An action, with its text as characters.
pub ghost enum ActionView {
    CheckVessel { vessel_id: Seq<char> },
    WriteQuarantined { vessel_id: Seq<char>, timestamp: Timestamp, signal: QuarantinedSignalView },
    WriteAccepted { vessel_id: Seq<char>, timestamp: Timestamp, signal: ParsedSignalView },
    WriteMetrics(IngestionMetricsView),
    Respond(IngestionResponseView),
    Reject(Rejection),
}

impl View for Action {
    type V = ActionView;

    open spec fn view(&self) -> ActionView {
        match *self {
            Action::CheckVessel { vessel_id } => ActionView::CheckVessel { vessel_id: vessel_id@ },
            Action::WriteQuarantined { vessel_id, timestamp, signal } => {
                ActionView::WriteQuarantined { vessel_id: vessel_id@, timestamp, signal: signal@ }
            },
            Action::WriteAccepted { vessel_id, timestamp, signal } => ActionView::WriteAccepted {
                vessel_id: vessel_id@,
                timestamp,
                signal: signal@,
            },
            Action::WriteMetrics(metrics) => ActionView::WriteMetrics(metrics@),
            Action::Respond(response) => ActionView::Respond(response@),
            Action::Reject(rejection) => ActionView::Reject(rejection),
        }
    }
}

impl ActionView {
    /// The action writes to a store.
    pub open spec fn is_write(self) -> bool {
        self is WriteQuarantined || self is WriteAccepted || self is WriteMetrics
    }

    /// The action answers the request.
    pub open spec fn is_answer(self) -> bool {
        self is Respond || self is Reject
    }
}

/// One request on its way through the stages.
pub struct Ingestion<'a> {
    registry: &'a SignalRegistry,
    vessel_id: String,
    timestamp: Timestamp,
    readings: Vec<IncomingReading>,
    accepted: Vec<ParsedSignal>,
    quarantined: Vec<QuarantinedSignal>,
    stage: Stage,
}

/// The state of a request: what it was opened with, and its stage.
pub ghost struct IngestionView {
    pub registry: Map<Seq<char>, SignalKind>,
    pub vessel_id: Seq<char>,
    pub timestamp: Timestamp,
    pub readings: Seq<ReadingView>,
    pub stage: Stage,
}

impl IngestionView {
    /// The accepted signals of the request.
    pub open spec fn accepted(self) -> Seq<ParsedSignalView> {
        accepted_of(self.registry, self.readings)
    }

    /// The quarantined signals of the request.
    pub open spec fn quarantined(self) -> Seq<QuarantinedSignalView> {
        quarantined_of(self.registry, self.readings)
    }

    /// The same request at another stage.
    pub open spec fn at(self, stage: Stage) -> IngestionView {
        IngestionView { stage, ..self }
    }

    /// The state is one that the machine reaches: the readings are as many
    /// as a batch can hold, a write that is under way is one of the request's
    /// writes, and no window that has closed is negative.
    pub open spec fn reachable(self) -> bool {
        &&& self.readings.len() <= usize::MAX
        &&& match self.stage {
            Stage::Quarantining { next, .. } => next < self.quarantined().len(),
            Stage::Ingesting { next, validation_ms, .. } => next < self.accepted().len() && 0
                <= validation_ms,
            Stage::RecordingMetrics { validation_ms, ingestion_ms, total_ms } => 0 <= validation_ms
                && 0 <= ingestion_ms && 0 <= total_ms,
            _ => true,
        }
    }

    /// The steps that a request at this stage takes at most before it is
    /// answered.
    pub open spec fn steps_left(self) -> nat {
        let q = self.quarantined().len();
        let a = self.accepted().len();
        match self.stage {
            Stage::Opened => q + a + 3,
            Stage::CheckingVessel { .. } => q + a + 2,
            Stage::Quarantining { next, .. } => ((q - next) + a + 1) as nat,
            Stage::Ingesting { next, .. } => ((a - next) + 1) as nat,
            Stage::RecordingMetrics { .. } => 1,
            Stage::Finished => 0,
        }
    }

    /// The metrics row, once the accepted signals are written at `now`.
    pub open spec fn metrics(
        self,
        since: u64,
        validation_ms: i64,
        now: u64,
    ) -> IngestionMetricsView {
        IngestionMetricsView {
            vesselId: self.vessel_id,
            validationMs: validation_ms,
            ingestionMs: elapsed_ms(since, now),
            totalMs: elapsed_ms(0, now),
        }
    }

    /// What follows once the accepted signals before `next` are written: the
    /// next accepted signal, or, at the end, the metrics.  With the last of
    /// them the ingestion window closes, and so does the window of the whole
    /// request.
    pub open spec fn write_accepted_from(
        self,
        next: int,
        since: u64,
        validation_ms: i64,
        now: u64,
    ) -> (Stage, ActionView) {
        if 0 <= next < self.accepted().len() {
            (
                Stage::Ingesting { next: next as usize, since, validation_ms },
                ActionView::WriteAccepted {
                    vessel_id: self.vessel_id,
                    timestamp: self.timestamp,
                    signal: self.accepted()[next],
                },
            )
        } else {
            let metrics = self.metrics(since, validation_ms, now);
            (
                Stage::RecordingMetrics {
                    validation_ms: metrics.validationMs,
                    ingestion_ms: metrics.ingestionMs,
                    total_ms: metrics.totalMs,
                },
                ActionView::WriteMetrics(metrics),
            )
        }
    }

    /// What follows once the quarantined signals before `next` are written:
    /// the next quarantined signal, or, at the end, the accepted signals.
    /// With the last of them the validation window closes and the ingestion
    /// window opens.
    pub open spec fn write_quarantined_from(self, next: int, since: u64, now: u64) -> (
        Stage,
        ActionView,
    ) {
        if 0 <= next < self.quarantined().len() {
            (
                Stage::Quarantining { next: next as usize, since },
                ActionView::WriteQuarantined {
                    vessel_id: self.vessel_id,
                    timestamp: self.timestamp,
                    signal: self.quarantined()[next],
                },
            )
        } else {
            self.write_accepted_from(0, now, elapsed_ms(since, now), now)
        }
    }

    /// The response to a request whose metrics are written.
    pub open spec fn response(
        self,
        validation_ms: i64,
        ingestion_ms: i64,
        total_ms: i64,
    ) -> IngestionResponseView {
        IngestionResponseView {
            ok: true,
            vesselId: self.vessel_id,
            validSignals: self.accepted().len() as usize,
            validationMs: validation_ms,
            ingestionMs: ingestion_ms,
            totalMs: total_ms,
        }
    }

    /// The step of the machine: the stage that follows and the action to
    /// perform, for an event that was observed at `now`.
    ///
    /// An event that the stage does not await ends the request as the failure
    /// of a store does.
    pub open spec fn step(self, event: Event, now: u64) -> (Stage, ActionView) {
        match (self.stage, event) {
            (Stage::Opened, Event::Begin) => (
                Stage::CheckingVessel { since: now },
                ActionView::CheckVessel { vessel_id: self.vessel_id },
            ),
            (Stage::CheckingVessel { since }, Event::VesselFound(true)) => {
                self.write_quarantined_from(0, since, now)
            },
            (Stage::CheckingVessel { .. }, Event::VesselFound(false)) => (
                Stage::Finished,
                ActionView::Reject(Rejection::UnknownVessel),
            ),
            (Stage::Quarantining { next, since }, Event::Stored) => self.write_quarantined_from(
                next + 1,
                since,
                now,
            ),
            (Stage::Ingesting { next, since, validation_ms }, Event::Stored) => {
                self.write_accepted_from(next + 1, since, validation_ms, now)
            },
            (Stage::RecordingMetrics { validation_ms, ingestion_ms, total_ms }, Event::Stored) => (
                Stage::Finished,
                ActionView::Respond(self.response(validation_ms, ingestion_ms, total_ms)),
            ),
            _ => (Stage::Finished, ActionView::Reject(Rejection::StorageFailure)),
        }
    }

    /// The stage and the action of a request whose vessel was found and of
    /// which `writes` writes have succeeded since.  The clock read `clock(0)`
    /// when the vessel was found, and `clock(i)` when the write that was the
    /// `i`-th to succeed had succeeded.
    pub open spec fn after_writes(self, clock: spec_fn(int) -> u64, writes: int) -> (
        Stage,
        ActionView,
    )
        decreases writes,
    {
        if writes <= 0 {
            self.step(Event::VesselFound(true), clock(0))
        } else {
            self.at(self.after_writes(clock, writes - 1).0).step(Event::Stored, clock(writes))
        }
    }

    /// The windows of a request whose validation window opened at `since`:
    /// validation lasts until the last quarantined signal is written,
    /// ingestion from then until the last accepted signal is written, and the
    /// whole request from the origin of the clock until that same moment.
    pub open spec fn windows(
        self,
        since: u64,
        clock: spec_fn(int) -> u64,
    ) -> IngestionMetricsView {
        let q = self.quarantined().len() as int;
        let a = self.accepted().len() as int;
        IngestionMetricsView {
            vesselId: self.vessel_id,
            validationMs: elapsed_ms(since, clock(q)),
            ingestionMs: elapsed_ms(clock(q), clock(q + a)),
            totalMs: elapsed_ms(0, clock(q + a)),
        }
    }
}

impl<'a> View for Ingestion<'a> {
    type V = IngestionView;

    closed spec fn view(&self) -> IngestionView {
        IngestionView {
            registry: self.registry@,
            vessel_id: self.vessel_id@,
            timestamp: self.timestamp,
            readings: views(self.readings@),
            stage: self.stage,
        }
    }
}

impl<'a> Ingestion<'a> {
    /// The signals are classified from the stage at which the first write is
    /// decided.
    spec fn classified(stage: Stage) -> bool {
        stage is Quarantining || stage is Ingesting || stage is RecordingMetrics
    }

    /// The request is well formed: its state is reachable, and once the
    /// signals are classified they are held as classification gives them.
    #[verifier::type_invariant]
    spec fn wf(&self) -> bool {
        &&& self@.reachable()
        &&& Self::classified(self.stage) ==> {
            &&& views(self.accepted@) == self@.accepted()
            &&& views(self.quarantined@) == self@.quarantined()
        }
    }

    /// Opens a request whose timestamp was read as `instant`, or was refused
    /// where `instant` is `None`: a request without an instant is turned away
    /// as a bad request.  Nothing is asked of a store.
    pub fn open_with(
        request: TelemetryRequest,
        registry: &'a SignalRegistry,
        instant: Option<Timestamp>,
    ) -> (r: Result<Ingestion<'a>, Rejection>)
        ensures
            match (r, instant) {
                (Ok(run), Some(timestamp)) => {
                    &&& run@.reachable()
                    &&& run@ == (IngestionView {
                        registry: registry@,
                        vessel_id: request@.vesselId,
                        timestamp,
                        readings: request@.signals,
                        stage: Stage::Opened,
                    })
                },
                (Err(e), None) => e == Rejection::BadRequest,
                _ => false,
            },
    {
        assert(views(request.signals@).len() == request.signals.len());
        match instant {
            Some(timestamp) => Ok(
                Ingestion {
                    registry,
                    vessel_id: request.vesselId,
                    timestamp,
                    readings: request.signals,
                    accepted: Vec::new(),
                    quarantined: Vec::new(),
                    stage: Stage::Opened,
                },
            ),
            None => Err(Rejection::BadRequest),
        }
    }

    /// Opens a request: reads its timestamp as an RFC 3339 instant, and turns
    /// the request away as a bad request where the timestamp is malformed.
    /// Nothing is asked of a store.
    pub fn open(request: TelemetryRequest, registry: &'a SignalRegistry) -> (r: Result<
        Ingestion<'a>,
        Rejection,
    >)
        ensures
            match (r, rfc3339_instant(request@.timestampUTC)) {
                (Ok(run), Some(instant)) => {
                    &&& run@.reachable()
                    &&& run@ == (IngestionView {
                        registry: registry@,
                        vessel_id: request@.vesselId,
                        timestamp: Timestamp { seconds: instant.0, nanos: instant.1 },
                        readings: request@.signals,
                        stage: Stage::Opened,
                    })
                },
                (Err(e), None) => e == Rejection::BadRequest,
                _ => false,
            },
    {
        let instant = match request.parse_timestamp() {
            Ok(timestamp) => Some(timestamp),
            Err(_) => None,
        };
        Self::open_with(request, registry, instant)
    }

    /// The vessel that reports.
    pub fn vessel_id(&self) -> (id: &str)
        ensures
            id@ == self@.vessel_id,
    {
        self.vessel_id.as_str()
    }

    /// The instant of the readings.
    pub fn timestamp(&self) -> (instant: Timestamp)
        ensures
            instant == self@.timestamp,
    {
        self.timestamp
    }

    /// The stage of the request.
    pub fn stage(&self) -> (stage: Stage)
        ensures
            stage == self@.stage,
            self@.reachable(),
    {
        proof {
            use_type_invariant(self);
        }
        self.stage
    }

    fn write_accepted_from(
        &mut self,
        next: usize,
        since: u64,
        validation_ms: i64,
        now: u64,
    ) -> (action: Action)
        requires
            old(self)@.readings.len() <= usize::MAX,
            views(old(self).accepted@) == old(self)@.accepted(),
            views(old(self).quarantined@) == old(self)@.quarantined(),
            next <= old(self).accepted@.len(),
            0 <= validation_ms,
        ensures
            final(self).wf(),
            final(self)@ == old(self)@.at(final(self)@.stage),
            (final(self)@.stage, action@) == old(self)@.write_accepted_from(
                next as int,
                since,
                validation_ms,
                now,
            ),
    {
        if next < self.accepted.len() {
            self.stage = Stage::Ingesting { next, since, validation_ms };
            Action::WriteAccepted {
                vessel_id: self.vessel_id.clone(),
                timestamp: self.timestamp,
                signal: ParsedSignal {
                    name: self.accepted[next].name.clone(),
                    value: self.accepted[next].value,
                },
            }
        } else {
            let ingestion_ms = elapsed_millis(since, now);
            let total_ms = elapsed_millis(0, now);
            self.stage = Stage::RecordingMetrics { validation_ms, ingestion_ms, total_ms };
            Action::WriteMetrics(
                IngestionMetrics {
                    vesselId: self.vessel_id.clone(),
                    validationMs: validation_ms,
                    ingestionMs: ingestion_ms,
                    totalMs: total_ms,
                },
            )
        }
    }

    fn write_quarantined_from(&mut self, next: usize, since: u64, now: u64) -> (action: Action)
        requires
            old(self)@.readings.len() <= usize::MAX,
            views(old(self).accepted@) == old(self)@.accepted(),
            views(old(self).quarantined@) == old(self)@.quarantined(),
            next <= old(self).quarantined@.len(),
        ensures
            final(self).wf(),
            final(self)@ == old(self)@.at(final(self)@.stage),
            (final(self)@.stage, action@) == old(self)@.write_quarantined_from(
                next as int,
                since,
                now,
            ),
    {
        if next < self.quarantined.len() {
            self.stage = Stage::Quarantining { next, since };
            Action::WriteQuarantined {
                vessel_id: self.vessel_id.clone(),
                timestamp: self.timestamp,
                signal: QuarantinedSignal {
                    name: self.quarantined[next].name.clone(),
                    value: self.quarantined[next].value,
                    reason: self.quarantined[next].reason,
                },
            }
        } else {
            let validation_ms = elapsed_millis(since, now);
            self.write_accepted_from(0, now, validation_ms, now)
        }
    }

    fn finish(&mut self, rejection: Rejection) -> (action: Action)
        requires
            old(self)@.readings.len() <= usize::MAX,
        ensures
            final(self).wf(),
            final(self)@ == old(self)@.at(Stage::Finished),
            action@ == ActionView::Reject(rejection),
    {
        self.stage = Stage::Finished;
        Action::Reject(rejection)
    }
}

/// Takes one step of the ingestion of a request: given the event that was
/// observed at the clock reading `now`, moves the request to its next stage
/// and returns the action to perform.
pub fn ingest_telemetry(run: &mut Ingestion<'_>, event: Event, now: u64) -> (action: Action)
    ensures
        old(run)@.reachable(),
        final(run)@.reachable(),
        final(run)@ == old(run)@.at(final(run)@.stage),
        (final(run)@.stage, action@) == old(run)@.step(event, now),
{
    proof {
        use_type_invariant(&*run);
    }
    match (run.stage, event) {
        (Stage::Opened, Event::Begin) => {
            run.stage = Stage::CheckingVessel { since: now };
            Action::CheckVessel { vessel_id: run.vessel_id.clone() }
        },
        (Stage::CheckingVessel { since }, Event::VesselFound(true)) => {
            let classified = classify_all(run.registry, &run.readings);
            run.accepted = classified.accepted;
            run.quarantined = classified.quarantined;
            run.write_quarantined_from(0, since, now)
        },
        (Stage::CheckingVessel { .. }, Event::VesselFound(false)) => run.finish(
            Rejection::UnknownVessel,
        ),
        (Stage::Quarantining { next, since }, Event::Stored) => {
            let count: usize = run.quarantined.len();
            assert(next < views(run.quarantined@).len() == count);
            run.write_quarantined_from(next + 1, since, now)
        },
        (Stage::Ingesting { next, since, validation_ms }, Event::Stored) => {
            let count: usize = run.accepted.len();
            assert(next < views(run.accepted@).len() == count);
            run.write_accepted_from(next + 1, since, validation_ms, now)
        },
        (Stage::RecordingMetrics { validation_ms, ingestion_ms, total_ms }, Event::Stored) => {
            run.stage = Stage::Finished;
            Action::Respond(
                IngestionResponse {
                    ok: true,
                    vesselId: run.vessel_id.clone(),
                    validSignals: run.accepted.len(),
                    validationMs: validation_ms,
                    ingestionMs: ingestion_ms,
                    totalMs: total_ms,
                },
            )
        },
        _ => run.finish(Rejection::StorageFailure),
    }
}

/// A step leads from a reachable state to a reachable state.
pub proof fn step_keeps_reachable(s: IngestionView, event: Event, now: u64)
    requires
        s.reachable(),
    ensures
        s.at(s.step(event, now).0).reachable(),
{
    outcome_counts(s.registry, s.readings);
}

/// Nothing is written before the vessel is found: until then a step asks the
/// identity store or turns the request away.  A vessel that is not found is
/// turned away as unknown.
pub proof fn no_write_before_vessel_is_found(s: IngestionView, event: Event, now: u64)
    requires
        s.stage is Opened || s.stage is CheckingVessel,
        event != Event::VesselFound(true) || s.stage is Opened,
    ensures
        !s.step(event, now).1.is_write(),
        s.stage is CheckingVessel && event == Event::VesselFound(false) ==> s.step(event, now) == (
            Stage::Finished,
            ActionView::Reject(Rejection::UnknownVessel),
        ),
{
}

/// The failure of a store ends the request at once, at every stage, with an
/// internal failure and no further write.
pub proof fn failure_ends_request(s: IngestionView, now: u64)
    ensures
        s.step(Event::StoreFailed, now) == (
            Stage::Finished,
            ActionView::Reject(Rejection::StorageFailure),
        ),
{
}

/// A request is answered exactly when it finishes, and a finished request
/// stays finished.
pub proof fn answered_when_finished(s: IngestionView, event: Event, now: u64)
    requires
        s.reachable(),
    ensures
        s.step(event, now).1.is_answer() <==> s.step(event, now).0 is Finished,
        s.stage is Finished ==> s.step(event, now).0 is Finished,
{
    outcome_counts(s.registry, s.readings);
}

/// Every step brings a request that is not finished nearer to its answer, so
/// a request is answered after at most as many steps as it has readings, and
/// three more.
pub proof fn step_makes_progress(s: IngestionView, event: Event, now: u64)
    requires
        s.reachable(),
        !(s.stage is Finished),
    ensures
        s.at(s.step(event, now).0).steps_left() < s.steps_left(),
        s.steps_left() <= s.readings.len() + 3,
{
    outcome_counts(s.registry, s.readings);
}

/// The response counts the accepted readings: its `validSignals` is the
/// number of readings whose outcome is `Accepted`, which together with the
/// number of quarantined readings is the number of readings of the request.
/// No window that it reports is negative.
pub proof fn response_counts(s: IngestionView, event: Event, now: u64)
    requires
        s.reachable(),
        s.step(event, now).1 is Respond,
    ensures
        s.step(event, now).1 matches ActionView::Respond(response) && {
            &&& response.ok
            &&& response.vesselId == s.vessel_id
            &&& response.validSignals == accepted_count(s.registry, s.readings)
            &&& response.validSignals + s.quarantined().len() == s.readings.len()
            &&& 0 <= response.validationMs
            &&& 0 <= response.ingestionMs
            &&& 0 <= response.totalMs
        },
{
    outcome_counts(s.registry, s.readings);
}

/// The metrics that are written are those that the response reports.
pub proof fn response_reports_metrics(
    s: IngestionView,
    event: Event,
    now: u64,
    later: u64,
)
    requires
        s.step(event, now).1 is WriteMetrics,
    ensures
        s.step(event, now).1 matches ActionView::WriteMetrics(metrics) && s.at(
            s.step(event, now).0,
        ).step(Event::Stored, later).1 matches ActionView::Respond(response) && {
            &&& metrics.vesselId == response.vesselId
            &&& metrics.validationMs == response.validationMs
            &&& metrics.ingestionMs == response.ingestionMs
            &&& metrics.totalMs == response.totalMs
        },
{
}

/// Once the vessel is found and as long as no store fails, the rows are
/// written in this order: every quarantined signal, in the order of the
/// readings; then every accepted signal, in the order of the readings; then
/// the metrics.  The response follows, with the number of accepted signals and
/// the windows that the metrics hold.
pub proof fn writes_in_order(s: IngestionView, clock: spec_fn(int) -> u64, writes: int)
    requires
        s.reachable(),
        s.stage is CheckingVessel,
        0 <= writes <= s.readings.len() + 1,
    ensures
        ({
            let q = s.quarantined().len() as int;
            let a = s.accepted().len() as int;
            let since = s.stage->CheckingVessel_since;
            let windows = s.windows(since, clock);
            let (stage, action) = s.after_writes(clock, writes);
            &&& q + a == s.readings.len()
            &&& writes < q ==> stage == (Stage::Quarantining { next: writes as usize, since })
                && action == (ActionView::WriteQuarantined {
                vessel_id: s.vessel_id,
                timestamp: s.timestamp,
                signal: s.quarantined()[writes],
            })
            &&& q <= writes < q + a ==> stage == (Stage::Ingesting {
                next: (writes - q) as usize,
                since: clock(q),
                validation_ms: windows.validationMs,
            }) && action == (ActionView::WriteAccepted {
                vessel_id: s.vessel_id,
                timestamp: s.timestamp,
                signal: s.accepted()[writes - q],
            })
            &&& writes == q + a ==> stage == (Stage::RecordingMetrics {
                validation_ms: windows.validationMs,
                ingestion_ms: windows.ingestionMs,
                total_ms: windows.totalMs,
            }) && action == ActionView::WriteMetrics(windows)
            &&& writes == q + a + 1 ==> stage == Stage::Finished && action == ActionView::Respond(
                IngestionResponseView {
                    ok: true,
                    vesselId: s.vessel_id,
                    validSignals: a as usize,
                    validationMs: windows.validationMs,
                    ingestionMs: windows.ingestionMs,
                    totalMs: windows.totalMs,
                },
            )
        }),
    decreases writes,
{
    outcome_counts(s.registry, s.readings);
    if writes > 0 {
        writes_in_order(s, clock, writes - 1);
    }
}

} // verus!
