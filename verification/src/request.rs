//! The ingestion request and the signals that come out of its classification.

use crate::classify::{classification, classify, Outcome, Reason};
use crate::registry::{SignalKind, SignalRegistry};
use crate::rejection::Rejection;
use crate::timestamp::{rfc3339_instant, Timestamp};
use crate::value::{RawValue, Shape, SignalValue};
use vstd::prelude::*;

verus! {

/// The views of the items of a sequence, in order.
pub open spec fn views<T: View>(items: Seq<T>) -> Seq<T::V> {
    Seq::new(items.len(), |i: int| items[i]@)
}

/// One entry of a request's signal map.
#[derive(Debug, Clone, PartialEq, Eq)]
pub struct IncomingReading {
    pub name: String,
    pub value: RawValue,
}

/// What classification reads of a reading.
pub ghost struct ReadingView {
    pub name: Seq<char>,
    pub shape: Shape,
}

impl View for IncomingReading {
    type V = ReadingView;

    open spec fn view(&self) -> ReadingView {
        ReadingView { name: self.name@, shape: self.value.shape() }
    }
}

/// An accepted signal: its name and the encoding of its valid number.
#[derive(Debug, Clone, PartialEq, Eq)]
pub struct ParsedSignal {
    pub name: String,
    pub value: u64,
}

/// An accepted signal, with its name as characters.
pub ghost struct ParsedSignalView {
    pub name: Seq<char>,
    pub value: u64,
}

impl View for ParsedSignal {
    type V = ParsedSignalView;

    open spec fn view(&self) -> ParsedSignalView {
        ParsedSignalView { name: self.name@, value: self.value }
    }
}

/// A quarantined signal: its name, the number stored for it and the reason.
#[derive(Debug, Clone, PartialEq, Eq)]
pub struct QuarantinedSignal {
    pub name: String,
    pub value: SignalValue,
    pub reason: Reason,
}

/// A quarantined signal, with its name as characters.
pub ghost struct QuarantinedSignalView {
    pub name: Seq<char>,
    pub value: SignalValue,
    pub reason: Reason,
}

impl View for QuarantinedSignal {
    type V = QuarantinedSignalView;

    open spec fn view(&self) -> QuarantinedSignalView {
        QuarantinedSignalView { name: self.name@, value: self.value, reason: self.reason }
    }
}

/// The body of an ingestion request.
#[allow(non_snake_case)]
#[derive(Debug, Clone, PartialEq, Eq)]
pub struct TelemetryRequest {
    pub vesselId: String,
    pub timestampUTC: String,
    pub epochUTC: Option<i64>,
    pub signals: Vec<IncomingReading>,
}

/// A request, with its text as characters and its readings as
/// classification reads them.
#[allow(non_snake_case)]
pub ghost struct TelemetryRequestView {
    pub vesselId: Seq<char>,
    pub timestampUTC: Seq<char>,
    pub epochUTC: Option<i64>,
    pub signals: Seq<ReadingView>,
}

impl View for TelemetryRequest {
    type V = TelemetryRequestView;

    open spec fn view(&self) -> TelemetryRequestView {
        TelemetryRequestView {
            vesselId: self.vesselId@,
            timestampUTC: self.timestampUTC@,
            epochUTC: self.epochUTC,
            signals: views(self.signals@),
        }
    }
}

impl TelemetryRequest {
    /// Reads the declared timestamp as an RFC 3339 instant.  A text that is
    /// no such instant makes the request a bad request.
    pub fn parse_timestamp(&self) -> (r: Result<Timestamp, Rejection>)
        ensures
            match r {
                Ok(t) => rfc3339_instant(self.timestampUTC@) == Some((t.seconds, t.nanos)),
                Err(e) => e == Rejection::BadRequest && rfc3339_instant(self.timestampUTC@)
                    is None,
            },
    {
        match Timestamp::parse(self.timestampUTC.as_str()) {
            Some(t) => Ok(t),
            None => Err(Rejection::BadRequest),
        }
    }
}

/// The outcome of one reading under a registry.
pub open spec fn outcome_of(registry: Map<Seq<char>, SignalKind>, reading: ReadingView) -> Outcome {
    classification(registry.get(reading.name), reading.shape)
}

/// The accepted signals of a batch, in the order of their readings.
pub open spec fn accepted_of(
    registry: Map<Seq<char>, SignalKind>,
    readings: Seq<ReadingView>,
) -> Seq<ParsedSignalView>
    decreases readings.len(),
{
    if readings.len() == 0 {
        Seq::empty()
    } else {
        let before = accepted_of(registry, readings.drop_last());
        match outcome_of(registry, readings.last()) {
            Outcome::Accepted(bits) => before.push(
                ParsedSignalView { name: readings.last().name, value: bits },
            ),
            Outcome::Quarantined(_, _) => before,
        }
    }
}

/// The quarantined signals of a batch, in the order of their readings.
pub open spec fn quarantined_of(
    registry: Map<Seq<char>, SignalKind>,
    readings: Seq<ReadingView>,
) -> Seq<QuarantinedSignalView>
    decreases readings.len(),
{
    if readings.len() == 0 {
        Seq::empty()
    } else {
        let before = quarantined_of(registry, readings.drop_last());
        match outcome_of(registry, readings.last()) {
            Outcome::Accepted(_) => before,
            Outcome::Quarantined(value, reason) => before.push(
                QuarantinedSignalView { name: readings.last().name, value, reason },
            ),
        }
    }
}

/// The number of readings of a batch that are accepted.
pub open spec fn accepted_count(
    registry: Map<Seq<char>, SignalKind>,
    readings: Seq<ReadingView>,
) -> nat
    decreases readings.len(),
{
    if readings.len() == 0 {
        0
    } else {
        accepted_count(registry, readings.drop_last()) + (if outcome_of(
            registry,
            readings.last(),
        ) is Accepted {
            1nat
        } else {
            0nat
        })
    }
}

/// The signals of a batch, told apart by outcome.
#[derive(Debug, Clone, PartialEq, Eq)]
pub struct Classified {
    pub accepted: Vec<ParsedSignal>,
    pub quarantined: Vec<QuarantinedSignal>,
}

/// Classifies every reading of a batch, each on its own, and sorts the
/// signals by outcome.  Within each outcome the order of the readings stays.
pub fn classify_all(registry: &SignalRegistry, readings: &Vec<IncomingReading>) -> (r: Classified)
    ensures
        views(r.accepted@) == accepted_of(registry@, views(readings@)),
        views(r.quarantined@) == quarantined_of(registry@, views(readings@)),
{
    let mut accepted: Vec<ParsedSignal> = Vec::new();
    let mut quarantined: Vec<QuarantinedSignal> = Vec::new();
    let mut i: usize = 0;
    assert(views(readings@).take(0) =~= Seq::<ReadingView>::empty());
    while i < readings.len()
        invariant
            i <= readings.len(),
            views(accepted@) =~= accepted_of(registry@, views(readings@).take(i as int)),
            views(quarantined@) =~= quarantined_of(registry@, views(readings@).take(i as int)),
        decreases readings.len() - i,
    {
        let reading = &readings[i];
        let kind = registry.lookup(reading.name.as_str());
        let outcome = classify(kind, &reading.value);
        proof {
            let upto = views(readings@).take(i + 1);
            assert(upto.drop_last() =~= views(readings@).take(i as int));
            assert(upto.last() == reading@);
        }
        match outcome {
            Outcome::Accepted(bits) => {
                accepted.push(ParsedSignal { name: reading.name.clone(), value: bits });
            },
            Outcome::Quarantined(value, reason) => {
                quarantined.push(QuarantinedSignal { name: reading.name.clone(), value, reason });
            },
        }
        i += 1;
    }
    assert(views(readings@).take(readings.len() as int) =~= views(readings@));
    Classified { accepted, quarantined }
}

/// Every reading has exactly one outcome: the accepted and the quarantined
/// signals of a batch are together as many as its readings, and the accepted
/// signals are as many as the readings whose outcome is `Accepted`.
pub proof fn outcome_counts(registry: Map<Seq<char>, SignalKind>, readings: Seq<ReadingView>)
    ensures
        accepted_of(registry, readings).len() + quarantined_of(registry, readings).len()
            == readings.len(),
        accepted_of(registry, readings).len() == accepted_count(registry, readings),
    decreases readings.len(),
{
    if readings.len() > 0 {
        outcome_counts(registry, readings.drop_last());
    }
}

} // verus!
