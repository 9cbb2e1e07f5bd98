//! The classifier: the rule that decides, for one reading, whether its value
//! is accepted or quarantined.

use crate::registry::SignalKind;
use crate::value::{
    analog_in_range, is_analog_in_range, RawValue, Shape, SignalValue, ONE_BITS, ZERO_BITS,
};
use vstd::prelude::*;

verus! {

/// Why a reading is quarantined.
#[derive(Debug, Clone, Copy, PartialEq, Eq, Structural)]
pub enum Reason {
    /// The value does not have the wire encoding of the declared kind.
    TypeMismatch,
    /// The value has the right encoding and lies outside the kind's range.
    OutOfRange,
    /// The registry does not know the signal's name.
    UnknownSignal,
}

impl Reason {
    /// The label under which the reason is stored.
    pub open spec fn label_text(self) -> Seq<char> {
        match self {
            Reason::TypeMismatch => "type_mismatch"@,
            Reason::OutOfRange => "out_of_range"@,
            Reason::UnknownSignal => "unknown_signal"@,
        }
    }

    /// The label under which the reason is stored.
    pub fn as_str(&self) -> (label: &'static str)
        ensures
            label@ == self.label_text(),
    {
        match self {
            Reason::TypeMismatch => "type_mismatch",
            Reason::OutOfRange => "out_of_range",
            Reason::UnknownSignal => "unknown_signal",
        }
    }
}

/// What classification decides for one reading.
#[derive(Debug, Clone, Copy, PartialEq, Eq, Structural)]
pub enum Outcome {
    /// The value is valid; the encoding of the number to store.
    Accepted(u64),
    /// The value is set aside, with the number to store and the reason.
    Quarantined(SignalValue, Reason),
}

/// The decision table of the classifier.
pub open spec fn classification(kind: Option<SignalKind>, shape: Shape) -> Outcome {
    match (kind, shape) {
        (Some(SignalKind::Digital), Shape::Integer(v)) => if v == 0 {
            Outcome::Accepted(ZERO_BITS)
        } else if v == 1 {
            Outcome::Accepted(ONE_BITS)
        } else {
            Outcome::Quarantined(SignalValue::Integer(v), Reason::OutOfRange)
        },
        (Some(SignalKind::Analog), Shape::Float(bits)) => if analog_in_range(bits) {
            Outcome::Accepted(bits)
        } else {
            Outcome::Quarantined(SignalValue::Float(bits), Reason::OutOfRange)
        },
        (Some(_), _) => Outcome::Quarantined(SignalValue::NotANumber, Reason::TypeMismatch),
        (None, Shape::Integer(v)) => Outcome::Quarantined(
            SignalValue::Integer(v),
            Reason::UnknownSignal,
        ),
        (None, Shape::Float(bits)) => Outcome::Quarantined(
            SignalValue::Float(bits),
            Reason::UnknownSignal,
        ),
        (None, Shape::NonNumeric) => Outcome::Quarantined(
            SignalValue::NotANumber,
            Reason::UnknownSignal,
        ),
    }
}

/// The number stored for an accepted reading is valid for the kind: exactly
/// `0.0` or `1.0` for a digital signal, between `1.0` and `65535.0` for an
/// analog one.
pub open spec fn valid_for(kind: SignalKind, bits: u64) -> bool {
    match kind {
        SignalKind::Digital => bits == ZERO_BITS || bits == ONE_BITS,
        SignalKind::Analog => analog_in_range(bits),
    }
}

/// Classifies one raw value against the kind declared for its name, `None`
/// where the registry does not know the name.
pub fn classify(kind: Option<SignalKind>, value: &RawValue) -> (outcome: Outcome)
    ensures
        outcome == classification(kind, value.shape()),
{
    match kind {
        Some(SignalKind::Digital) => match value {
            RawValue::Integer(v) => {
                if *v == 0 {
                    Outcome::Accepted(ZERO_BITS)
                } else if *v == 1 {
                    Outcome::Accepted(ONE_BITS)
                } else {
                    Outcome::Quarantined(SignalValue::Integer(*v), Reason::OutOfRange)
                }
            },
            _ => Outcome::Quarantined(SignalValue::NotANumber, Reason::TypeMismatch),
        },
        Some(SignalKind::Analog) => match value {
            RawValue::Float(bits) => {
                if is_analog_in_range(*bits) {
                    Outcome::Accepted(*bits)
                } else {
                    Outcome::Quarantined(SignalValue::Float(*bits), Reason::OutOfRange)
                }
            },
            _ => Outcome::Quarantined(SignalValue::NotANumber, Reason::TypeMismatch),
        },
        None => match value {
            RawValue::Integer(v) => Outcome::Quarantined(
                SignalValue::Integer(*v),
                Reason::UnknownSignal,
            ),
            RawValue::Float(bits) => Outcome::Quarantined(
                SignalValue::Float(*bits),
                Reason::UnknownSignal,
            ),
            _ => Outcome::Quarantined(SignalValue::NotANumber, Reason::UnknownSignal),
        },
    }
}

/// A digital reading is accepted exactly when it is the integer 0 or 1.  Any
/// other integer is out of range, and a value that is no integer is a type
/// mismatch.
pub proof fn digital_rule(shape: Shape)
    ensures
        classification(Some(SignalKind::Digital), shape) is Accepted <==> (shape
            == Shape::Integer(0) || shape == Shape::Integer(1)),
        classification(Some(SignalKind::Digital), shape) matches Outcome::Quarantined(_, reason)
            ==> (reason == Reason::OutOfRange <==> shape is Integer) && (reason
            == Reason::TypeMismatch <==> !(shape is Integer)),
{
}

/// An analog reading is accepted exactly when it is a float between `1.0`
/// and `65535.0`, and then it is stored as it came.  Any other float is out
/// of range, and a value that is no float is a type mismatch.
pub proof fn analog_rule(shape: Shape)
    ensures
        classification(Some(SignalKind::Analog), shape) is Accepted <==> (shape matches Shape::Float(
            bits,
        ) && analog_in_range(bits)),
        forall|bits: u64|
            analog_in_range(bits) ==> #[trigger] classification(
                Some(SignalKind::Analog),
                Shape::Float(bits),
            ) == Outcome::Accepted(bits),
        classification(Some(SignalKind::Analog), shape) matches Outcome::Quarantined(_, reason)
            ==> (reason == Reason::OutOfRange <==> shape is Float) && (reason
            == Reason::TypeMismatch <==> !(shape is Float)),
{
}

/// A reading whose name the registry does not know is always quarantined as
/// an unknown signal, with its number where it has one and the placeholder
/// where it has none.
pub proof fn unknown_rule(shape: Shape)
    ensures
        classification(None, shape) matches Outcome::Quarantined(value, reason) && reason
            == Reason::UnknownSignal && value == (match shape {
            Shape::Integer(v) => SignalValue::Integer(v),
            Shape::Float(bits) => SignalValue::Float(bits),
            Shape::NonNumeric => SignalValue::NotANumber,
        }),
{
}

/// Every accepted number is valid for the declared kind, and nothing is
/// accepted under an unknown name.
pub proof fn accepted_is_valid(kind: Option<SignalKind>, shape: Shape)
    ensures
        classification(kind, shape) matches Outcome::Accepted(bits) ==> kind matches Some(k)
            && valid_for(k, bits),
{
}

/// A quarantined reading carries the placeholder exactly when its value is
/// no number or has the wrong encoding for its kind.
pub proof fn placeholder_rule(kind: Option<SignalKind>, shape: Shape)
    ensures
        classification(kind, shape) matches Outcome::Quarantined(value, reason) ==> (value
            == SignalValue::NotANumber <==> (shape is NonNumeric || reason
            == Reason::TypeMismatch)),
{
}

/// The outcome depends on the kind and on the shape of the value alone:
/// classifying the same kind and value again gives the same outcome.
pub proof fn classification_repeats(kind: Option<SignalKind>, first: RawValue, second: RawValue)
    requires
        first.shape() == second.shape(),
    ensures
        classification(kind, first.shape()) == classification(kind, second.shape()),
{
}

} // verus!
