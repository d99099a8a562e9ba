//! The perceptron's decisions: the step activation, the error of a
//! prediction, and the shape of the weight vector.
//!
//! Weights and inputs are real numbers held by the caller. The caller forms
//! the weighted sum and reports its sign; this module decides the class, the
//! error that drives an update, and how many weights a sum or an update
//! touches.

use vstd::prelude::*;
use crate::error::ErrorKind;

verus! {

/// One of the two classes a perceptron tells apart.
#[derive(Clone, Copy, Debug, PartialEq, Eq, Structural)]
pub enum Class {
    /// The class written `+1`.
    Positive,
    /// The class written `-1`.
    Negative,
}

/// The sign of a weighted sum.
#[derive(Clone, Copy, Debug, PartialEq, Eq, Structural)]
pub enum Sign {
    /// The sum is below zero.
    Negative,
    /// The sum is zero, of either sign bit.
    Zero,
    /// The sum is above zero.
    Positive,
    /// The sum is not a number and compares with nothing.
    Undefined,
}

impl Class {
    /// The class as a number: `+1` or `-1`.
    pub open spec fn spec_value(self) -> int {
        match self {
            Class::Positive => 1,
            Class::Negative => -1,
        }
    }

    /// The class as a number: `+1` or `-1`.
    pub fn value(self) -> (v: i32)
        ensures
            v == self.spec_value(),
    {
        match self {
            Class::Positive => 1,
            Class::Negative => -1,
        }
    }

    /// The class that a number names, if it names one.
    pub open spec fn spec_from_value(v: int) -> Option<Class> {
        if v == 1 {
            Some(Class::Positive)
        } else if v == -1 {
            Some(Class::Negative)
        } else {
            None
        }
    }

    /// Reads a class from a number: `+1` and `-1` name the two classes, and
    /// no other number names one.
    pub fn from_value(v: i32) -> (c: Option<Class>)
        ensures
            c == Self::spec_from_value(v as int),
    {
        if v == 1 {
            Some(Class::Positive)
        } else if v == -1 {
            Some(Class::Negative)
        } else {
            None
        }
    }
}

/// The step activation: a sum that is at least zero gives the positive
/// class, every other sum the negative one.
pub open spec fn spec_activation(sign: Sign) -> Class {
    match sign {
        Sign::Zero => Class::Positive,
        Sign::Positive => Class::Positive,
        Sign::Negative => Class::Negative,
        Sign::Undefined => Class::Negative,
    }
}

/// The class predicted from the sign of the weighted sum.
pub fn activation(sign: Sign) -> (c: Class)
    ensures
        c == spec_activation(sign),
{
    match sign {
        Sign::Zero => Class::Positive,
        Sign::Positive => Class::Positive,
        Sign::Negative => Class::Negative,
        Sign::Undefined => Class::Negative,
    }
}

/// The error of a prediction: the target minus the prediction, as numbers.
pub open spec fn spec_prediction_error(target: Class, prediction: Class) -> int {
    target.spec_value() - prediction.spec_value()
}

/// The error of a prediction against its target: `0` where they agree, `+2`
/// where a positive target was missed, `-2` where a negative one was.
pub fn prediction_error(target: Class, prediction: Class) -> (e: i32)
    ensures
        e == spec_prediction_error(target, prediction),
        e == 0 <==> target == prediction,
        e == 0 || e == 2 || e == -2,
{
    target.value() - prediction.value()
}

/// The length of the weight vector of a model with `num_inputs` inputs: one
/// weight for each input and one more for the bias.
pub open spec fn spec_weight_count(num_inputs: nat) -> nat {
    num_inputs + 1
}

/// The number of weights to allocate for a model with `num_inputs` inputs.
///
/// A model needs at least one input. The count must also fit the machine's
/// word, which leaves out the single largest `usize`.
pub fn weight_count(num_inputs: usize) -> (r: Result<usize, ErrorKind>)
    ensures
        1 <= num_inputs < usize::MAX ==> r == Ok::<usize, ErrorKind>(
            spec_weight_count(num_inputs as nat) as usize,
        ),
        !(1 <= num_inputs < usize::MAX) ==> r == Err::<usize, ErrorKind>(
            ErrorKind::InvalidArgument,
        ),
{
    if num_inputs == 0 || num_inputs == usize::MAX {
        Err(ErrorKind::InvalidArgument)
    } else {
        Ok(num_inputs + 1)
    }
}

/// How many weights a sum or an update pairs with an input: weights and
/// input values are taken in order, two by two, until either runs out.
pub open spec fn spec_paired_len(weights: nat, inputs: nat) -> nat {
    if weights <= inputs {
        weights
    } else {
        inputs
    }
}

/// The number of leading weights that a weighted sum reads, and that an
/// update writes, for an input of `inputs` values.
pub fn paired_len(weights: usize, inputs: usize) -> (n: usize)
    ensures
        n == spec_paired_len(weights as nat, inputs as nat),
{
    if weights <= inputs {
        weights
    } else {
        inputs
    }
}

/// An input that carries no bias term leaves the last weight alone: of the
/// weights allocated for `num_inputs` inputs, an input of `num_inputs`
/// values pairs with all but the last.
pub proof fn bias_weight_is_unpaired(num_inputs: nat)
    ensures
        spec_paired_len(spec_weight_count(num_inputs), num_inputs) == num_inputs,
        spec_paired_len(spec_weight_count(num_inputs), num_inputs) < spec_weight_count(
            num_inputs,
        ),
{
}

/// The activation depends on the sign alone, and is positive exactly where
/// the sum is at least zero.
pub proof fn activation_is_threshold(sign: Sign)
    ensures
        spec_activation(sign) == Class::Positive <==> (sign == Sign::Zero || sign
            == Sign::Positive),
        spec_activation(sign) == Class::Negative <==> (sign == Sign::Negative || sign
            == Sign::Undefined),
{
}

} // verus!
