//! The choice of activation a layer applies. Evaluating an activation and
//! its derivative is floating-point work done by the embedding program; the
//! engine itself only carries the kind, dispatches on it, and knows that a
//! SoftMax layer takes no elementwise derivative on the backward pass.

use vstd::prelude::*;

verus! {

/// The elementwise (or, for SoftMax, vector-valued) transform of a layer.
#[derive(Clone, Copy, PartialEq, Eq, Structural, Debug)]
pub enum ActivationFunction {
    Sigmoid,
    ReLU,
    TanH,
    SoftMax,
}

/// Carries the activation kind of one layer.
#[derive(Clone, Copy, PartialEq, Eq, Structural, Debug)]
pub struct Activation {
    pub function: ActivationFunction,
}

impl Activation {
    pub fn new(function: ActivationFunction) -> (r: Activation)
        ensures
            r.function == function,
    {
        Activation { function }
    }

    /// Whether the backward pass multiplies the error by an elementwise
    /// derivative. SoftMax is the one kind that skips that step: its
    /// gradient is folded into the loss gradient instead.
    pub fn uses_elementwise_derivative(&self) -> (r: bool)
        ensures
            r == (self.function != ActivationFunction::SoftMax),
    {
        match self.function {
            ActivationFunction::SoftMax => false,
            _ => true,
        }
    }
}

} // verus!
