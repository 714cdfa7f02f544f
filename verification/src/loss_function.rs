use vstd::prelude::*;

verus! {

/// The loss a network trains with: mean squared error or cross-entropy.
#[derive(Clone, Copy, PartialEq, Eq, Structural, Debug)]
pub enum LossType {
    MSE,
    CEL,
}

/// Selects the loss used during training. Evaluating the loss and its
/// gradient is floating-point work and is done by the embedding program;
/// this type only carries the choice.
#[derive(Clone, Copy, PartialEq, Eq, Structural, Debug)]
pub struct LossFunction {
    pub loss_type: LossType,
}

impl LossFunction {
    pub fn new(loss_type: LossType) -> (r: LossFunction)
        ensures
            r.loss_type == loss_type,
    {
        LossFunction { loss_type }
    }
}

} // verus!
