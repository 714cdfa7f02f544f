//! Learnable state of a fully connected layer: an input-by-output weight
//! matrix, one bias per output node, and the input and output vectors cached
//! by the most recent forward pass.
//!
//! The weight values themselves are doubles held as bit patterns; drawing
//! the random initial values (uniform within an activation-dependent bound)
//! is floating-point work, so `init` takes the finished draws and is
//! verified to place them: row `i`, column `j` receives draw `i * nodes_out + j`.

use vstd::prelude::*;

use crate::tensor::{mat_dims, mat_zero, zero_matrix, zero_row};

verus! {

pub struct DenseParams {
    pub nodes_in: usize,
    pub nodes_out: usize,
    /// Outputs of the most recent forward pass (post-activation).
    pub outputs: Vec<u64>,
    /// Inputs of the most recent forward pass.
    pub inputs: Vec<u64>,
    /// Row = input node, column = output node.
    pub weights: Vec<Vec<u64>>,
    pub biases: Vec<u64>,
}

impl DenseParams {
    /// The weight matrix always has one row per input node and one column
    /// per output node, and one bias per output node.
    pub open spec fn wf(&self) -> bool {
        mat_dims(self.weights@, self.nodes_in as int, self.nodes_out as int)
            && self.biases@.len() == self.nodes_out
    }

    /// A layer of `nodes_in` inputs and `nodes_out` outputs, weights and
    /// biases all zero, caches empty.
    pub fn new(nodes_in: usize, nodes_out: usize) -> (r: DenseParams)
        ensures
            r.wf(),
            r.nodes_in == nodes_in,
            r.nodes_out == nodes_out,
            mat_zero(r.weights@),
            forall|j: int| 0 <= j < nodes_out ==> r.biases@[j] == 0u64,
            r.inputs@.len() == 0,
            r.outputs@.len() == 0,
    {
        let weights = zero_matrix(nodes_in, nodes_out);
        let biases = zero_row(nodes_out);
        DenseParams {
            nodes_in,
            nodes_out,
            outputs: Vec::new(),
            inputs: Vec::new(),
            weights,
            biases,
        }
    }

    /// Installs freshly drawn weights, row-major, and zeroes every bias.
    /// The draws are the already scaled random values; this pass only
    /// places them.
    pub fn init(&mut self, draws: &Vec<u64>)
        requires
            old(self).wf(),
            draws@.len() == old(self).nodes_in as int * old(self).nodes_out as int,
        ensures
            final(self).wf(),
            final(self).nodes_in == old(self).nodes_in,
            final(self).nodes_out == old(self).nodes_out,
            final(self).inputs == old(self).inputs,
            final(self).outputs == old(self).outputs,
            forall|i: int, j: int|
                0 <= i < old(self).nodes_in && 0 <= j < old(self).nodes_out
                    ==> #[trigger] final(self).weights@[i]@[j]
                        == draws@[i * old(self).nodes_out as int + j],
            forall|j: int| 0 <= j < old(self).nodes_out ==> final(self).biases@[j] == 0u64,
    {
        let n_in = self.nodes_in;
        let n_out = self.nodes_out;
        let total: usize = draws.len();
        let mut weights: Vec<Vec<u64>> = Vec::new();
        let mut i: usize = 0;
        while i < n_in
            invariant
                i <= n_in,
                n_in as int * n_out as int == draws@.len(),
                draws@.len() == total,
                weights@.len() == i,
                forall|x: int| 0 <= x < i ==> (#[trigger] weights@[x])@.len() == n_out,
                forall|x: int, y: int|
                    0 <= x < i && 0 <= y < n_out
                        ==> #[trigger] weights@[x]@[y] == draws@[x * n_out as int + y],
            decreases n_in - i,
        {
            proof {
                vstd::arithmetic::mul::lemma_mul_nonnegative(i as int, n_out as int);
                vstd::arithmetic::mul::lemma_mul_inequality(i as int, n_in as int, n_out as int);
                vstd::arithmetic::mul::lemma_mul_inequality(
                    i as int + 1,
                    n_in as int,
                    n_out as int,
                );
                vstd::arithmetic::mul::lemma_mul_is_distributive_add_other_way(
                    n_out as int,
                    i as int,
                    1,
                );
            }
            let base: usize = i * n_out;
            let mut row: Vec<u64> = Vec::new();
            let mut j: usize = 0;
            while j < n_out
                invariant
                    j <= n_out,
                    base == i as int * n_out as int,
                    base + n_out <= draws@.len(),
                    draws@.len() == total,
                    row@.len() == j,
                    forall|y: int| 0 <= y < j ==> #[trigger] row@[y] == draws@[base as int + y],
                decreases n_out - j,
            {
                row.push(draws[base + j]);
                j = j + 1;
            }
            weights.push(row);
            i = i + 1;
        }
        self.weights = weights;
        self.biases = zero_row(n_out);
    }
}

} // verus!
