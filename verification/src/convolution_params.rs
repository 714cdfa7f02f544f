//! Convolutional state over one plain matrix: a single input map, its
//! padded form, one square kernel and one bias. The layer-stack builder's
//! padding settings use this module's padding mode. The padding and the
//! output-shape formula are verified; the kernel and bias values are
//! random doubles, drawn by the embedding program and handed in as bit
//! patterns for `new` to place.

use vstd::prelude::*;

use crate::tensor::{mat_dims, pad_matrix};

verus! {

/// How the input is padded before the kernel slides over it.
#[derive(Clone, Copy, PartialEq, Eq, Structural, Debug)]
pub enum PaddingType {
    /// Pad by `(kernel - 1) / 2` each side: output size tracks input size.
    Same,
    /// No padding: the kernel stays inside the input.
    Valid,
    /// Pad by `kernel - 1` each side: output larger than the input.
    Full,
}

pub struct ConvParams {
    pub kernel: usize,
    pub padding_type: PaddingType,
    /// Derived from `padding_type` and `kernel` on each padding pass.
    pub padding: usize,
    pub stride: usize,
    /// The padded input the kernel slides over.
    pub data: Vec<Vec<u64>>,
    /// One square kernel.
    pub weights: Vec<Vec<u64>>,
    pub bias: u64,
    pub outputs: Vec<Vec<u64>>,
    pub inputs: Vec<Vec<u64>>,
}

impl ConvParams {
    /// A layer whose kernel holds the given draws, row-major, with the
    /// given bias; caches empty.
    pub fn new(
        kernel: usize,
        padding_type: PaddingType,
        stride: usize,
        draws: &Vec<u64>,
        bias: u64,
    ) -> (r: ConvParams)
        requires
            draws@.len() == kernel as int * kernel as int,
        ensures
            r.kernel == kernel,
            r.padding_type == padding_type,
            r.padding == 0,
            r.stride == stride,
            r.bias == bias,
            mat_dims(r.weights@, kernel as int, kernel as int),
            forall|j: int, k: int|
                0 <= j < kernel && 0 <= k < kernel ==> #[trigger] r.weights@[j]@[k] == draws@[j
                    * kernel as int + k],
            r.data@.len() == 0,
            r.outputs@.len() == 0,
            r.inputs@.len() == 0,
    {
        let total: usize = draws.len();
        let mut weights: Vec<Vec<u64>> = Vec::new();
        let mut j: usize = 0;
        while j < kernel
            invariant
                j <= kernel,
                kernel as int * kernel as int == draws@.len(),
                draws@.len() == total,
                weights@.len() == j,
                forall|y: int| 0 <= y < j ==> (#[trigger] weights@[y])@.len() == kernel,
                forall|y: int, z: int|
                    0 <= y < j && 0 <= z < kernel ==> #[trigger] weights@[y]@[z] == draws@[y
                        * kernel as int + z],
            decreases kernel - j,
        {
            proof {
                vstd::arithmetic::mul::lemma_mul_nonnegative(j as int, kernel as int);
                vstd::arithmetic::mul::lemma_mul_inequality(
                    j as int + 1,
                    kernel as int,
                    kernel as int,
                );
                vstd::arithmetic::mul::lemma_mul_is_distributive_add_other_way(
                    kernel as int,
                    j as int,
                    1,
                );
            }
            let base: usize = j * kernel;
            let mut row: Vec<u64> = Vec::new();
            let mut k: usize = 0;
            while k < kernel
                invariant
                    k <= kernel,
                    draws@.len() == total,
                    base == j as int * kernel as int,
                    base + kernel <= draws@.len(),
                    row@.len() == k,
                    forall|z: int| 0 <= z < k ==> #[trigger] row@[z] == draws@[base + z],
                decreases kernel - k,
            {
                row.push(draws[base + k]);
                k = k + 1;
            }
            weights.push(row);
            j = j + 1;
        }
        ConvParams {
            kernel,
            padding_type,
            padding: 0,
            stride,
            data: Vec::new(),
            weights,
            bias,
            outputs: Vec::new(),
            inputs: Vec::new(),
        }
    }

    /// Pads the cached input into `data`. `Valid` leaves everything as it
    /// is; `Same` and `Full` centre the input in a zero border of the
    /// mode's width and record that width in `padding`.
    pub fn add_padding(&mut self)
        requires
            old(self).padding_type != PaddingType::Valid ==> old(self).inputs@.len() >= 1,
            old(self).padding_type != PaddingType::Valid ==> old(self).kernel >= 1,
            old(self).padding_type != PaddingType::Valid ==> mat_dims(
                old(self).inputs@,
                old(self).inputs@.len() as int,
                old(self).inputs@[0]@.len() as int,
            ),
            old(self).padding_type != PaddingType::Valid ==> old(self).inputs@.len() + 2 * (old(
                self,
            ).kernel - 1) <= usize::MAX,
            old(self).padding_type != PaddingType::Valid ==> old(self).inputs@[0]@.len() + 2 * (
            old(self).kernel - 1) <= usize::MAX,
        ensures
            *final(self) == (ConvParams { data: final(self).data, padding: final(self).padding, ..*old(self) }),
            old(self).padding_type == PaddingType::Valid ==> *final(self) == *old(self),
            old(self).padding_type == PaddingType::Same ==> final(self).padding as int == (old(
                self,
            ).kernel - 1) as int / 2,
            old(self).padding_type == PaddingType::Full ==> final(self).padding as int == old(
                self,
            ).kernel - 1,
            old(self).padding_type != PaddingType::Valid ==> mat_dims(
                final(self).data@,
                old(self).inputs@.len() + 2 * final(self).padding,
                old(self).inputs@[0]@.len() + 2 * final(self).padding,
            ),
            old(self).padding_type != PaddingType::Valid ==> forall|j: int, k: int|
                {
                    let p = final(self).padding as int;
                    let rows = old(self).inputs@.len() as int;
                    let cols = old(self).inputs@[0]@.len() as int;
                    0 <= j < rows + 2 * p && 0 <= k < cols + 2 * p
                        ==> #[trigger] final(self).data@[j]@[k] == (if p <= j < rows + p && p <= k
                        < cols + p {
                        old(self).inputs@[j - p]@[k - p]
                    } else {
                        0u64
                    })
                },
    {
        if self.padding_type == PaddingType::Valid {
            return ;
        }
        let mut padding: usize = (self.kernel - 1) / 2;
        if self.padding_type == PaddingType::Full {
            padding = self.kernel - 1;
        }
        self.padding = padding;
        self.data = pad_matrix(&self.inputs, padding);
    }

    /// The spatial size of sliding the kernel over the padded `data`, one
    /// step at a time: width and height each shrink by the kernel, plus
    /// one.
    pub fn get_output_dims(&self) -> (r: [usize; 2])
        requires
            self.data@.len() >= 1,
            self.kernel >= 1,
            self.kernel <= self.data@.len(),
            self.kernel <= self.data@[0]@.len(),
        ensures
            r[0] == self.data@[0]@.len() - self.kernel + 1,
            r[1] == self.data@.len() - self.kernel + 1,
    {
        let height = self.data.len();
        let width = self.data[0].len();
        let out_width = width - self.kernel + 1;
        let out_height = height - self.kernel + 1;
        [out_width, out_height]
    }
}

} // verus!
