//! State of a convolutional (or pooling) layer: a square kernel per input
//! channel, one shared bias, the stride and padding mode, and the cached
//! tensors of the most recent forward pass — `inputs` as handed in, `data`
//! after padding, `outputs` after activation.
//!
//! The padding arithmetic and the output-shape formula are verified here;
//! drawing random kernel weights is floating-point work, so `init` takes
//! the finished draws and verifiably places them, once, channel by channel.

use vstd::prelude::*;

use crate::tensor::{mat_dims, pad_matrix, ten_dims};

verus! {

/// How the input is padded before the kernel slides over it.
#[derive(Clone, Copy, PartialEq, Eq, Structural, Debug)]
pub enum PaddingType {
    /// Pad by `(kernel - 1) / 2` each side: output size tracks input size.
    Same,
    /// No padding: the kernel stays inside the input.
    Valid,
    /// Pad by `kernel - 1` each side: output larger than the input.
    Full,
}

/// The padding each mode adds on each side of a kernel-`k` window.
pub open spec fn pad_of(p: PaddingType, k: int) -> int {
    match p {
        PaddingType::Same => (k - 1) / 2,
        PaddingType::Valid => 0,
        PaddingType::Full => k - 1,
    }
}

/// Output length of sliding a kernel-`k` window at stride `s` over `dim`
/// cells: the window stops once it would leave the input.
pub open spec fn out_len(dim: int, k: int, s: int) -> int {
    (dim - k) / s + 1
}

pub struct ConvParams {
    pub kernel: usize,
    pub padding_type: PaddingType,
    /// Derived from `padding_type` and `kernel` on each padding pass.
    pub padding: usize,
    pub stride: usize,
    /// The padded input the kernel slides over, channel by channel.
    pub data: Vec<Vec<Vec<u64>>>,
    /// One square kernel per input channel.
    pub weights: Vec<Vec<Vec<u64>>>,
    /// A single bias shared by every channel of this filter.
    pub bias: u64,
    /// Outputs of the most recent forward pass, channel by channel.
    pub outputs: Vec<Vec<Vec<u64>>>,
    /// Inputs of the most recent forward pass, before padding.
    pub inputs: Vec<Vec<Vec<u64>>>,
}

impl ConvParams {
    /// A fresh layer: no weights yet (they appear on the first padding
    /// pass), zero bias, empty caches.
    pub fn new(kernel: usize, padding_type: PaddingType, stride: usize) -> (r: ConvParams)
        ensures
            r.kernel == kernel,
            r.padding_type == padding_type,
            r.padding == 0,
            r.stride == stride,
            r.data@.len() == 0,
            r.weights@.len() == 0,
            r.bias == 0u64,
            r.outputs@.len() == 0,
            r.inputs@.len() == 0,
    {
        ConvParams {
            kernel,
            padding_type,
            padding: 0,
            stride,
            data: Vec::new(),
            weights: Vec::new(),
            bias: 0u64,
            outputs: Vec::new(),
            inputs: Vec::new(),
        }
    }

    /// Installs freshly drawn kernel weights — one `kernel` by `kernel`
    /// matrix per channel of `data`, filled row-major from `draws` — and
    /// zeroes the bias. A second call is a no-op: weights are placed once
    /// and then kept.
    pub fn init(&mut self, draws: &Vec<u64>)
        requires
            old(self).weights@.len() == 0 ==> draws@.len() == old(self).data@.len() * old(
                self,
            ).kernel as int * old(self).kernel as int,
        ensures
            old(self).weights@.len() != 0 ==> *final(self) == *old(self),
            old(self).weights@.len() == 0 ==> (*final(self) == ConvParams {
                weights: final(self).weights,
                bias: 0u64,
                ..*old(self)
            }),
            old(self).weights@.len() == 0 ==> ten_dims(
                final(self).weights@,
                old(self).data@.len() as int,
                old(self).kernel as int,
                old(self).kernel as int,
            ),
            old(self).weights@.len() == 0 ==> forall|i: int, j: int, k: int|
                0 <= i < old(self).data@.len() && 0 <= j < old(self).kernel && 0 <= k < old(
                    self,
                ).kernel ==> #[trigger] final(self).weights@[i]@[j]@[k] == draws@[(i * old(
                    self,
                ).kernel as int + j) * old(self).kernel as int + k],
    {
        if self.weights.len() != 0 {
            return ;
        }
        let ch = self.data.len();
        let kk = self.kernel;
        let total: usize = draws.len();
        let mut weights: Vec<Vec<Vec<u64>>> = Vec::new();
        let mut i: usize = 0;
        while i < ch
            invariant
                i <= ch,
                ch as int * kk as int * kk as int == draws@.len(),
                draws@.len() == total,
                weights@.len() == i,
                forall|x: int| 0 <= x < i ==> mat_dims((#[trigger] weights@[x])@, kk as int, kk as int),
                forall|x: int, y: int, z: int|
                    0 <= x < i && 0 <= y < kk && 0 <= z < kk
                        ==> #[trigger] weights@[x]@[y]@[z] == draws@[(x * kk as int + y) * kk as int
                        + z],
            decreases ch - i,
        {
            proof {
                lemma_block_bounds(i as int, ch as int, kk as int);
            }
            let mut mat: Vec<Vec<u64>> = Vec::new();
            let mut j: usize = 0;
            while j < kk
                invariant
                    j <= kk,
                    i < ch,
                    ch as int * kk as int * kk as int == draws@.len(),
                    draws@.len() == total,
                    i as int * kk as int * kk as int + kk as int * kk as int <= draws@.len(),
                    mat@.len() == j,
                    forall|y: int| 0 <= y < j ==> (#[trigger] mat@[y])@.len() == kk,
                    forall|y: int, z: int|
                        0 <= y < j && 0 <= z < kk
                            ==> #[trigger] mat@[y]@[z] == draws@[(i as int * kk as int + y)
                            * kk as int + z],
                decreases kk - j,
            {
                proof {
                    lemma_row_bounds(i as int, j as int, ch as int, kk as int);
                }
                let base: usize = (i * kk + j) * kk;
                let mut row: Vec<u64> = Vec::new();
                let mut k: usize = 0;
                while k < kk
                    invariant
                        k <= kk,
                        draws@.len() == total,
                        base == (i as int * kk as int + j) * kk as int,
                        base + kk <= draws@.len(),
                        row@.len() == k,
                        forall|z: int| 0 <= z < k ==> #[trigger] row@[z] == draws@[base + z],
                    decreases kk - k,
                {
                    row.push(draws[base + k]);
                    k = k + 1;
                }
                mat.push(row);
                j = j + 1;
            }
            weights.push(mat);
            i = i + 1;
        }
        self.weights = weights;
        self.bias = 0u64;
    }

    /// Pads the cached `inputs` into `data`. `Valid` copies the input
    /// unchanged; `Same` and `Full` centre every channel in a zero border
    /// of the mode's width and record that width in `padding`.
    pub fn add_padding(&mut self)
        requires
            old(self).padding_type != PaddingType::Valid ==> old(self).inputs@.len() >= 1,
            old(self).padding_type != PaddingType::Valid ==> old(self).kernel >= 1,
            old(self).padding_type != PaddingType::Valid ==> ten_dims(
                old(self).inputs@,
                old(self).inputs@.len() as int,
                old(self).inputs@[0]@.len() as int,
                old(self).inputs@[0]@[0]@.len() as int,
            ),
            old(self).padding_type != PaddingType::Valid ==> old(self).inputs@[0]@.len() >= 1,
            old(self).padding_type != PaddingType::Valid ==> old(self).inputs@[0]@.len() + 2 * (old(
                self,
            ).kernel - 1) <= usize::MAX,
            old(self).padding_type != PaddingType::Valid ==> old(self).inputs@[0]@[0]@.len() + 2 * (
            old(self).kernel - 1) <= usize::MAX,
        ensures
            *final(self) == (ConvParams { data: final(self).data, padding: final(self).padding, ..*old(self) }),
            old(self).padding_type == PaddingType::Valid ==> final(self).padding == old(
                self,
            ).padding,
            old(self).padding_type == PaddingType::Valid ==> final(self).data@.len() == old(
                self,
            ).inputs@.len(),
            old(self).padding_type == PaddingType::Valid ==> forall|i: int|
                0 <= i < old(self).inputs@.len() ==> (#[trigger] final(self).data@[i])@.len()
                    == old(self).inputs@[i]@.len(),
            old(self).padding_type == PaddingType::Valid ==> forall|i: int, j: int|
                0 <= i < old(self).inputs@.len() && 0 <= j < old(self).inputs@[i]@.len()
                    ==> (#[trigger] final(self).data@[i]@[j])@ == old(self).inputs@[i]@[j]@,
            old(self).padding_type != PaddingType::Valid ==> final(self).padding as int == pad_of(
                old(self).padding_type,
                old(self).kernel as int,
            ),
            old(self).padding_type != PaddingType::Valid ==> ten_dims(
                final(self).data@,
                old(self).inputs@.len() as int,
                old(self).inputs@[0]@.len() + 2 * pad_of(old(self).padding_type, old(self).kernel as int),
                old(self).inputs@[0]@[0]@.len() + 2 * pad_of(old(self).padding_type, old(self).kernel as int),
            ),
            old(self).padding_type != PaddingType::Valid ==> forall|i: int, j: int, k: int|
                {
                    let p = pad_of(old(self).padding_type, old(self).kernel as int);
                    let rows = old(self).inputs@[0]@.len() as int;
                    let cols = old(self).inputs@[0]@[0]@.len() as int;
                    0 <= i < old(self).inputs@.len() && 0 <= j < rows + 2 * p && 0 <= k < cols + 2
                        * p ==> #[trigger] final(self).data@[i]@[j]@[k] == (if p <= j < rows + p
                        && p <= k < cols + p {
                        old(self).inputs@[i]@[j - p]@[k - p]
                    } else {
                        0u64
                    })
                },
    {
        if self.padding_type == PaddingType::Valid {
            self.data = crate::tensor::copy_tensor(&self.inputs);
            return ;
        }
        let mut padding: usize = (self.kernel - 1) / 2;
        if self.padding_type == PaddingType::Full {
            padding = self.kernel - 1;
        }
        self.padding = padding;
        let ch = self.inputs.len();
        let ghost rows = self.inputs@[0]@.len() as int;
        let ghost cols = self.inputs@[0]@[0]@.len() as int;
        let mut padded: Vec<Vec<Vec<u64>>> = Vec::new();
        let mut i: usize = 0;
        while i < ch
            invariant
                i <= ch,
                ch == self.inputs@.len(),
                self.inputs@.len() >= 1,
                rows == self.inputs@[0]@.len() as int,
                cols == self.inputs@[0]@[0]@.len() as int,
                rows >= 1,
                rows + 2 * padding <= usize::MAX,
                cols + 2 * padding <= usize::MAX,
                ten_dims(self.inputs@, ch as int, rows, cols),
                padded@.len() == i,
                forall|x: int| 0 <= x < i ==> mat_dims((#[trigger] padded@[x])@, rows + 2 * padding, cols + 2 * padding),
                forall|x: int, y: int, z: int|
                    0 <= x < i && 0 <= y < rows + 2 * padding && 0 <= z < cols + 2 * padding
                        ==> #[trigger] padded@[x]@[y]@[z] == (if padding <= y < rows + padding
                        && padding <= z < cols + padding {
                        self.inputs@[x]@[y - padding]@[z - padding]
                    } else {
                        0u64
                    }),
            decreases ch - i,
        {
            padded.push(pad_matrix(&self.inputs[i], padding));
            i = i + 1;
        }
        self.data = padded;
    }

    /// The spatial size of the output: width and height of sliding the
    /// kernel at this stride over the padded `data`.
    pub fn get_output_dims(&self) -> (r: [usize; 2])
        requires
            self.data@.len() >= 1,
            self.data@[0]@.len() >= 1,
            self.kernel >= 1,
            self.stride >= 1,
            self.kernel <= self.data@[0]@.len(),
            self.kernel <= self.data@[0]@[0]@.len(),
        ensures
            r[0] == out_len(self.data@[0]@[0]@.len() as int, self.kernel as int, self.stride as int),
            r[1] == out_len(self.data@[0]@.len() as int, self.kernel as int, self.stride as int),
    {
        let height = self.data[0].len();
        let width = self.data[0][0].len();
        let out_width = (width - self.kernel) / self.stride + 1;
        let out_height = (height - self.kernel) / self.stride + 1;
        [out_width, out_height]
    }
}

/// Shape law of the padded slide at stride 1, for any dimension at least
/// as large as the kernel: `Valid` padding yields `dim - k + 1` cells,
/// `Same` keeps the input size (one less when the kernel is even, since
/// the border splits unevenly), and `Full` yields `dim + k - 1`.
pub proof fn lemma_output_shape(dim: int, k: int, p: PaddingType)
    requires
        1 <= k <= dim,
    ensures
        out_len(dim + 2 * pad_of(p, k), k, 1) == (match p {
            PaddingType::Valid => dim - k + 1,
            PaddingType::Same => if k % 2 == 1 {
                dim
            } else {
                dim - 1
            },
            PaddingType::Full => dim + k - 1,
        }),
{
    assert(2 * ((k - 1) / 2) == (if k % 2 == 1 {
        k - 1
    } else {
        k - 2
    }));
}

/// Bound on one channel's block of draws.
proof fn lemma_block_bounds(i: int, ch: int, kk: int) by (nonlinear_arith)
    requires
        0 <= i < ch,
        0 <= kk,
    ensures
        i * kk * kk + kk * kk <= ch * kk * kk,
        i * kk * kk >= 0,
{
}

/// Bound on one kernel row's block of draws.
proof fn lemma_row_bounds(i: int, j: int, ch: int, kk: int) by (nonlinear_arith)
    requires
        0 <= i < ch,
        0 <= j < kk,
    ensures
        (i * kk + j) * kk >= 0,
        (i * kk + j) * kk + kk <= ch * kk * kk,
        i * kk * kk + kk * kk <= ch * kk * kk,
        0 <= i * kk,
        i * kk + j < ch * kk,
        ch * kk <= ch * kk * kk,
{
}

} // verus!

