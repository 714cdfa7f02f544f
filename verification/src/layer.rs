//! One layer of the network: a tagged union over dense, convolutional and
//! pooling layers. A layer owns its parameters and exposes its own forward
//! and backward passes; it never looks at its neighbours.
//!
//! The max-pooling passes are verified here in full, down to the bit-level
//! ordering of doubles. The dense and convolutional passes multiply and
//! accumulate doubles, which is the embedding program's floating-point
//! work; their parameter state, padding and shape handling live here.

use vstd::prelude::*;

use crate::activation::{Activation, ActivationFunction};
use crate::conv_params::{out_len, ConvParams, PaddingType};
use crate::dense_params::DenseParams;
use crate::pool::{max_pool, route_pool_errors, routes_to, window_argmax};
use crate::tensor::{copy_matrix, copy_row, copy_tensor, mat_dims, pad_matrix, ten_dims};

verus! {

#[derive(Clone, Copy, PartialEq, Eq, Structural, Debug)]
pub enum LayerType {
    Dense,
    Convolutional,
    Pooling,
}

pub struct Layer {
    pub activation: Activation,
    pub layer_type: LayerType,
    pub conv_params: Option<ConvParams>,
    pub dense_params: Option<DenseParams>,
}

impl Layer {
    /// A fully connected layer of `nodes[0]` inputs and `nodes[1]` outputs,
    /// weights and biases zero until `DenseParams::init` places the drawn
    /// values.
    pub fn dense(nodes: [usize; 2], activation_fn: ActivationFunction) -> (r: Layer)
        ensures
            r.layer_type == LayerType::Dense,
            r.activation.function == activation_fn,
            r.conv_params is None,
            r.dense_params is Some,
            r.dense_params->0.wf(),
            r.dense_params->0.nodes_in == nodes[0],
            r.dense_params->0.nodes_out == nodes[1],
            crate::tensor::mat_zero(r.dense_params->0.weights@),
            forall|j: int| 0 <= j < nodes[1] ==> r.dense_params->0.biases@[j] == 0u64,
            r.dense_params->0.inputs@.len() == 0,
            r.dense_params->0.outputs@.len() == 0,
    {
        let dense_params = Some(DenseParams::new(nodes[0], nodes[1]));
        Layer {
            dense_params,
            activation: Activation::new(activation_fn),
            layer_type: LayerType::Dense,
            conv_params: None,
        }
    }

    /// A convolutional layer with a square kernel, a padding mode and a
    /// stride; its per-channel kernels appear on the first forward pass.
    pub fn conv(
        kernel: usize,
        padding_type: PaddingType,
        stride: usize,
        activation_fn: ActivationFunction,
    ) -> (r: Layer)
        ensures
            r.layer_type == LayerType::Convolutional,
            r.activation.function == activation_fn,
            r.dense_params is None,
            r.conv_params is Some,
            r.conv_params->0.kernel == kernel,
            r.conv_params->0.padding_type == padding_type,
            r.conv_params->0.stride == stride,
            r.conv_params->0.padding == 0,
            r.conv_params->0.weights@.len() == 0,
            r.conv_params->0.bias == 0u64,
            r.conv_params->0.data@.len() == 0,
            r.conv_params->0.inputs@.len() == 0,
            r.conv_params->0.outputs@.len() == 0,
    {
        let conv_params = Some(ConvParams::new(kernel, padding_type, stride));
        Layer {
            dense_params: None,
            activation: Activation::new(activation_fn),
            layer_type: LayerType::Convolutional,
            conv_params,
        }
    }

    /// A max-pooling layer: a kernel and a stride, no padding and no
    /// learnable weights.
    pub fn pool(kernel: usize, stride: usize) -> (r: Layer)
        ensures
            r.layer_type == LayerType::Pooling,
            r.activation.function == ActivationFunction::ReLU,
            r.dense_params is None,
            r.conv_params is Some,
            r.conv_params->0.kernel == kernel,
            r.conv_params->0.padding_type == PaddingType::Valid,
            r.conv_params->0.stride == stride,
            r.conv_params->0.weights@.len() == 0,
            r.conv_params->0.bias == 0u64,
    {
        let conv_params = Some(ConvParams::new(kernel, PaddingType::Valid, stride));
        Layer {
            dense_params: None,
            activation: Activation::new(ActivationFunction::ReLU),
            layer_type: LayerType::Pooling,
            conv_params,
        }
    }

    /// The max-pooling forward pass: caches the input, then slides the
    /// kernel at this stride over every channel and keeps each window's
    /// maximum — the first strict maximum in row-major scan order, under
    /// the bit-pattern ordering of doubles.
    pub fn pool_forward(&mut self, inputs: Vec<Vec<Vec<u64>>>) -> (out: Vec<Vec<Vec<u64>>>)
        requires
            old(self).conv_params is Some,
            old(self).conv_params->0.padding_type == PaddingType::Valid,
            old(self).conv_params->0.kernel >= 1,
            old(self).conv_params->0.stride >= 1,
            inputs@.len() >= 1,
            inputs@[0]@.len() >= 1,
            ten_dims(
                inputs@,
                inputs@.len() as int,
                inputs@[0]@.len() as int,
                inputs@[0]@[0]@.len() as int,
            ),
            old(self).conv_params->0.kernel <= inputs@[0]@.len(),
            old(self).conv_params->0.kernel <= inputs@[0]@[0]@.len(),
            inputs@[0]@.len() as int * old(self).conv_params->0.kernel as int <= usize::MAX,
            inputs@[0]@[0]@.len() as int * old(self).conv_params->0.kernel as int <= usize::MAX,
        ensures
            final(self).activation == old(self).activation,
            final(self).layer_type == old(self).layer_type,
            final(self).dense_params == old(self).dense_params,
            final(self).conv_params is Some,
            final(self).conv_params->0.kernel == old(self).conv_params->0.kernel,
            final(self).conv_params->0.stride == old(self).conv_params->0.stride,
            final(self).conv_params->0.padding_type == old(self).conv_params->0.padding_type,
            final(self).conv_params->0.padding == old(self).conv_params->0.padding,
            final(self).conv_params->0.weights == old(self).conv_params->0.weights,
            final(self).conv_params->0.bias == old(self).conv_params->0.bias,
            final(self).conv_params->0.inputs == inputs,
            ten_dims(
                final(self).conv_params->0.data@,
                inputs@.len() as int,
                inputs@[0]@.len() as int,
                inputs@[0]@[0]@.len() as int,
            ),
            forall|i: int, j: int|
                0 <= i < inputs@.len() && 0 <= j < inputs@[0]@.len() ==> (#[trigger] final(self).conv_params->0.data@[i]@[j])@ == inputs@[i]@[j]@,
            ten_dims(
                out@,
                inputs@.len() as int,
                out_len(
                    inputs@[0]@.len() as int,
                    old(self).conv_params->0.kernel as int,
                    old(self).conv_params->0.stride as int,
                ),
                out_len(
                    inputs@[0]@[0]@.len() as int,
                    old(self).conv_params->0.kernel as int,
                    old(self).conv_params->0.stride as int,
                ),
            ),
            forall|i: int, j: int, k: int|
                {
                    let kk = old(self).conv_params->0.kernel as int;
                    let ss = old(self).conv_params->0.stride as int;
                    let rows = inputs@[0]@.len() as int;
                    let cols = inputs@[0]@[0]@.len() as int;
                    0 <= i < inputs@.len() && 0 <= j < out_len(rows, kk, ss) && 0 <= k < out_len(
                        cols,
                        kk,
                        ss,
                    ) ==> #[trigger] out@[i]@[j]@[k] == (if j * kk < rows && k * kk < cols {
                        window_argmax(inputs@[i]@, j * ss, k * ss, kk).0
                    } else {
                        0u64
                    })
                },
            final(self).conv_params->0.outputs@.len() == out@.len(),
            forall|i: int|
                0 <= i < out@.len() ==> (#[trigger] final(self).conv_params->0.outputs@[i])@.len()
                    == out@[i]@.len(),
            forall|i: int, j: int|
                0 <= i < out@.len() && 0 <= j < out@[i]@.len() ==> (#[trigger] final(self).conv_params->0.outputs@[i]@[j])@ == out@[i]@[j]@,
    {
        let rows = inputs[0].len();
        let cols = inputs[0][0].len();
        let mut params = self.conv_params.take().unwrap();
        params.inputs = inputs;
        params.add_padding();
        let dims = params.get_output_dims();
        let out = max_pool(&params.inputs, params.kernel, params.stride, rows, cols, dims[1], dims[0]);
        params.outputs = copy_tensor(&out);
        self.conv_params = Some(params);
        out
    }

    /// The max-pooling backward pass: recomputes each window's maximum
    /// from the cached `data` and routes the window's incoming error to
    /// exactly that cell of a zero map shaped like the cached input —
    /// walking windows row-major, so where overlapping windows report the
    /// same cell the last one's error stands. The layer itself is left
    /// untouched.
    pub fn pool_backward(&mut self, errors: Vec<Vec<Vec<u64>>>) -> (next: Vec<Vec<Vec<u64>>>)
        requires
            old(self).conv_params is Some,
            old(self).conv_params->0.kernel >= 1,
            old(self).conv_params->0.stride >= 1,
            old(self).conv_params->0.data@.len() >= 1,
            old(self).conv_params->0.data@[0]@.len() >= 1,
            ten_dims(
                old(self).conv_params->0.data@,
                old(self).conv_params->0.data@.len() as int,
                old(self).conv_params->0.data@[0]@.len() as int,
                old(self).conv_params->0.data@[0]@[0]@.len() as int,
            ),
            ten_dims(
                old(self).conv_params->0.inputs@,
                old(self).conv_params->0.data@.len() as int,
                old(self).conv_params->0.data@[0]@.len() as int,
                old(self).conv_params->0.data@[0]@[0]@.len() as int,
            ),
            errors@.len() == old(self).conv_params->0.data@.len(),
            errors@[0]@.len() >= 1,
            ten_dims(
                errors@,
                errors@.len() as int,
                errors@[0]@.len() as int,
                errors@[0]@[0]@.len() as int,
            ),
            errors@[0]@.len() as int * old(self).conv_params->0.stride as int <= usize::MAX,
            errors@[0]@[0]@.len() as int * old(self).conv_params->0.stride as int <= usize::MAX,
            old(self).conv_params->0.data@[0]@.len() + old(self).conv_params->0.kernel
                <= usize::MAX,
            old(self).conv_params->0.data@[0]@[0]@.len() + old(self).conv_params->0.kernel
                <= usize::MAX,
        ensures
            *final(self) == *old(self),
            ten_dims(
                next@,
                old(self).conv_params->0.data@.len() as int,
                old(self).conv_params->0.data@[0]@.len() as int,
                old(self).conv_params->0.data@[0]@[0]@.len() as int,
            ),
            forall|i: int, r: int, c: int|
                {
                    let dd = old(self).conv_params->0.data@;
                    let ss = old(self).conv_params->0.stride as int;
                    let kk = old(self).conv_params->0.kernel as int;
                    let rows = dd[0]@.len() as int;
                    let cols = dd[0]@[0]@.len() as int;
                    0 <= i < dd.len() && 0 <= r < rows && 0 <= c < cols
                        ==> #[trigger] next@[i]@[r]@[c] == crate::pool::routed(
                        dd[i]@,
                        errors@[i]@,
                        ss,
                        kk,
                        rows,
                        cols,
                        errors@[0]@.len() as int,
                        errors@[0]@[0]@.len() as int,
                        r,
                        c,
                    )
                },
            old(self).conv_params->0.stride >= old(self).conv_params->0.kernel ==> forall|
                i: int,
                r: int,
                c: int,
            |
                {
                    let dd = old(self).conv_params->0.data@;
                    let ss = old(self).conv_params->0.stride as int;
                    let kk = old(self).conv_params->0.kernel as int;
                    let rows = dd[0]@.len() as int;
                    let cols = dd[0]@[0]@.len() as int;
                    0 <= i < dd.len() && 0 <= r < rows && 0 <= c < cols
                        ==> #[trigger] next@[i]@[r]@[c] == (if r / ss < errors@[0]@.len() && c / ss
                        < errors@[0]@[0]@.len() && routes_to(dd[i]@, ss, kk, r / ss, c / ss, r, c) {
                        errors@[i]@[r / ss]@[c / ss]
                    } else {
                        0u64
                    })
                },
    {
        let params = self.conv_params.take().unwrap();
        let rows = params.data[0].len();
        let cols = params.data[0][0].len();
        let er = errors[0].len();
        let ec = errors[0][0].len();
        let next = route_pool_errors(
            &params.data,
            &errors,
            params.kernel,
            params.stride,
            rows,
            cols,
            er,
            ec,
        );
        self.conv_params = Some(params);
        next
    }

    /// The matrix turned half a turn: rows in reverse order, every row
    /// reversed. Applied to a kernel before the backward pass correlates
    /// it over the padded error map.
    pub fn rotate180(mat: &Vec<Vec<u64>>) -> (r: Vec<Vec<u64>>)
        ensures
            r@.len() == mat@.len(),
            forall|i: int|
                0 <= i < mat@.len() ==> (#[trigger] r@[i])@.len() == mat@[mat@.len() - 1
                    - i]@.len(),
            forall|i: int, j: int|
                0 <= i < mat@.len() && 0 <= j < mat@[mat@.len() - 1 - i]@.len()
                    ==> #[trigger] r@[i]@[j] == mat@[mat@.len() - 1 - i]@[mat@[mat@.len() - 1
                    - i]@.len() - 1 - j],
    {
        let n = mat.len();
        let mut r: Vec<Vec<u64>> = Vec::new();
        let mut i: usize = 0;
        while i < n
            invariant
                i <= n,
                n == mat@.len(),
                r@.len() == i,
                forall|x: int|
                    0 <= x < i ==> (#[trigger] r@[x])@.len() == mat@[n - 1 - x]@.len(),
                forall|x: int, y: int|
                    0 <= x < i && 0 <= y < mat@[n - 1 - x]@.len() ==> #[trigger] r@[x]@[y]
                        == mat@[n - 1 - x]@[mat@[n - 1 - x]@.len() - 1 - y],
            decreases n - i,
        {
            let src = &mat[n - 1 - i];
            let m = src.len();
            let mut row: Vec<u64> = Vec::new();
            let mut j: usize = 0;
            while j < m
                invariant
                    j <= m,
                    m == src@.len(),
                    row@.len() == j,
                    forall|y: int| 0 <= y < j ==> #[trigger] row@[y] == src@[m - 1 - y],
                decreases m - j,
            {
                row.push(src[m - 1 - j]);
                j = j + 1;
            }
            r.push(row);
            i = i + 1;
        }
        r
    }

    /// `matrix` centred in a zero border of width `padding`: the error map
    /// is widened this way before the backward pass slides the rotated
    /// kernel over it.
    pub fn add_padding_matrix(padding: usize, matrix: &Vec<Vec<u64>>) -> (r: Vec<Vec<u64>>)
        requires
            matrix@.len() >= 1,
            mat_dims(matrix@, matrix@.len() as int, matrix@[0]@.len() as int),
            matrix@.len() + 2 * padding <= usize::MAX,
            matrix@[0]@.len() + 2 * padding <= usize::MAX,
        ensures
            mat_dims(r@, matrix@.len() + 2 * padding, matrix@[0]@.len() + 2 * padding),
            forall|j: int, k: int|
                0 <= j < matrix@.len() + 2 * padding && 0 <= k < matrix@[0]@.len() + 2 * padding
                    ==> #[trigger] r@[j]@[k] == (if padding <= j < matrix@.len() + padding
                    && padding <= k < matrix@[0]@.len() + padding {
                    matrix@[j - padding]@[k - padding]
                } else {
                    0u64
                }),
    {
        pad_matrix(matrix, padding)
    }

    pub fn get_dense_weights(&self) -> (r: Vec<Vec<u64>>)
        requires
            self.dense_params is Some,
        ensures
            r@.len() == self.dense_params->0.weights@.len(),
            forall|i: int|
                0 <= i < r@.len() ==> (#[trigger] r@[i])@ == self.dense_params->0.weights@[i]@,
            crate::tensor::mat_view(r) == crate::tensor::mat_view(self.dense_params->0.weights),
    {
        match &self.dense_params {
            Some(p) => copy_matrix(&p.weights),
            None => Vec::new(),
        }
    }

    pub fn get_dense_biases(&self) -> (r: Vec<u64>)
        requires
            self.dense_params is Some,
        ensures
            r@ == self.dense_params->0.biases@,
    {
        match &self.dense_params {
            Some(p) => copy_row(&p.biases),
            None => Vec::new(),
        }
    }

    pub fn get_conv_weights(&self) -> (r: Vec<Vec<Vec<u64>>>)
        requires
            self.conv_params is Some,
        ensures
            r@.len() == self.conv_params->0.weights@.len(),
            forall|i: int|
                0 <= i < r@.len() ==> (#[trigger] r@[i])@.len()
                    == self.conv_params->0.weights@[i]@.len(),
            forall|i: int, j: int|
                0 <= i < r@.len() && 0 <= j < r@[i]@.len() ==> (#[trigger] r@[i]@[j])@
                    == self.conv_params->0.weights@[i]@[j]@,
            crate::tensor::ten_view(r) == crate::tensor::ten_view(self.conv_params->0.weights),
    {
        match &self.conv_params {
            Some(p) => copy_tensor(&p.weights),
            None => Vec::new(),
        }
    }

    pub fn get_conv_biases(&self) -> (r: u64)
        requires
            self.conv_params is Some,
        ensures
            r == self.conv_params->0.bias,
    {
        match &self.conv_params {
            Some(p) => p.bias,
            None => 0u64,
        }
    }

    /// The layer's output width: its `nodes_out` when dense, zero for the
    /// spatial layers.
    pub fn get_nodes(&self) -> (r: usize)
        requires
            self.layer_type == LayerType::Dense ==> self.dense_params is Some,
        ensures
            self.layer_type == LayerType::Dense ==> r == self.dense_params->0.nodes_out,
            self.layer_type != LayerType::Dense ==> r == 0,
    {
        if self.layer_type == LayerType::Dense {
            return match &self.dense_params {
                Some(p) => p.nodes_out,
                None => 0,
            };
        }
        0
    }

    /// The layer's input width: its `nodes_in` when dense, zero for the
    /// spatial layers.
    pub fn get_input_nodes(&self) -> (r: usize)
        requires
            self.layer_type == LayerType::Dense ==> self.dense_params is Some,
        ensures
            self.layer_type == LayerType::Dense ==> r == self.dense_params->0.nodes_in,
            self.layer_type != LayerType::Dense ==> r == 0,
    {
        if self.layer_type == LayerType::Dense {
            return match &self.dense_params {
                Some(p) => p.nodes_in,
                None => 0,
            };
        }
        0
    }

    pub fn get_dense_outputs(&self) -> (r: Vec<u64>)
        requires
            self.dense_params is Some,
        ensures
            r@ == self.dense_params->0.outputs@,
    {
        match &self.dense_params {
            Some(p) => copy_row(&p.outputs),
            None => Vec::new(),
        }
    }

    pub fn get_conv_outputs(&self) -> (r: Vec<Vec<Vec<u64>>>)
        requires
            self.conv_params is Some,
        ensures
            r@.len() == self.conv_params->0.outputs@.len(),
            forall|i: int|
                0 <= i < r@.len() ==> (#[trigger] r@[i])@.len()
                    == self.conv_params->0.outputs@[i]@.len(),
            forall|i: int, j: int|
                0 <= i < r@.len() && 0 <= j < r@[i]@.len() ==> (#[trigger] r@[i]@[j])@
                    == self.conv_params->0.outputs@[i]@[j]@,
            crate::tensor::ten_view(r) == crate::tensor::ten_view(self.conv_params->0.outputs),
    {
        match &self.conv_params {
            Some(p) => copy_tensor(&p.outputs),
            None => Vec::new(),
        }
    }

    pub fn get_layer_type(&self) -> (r: LayerType)
        ensures
            r == self.layer_type,
    {
        self.layer_type
    }

    /// Forgets the cached activations of the most recent forward pass,
    /// and drops a spatial layer's kernels so the once-only placement in
    /// `ConvParams::init` runs again. Dense weights stay in place: their
    /// next draw placement overwrites them wholesale. Drawing the fresh
    /// values is floating-point work, installed afterwards through the
    /// params' `init`.
    pub fn reset(&mut self)
        requires
            old(self).layer_type == LayerType::Dense ==> old(self).dense_params is Some,
            old(self).layer_type != LayerType::Dense ==> old(self).conv_params is Some,
        ensures
            final(self).layer_type == old(self).layer_type,
            final(self).activation == old(self).activation,
            old(self).layer_type == LayerType::Dense ==> {
                &&& final(self).conv_params == old(self).conv_params
                &&& final(self).dense_params is Some
                &&& final(self).dense_params->0.inputs@.len() == 0
                &&& final(self).dense_params->0.outputs@.len() == 0
                &&& final(self).dense_params->0.weights == old(self).dense_params->0.weights
                &&& final(self).dense_params->0.biases == old(self).dense_params->0.biases
                &&& final(self).dense_params->0.nodes_in == old(self).dense_params->0.nodes_in
                &&& final(self).dense_params->0.nodes_out == old(self).dense_params->0.nodes_out
            },
            old(self).layer_type != LayerType::Dense ==> {
                &&& final(self).dense_params == old(self).dense_params
                &&& final(self).conv_params is Some
                &&& final(self).conv_params->0.inputs@.len() == 0
                &&& final(self).conv_params->0.outputs@.len() == 0
                &&& final(self).conv_params->0.weights@.len() == 0
                &&& final(self).conv_params->0.bias == old(self).conv_params->0.bias
                &&& final(self).conv_params->0.kernel == old(self).conv_params->0.kernel
                &&& final(self).conv_params->0.stride == old(self).conv_params->0.stride
                &&& final(self).conv_params->0.padding == old(self).conv_params->0.padding
                &&& final(self).conv_params->0.padding_type == old(self).conv_params->0.padding_type
                &&& final(self).conv_params->0.data == old(self).conv_params->0.data
            },
    {
        if self.layer_type == LayerType::Dense {
            let mut params = self.dense_params.take().unwrap();
            params.inputs = Vec::new();
            params.outputs = Vec::new();
            self.dense_params = Some(params);
        } else {
            let mut params = self.conv_params.take().unwrap();
            params.inputs = Vec::new();
            params.outputs = Vec::new();
            params.weights = Vec::new();
            self.conv_params = Some(params);
        }
    }

    /// Overwrites the dense weights and biases with the given values,
    /// exactly as handed in.
    pub fn set_params(&mut self, weights: Vec<Vec<u64>>, biases: Vec<u64>)
        requires
            old(self).dense_params is Some,
        ensures
            final(self).layer_type == old(self).layer_type,
            final(self).activation == old(self).activation,
            final(self).conv_params == old(self).conv_params,
            final(self).dense_params is Some,
            final(self).dense_params->0.weights == weights,
            final(self).dense_params->0.biases == biases,
            final(self).dense_params->0.nodes_in == old(self).dense_params->0.nodes_in,
            final(self).dense_params->0.nodes_out == old(self).dense_params->0.nodes_out,
            final(self).dense_params->0.inputs == old(self).dense_params->0.inputs,
            final(self).dense_params->0.outputs == old(self).dense_params->0.outputs,
    {
        let mut params = self.dense_params.take().unwrap();
        params.weights = weights;
        params.biases = biases;
        self.dense_params = Some(params);
    }
}

} // verus!


