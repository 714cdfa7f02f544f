//! The network: an ordered stack of layers, the loss choice, and the
//! hyperparameters of batched gradient descent. The structural work of the
//! training loop is verified here — flattening a spatial tensor into a
//! dense vector, reshaping a flat delta back into channels, the batch
//! arithmetic, the one-hot target index, and shuffling (through rand,
//! trusted to permute). Running the passes themselves multiplies doubles
//! and is the embedding program's work, as is reading and writing models
//! on disk.

use vstd::prelude::*;

use rand::seq::SliceRandom;

use crate::layer::{Layer, LayerType};
use crate::loss_function::{LossFunction, LossType};
use crate::scalar::{fp_eq, DEFAULT_GRAD_THRESHOLD_BITS, ONE_BITS, ZERO_BITS};
use crate::tensor::{mat_dims, ten_dims};

verus! {

#[derive(Clone, Copy, PartialEq, Eq, Structural, Debug)]
pub enum NetworkType {
    FCN,
    CNN,
}

/// A matrix laid out row-major as one flat sequence.
pub open spec fn flat_mat(m: Seq<Vec<u64>>) -> Seq<u64>
    decreases m.len(),
{
    if m.len() == 0 {
        Seq::empty()
    } else {
        flat_mat(m.drop_last()) + m.last()@
    }
}

/// A channelled tensor laid out channel-major, each channel row-major, as
/// one flat sequence: the order `flatten` walks it in.
pub open spec fn flat_ten(t: Seq<Vec<Vec<u64>>>) -> Seq<u64>
    decreases t.len(),
{
    if t.len() == 0 {
        Seq::empty()
    } else {
        flat_ten(t.drop_last()) + flat_mat(t.last()@)
    }
}

/// How many dense layers a stack holds.
pub open spec fn dense_count(ls: Seq<Layer>) -> int
    decreases ls.len(),
{
    if ls.len() == 0 {
        0
    } else {
        dense_count(ls.drop_last()) + (if ls.last().layer_type == LayerType::Dense {
            1int
        } else {
            0int
        })
    }
}

/// How many convolutional or pooling layers a stack holds.
pub open spec fn spatial_count(ls: Seq<Layer>) -> int
    decreases ls.len(),
{
    if ls.len() == 0 {
        0
    } else {
        spatial_count(ls.drop_last()) + (if ls.last().layer_type != LayerType::Dense {
            1int
        } else {
            0int
        })
    }
}

/// How many layers of a stack are not convolutional.
pub open spec fn nonconv_count(ls: Seq<Layer>) -> int
    decreases ls.len(),
{
    if ls.len() == 0 {
        0
    } else {
        nonconv_count(ls.drop_last()) + (if ls.last().layer_type != LayerType::Convolutional {
            1int
        } else {
            0int
        })
    }
}

/// Every count of a prefix stays between zero and the prefix length.
proof fn lemma_counts_bounded(ls: Seq<Layer>, i: int)
    requires
        0 <= i <= ls.len(),
    ensures
        0 <= dense_count(ls.take(i)) <= i,
        0 <= spatial_count(ls.take(i)) <= i,
        0 <= nonconv_count(ls.take(i)) <= i,
    decreases i,
{
    if i > 0 {
        lemma_counts_bounded(ls, i - 1);
        assert(ls.take(i).drop_last() =~= ls.take(i - 1));
    }
}

/// Counts grow along prefixes, strictly where the first added layer is of
/// the counted kind.
proof fn lemma_count_mono(ls: Seq<Layer>, a: int, b: int)
    requires
        0 <= a <= b <= ls.len(),
    ensures
        dense_count(ls.take(a)) <= dense_count(ls.take(b)),
        spatial_count(ls.take(a)) <= spatial_count(ls.take(b)),
        nonconv_count(ls.take(a)) <= nonconv_count(ls.take(b)),
        a < b && ls[a].layer_type == LayerType::Dense ==> dense_count(ls.take(a)) < dense_count(
            ls.take(b),
        ),
        a < b && ls[a].layer_type != LayerType::Dense ==> spatial_count(ls.take(a))
            < spatial_count(ls.take(b)),
        a < b && ls[a].layer_type != LayerType::Convolutional ==> nonconv_count(ls.take(a))
            < nonconv_count(ls.take(b)),
    decreases b - a,
{
    if a < b {
        assert(ls.take(a + 1).drop_last() =~= ls.take(a));
        assert(ls.take(a + 1).last() == ls[a]);
        lemma_count_mono(ls, a + 1, b);
    }
}

/// One layer's contribution to each count, and the room the counts of an
/// earlier prefix leave inside a later one.
proof fn lemma_count_step(ls: Seq<Layer>, n: int, b: int)
    requires
        0 <= n < b <= ls.len(),
    ensures
        0 <= dense_count(ls.take(n)),
        0 <= spatial_count(ls.take(n)),
        0 <= nonconv_count(ls.take(n)),
        dense_count(ls.take(n + 1)) == dense_count(ls.take(n)) + (if ls[n].layer_type
            == LayerType::Dense {
            1int
        } else {
            0int
        }),
        spatial_count(ls.take(n + 1)) == spatial_count(ls.take(n)) + (if ls[n].layer_type
            != LayerType::Dense {
            1int
        } else {
            0int
        }),
        nonconv_count(ls.take(n + 1)) == nonconv_count(ls.take(n)) + (if ls[n].layer_type
            != LayerType::Convolutional {
            1int
        } else {
            0int
        }),
        dense_count(ls.take(n + 1)) <= dense_count(ls.take(b)),
        spatial_count(ls.take(n + 1)) <= spatial_count(ls.take(b)),
        nonconv_count(ls.take(n + 1)) <= nonconv_count(ls.take(b)),
{
    assert(ls.take(n + 1).drop_last() =~= ls.take(n));
    assert(ls.take(n + 1).last() == ls[n]);
    lemma_counts_bounded(ls, n);
    lemma_count_mono(ls, n + 1, b);
}

pub struct Network {
    pub layers: Vec<Layer>,
    /// Step size of gradient descent, a double held by its bit pattern.
    pub learning_rate: u64,
    pub batch_size: usize,
    /// Mean loss of the last epoch, a double held by its bit pattern.
    pub cost: u64,
    pub print_progress: bool,
    pub network_type: NetworkType,
    pub loss_function: LossFunction,
    /// Bound the summed batch gradient's L2 norm is clipped to, a double
    /// held by its bit pattern.
    pub grad_threshold: u64,
}

impl Network {
    /// A network over the given layers: convolutional or pooling layers
    /// anywhere in the stack make it a CNN, otherwise it is fully
    /// connected. Cost starts at zero and the gradient-clipping threshold
    /// at its default of one fifth.
    pub fn new(
        layers: Vec<Layer>,
        learning_rate: u64,
        batch_size: usize,
        loss_type: LossType,
    ) -> (r: Network)
        ensures
            r.layers == layers,
            r.learning_rate == learning_rate,
            r.batch_size == batch_size,
            r.cost == ZERO_BITS,
            r.print_progress == false,
            r.loss_function.loss_type == loss_type,
            r.grad_threshold == DEFAULT_GRAD_THRESHOLD_BITS,
            (r.network_type == NetworkType::CNN) <==> (exists|i: int|
                0 <= i < layers@.len() && ((#[trigger] layers@[i].layer_type)
                    == LayerType::Convolutional || layers@[i].layer_type == LayerType::Pooling)),
    {
        let mut network_type = NetworkType::FCN;
        let mut i: usize = 0;
        while i < layers.len()
            invariant
                i <= layers@.len(),
                (network_type == NetworkType::CNN) <==> (exists|x: int|
                    0 <= x < i && ((#[trigger] layers@[x].layer_type)
                        == LayerType::Convolutional || layers@[x].layer_type
                        == LayerType::Pooling)),
            decreases layers@.len() - i,
        {
            if layers[i].layer_type == LayerType::Convolutional || layers[i].layer_type
                == LayerType::Pooling {
                network_type = NetworkType::CNN;
            }
            i = i + 1;
        }
        Network {
            layers,
            learning_rate,
            batch_size,
            cost: ZERO_BITS,
            print_progress: false,
            network_type,
            loss_function: LossFunction::new(loss_type),
            grad_threshold: DEFAULT_GRAD_THRESHOLD_BITS,
        }
    }

    /// Turns progress reporting on or off.
    pub fn print_progress(&mut self, value: bool)
        ensures
            *final(self) == (Network { print_progress: value, ..*old(self) }),
    {
        self.print_progress = value
    }

    /// Flattens a channelled tensor into one vector: channel-major, then
    /// row-major, then column by column.
    pub fn flatten(inputs: &Vec<Vec<Vec<u64>>>) -> (r: Vec<u64>)
        ensures
            r@ == flat_ten(inputs@),
    {
        let mut r: Vec<u64> = Vec::new();
        let mut i: usize = 0;
        while i < inputs.len()
            invariant
                i <= inputs@.len(),
                r@ == flat_ten(inputs@.take(i as int)),
            decreases inputs@.len() - i,
        {
            let mat = &inputs[i];
            let ghost head = flat_ten(inputs@.take(i as int));
            let mut j: usize = 0;
            while j < mat.len()
                invariant
                    j <= mat@.len(),
                    i < inputs@.len(),
                    mat == &inputs[i as int],
                    r@ == head + flat_mat(mat@.take(j as int)),
                decreases mat@.len() - j,
            {
                let row = &mat[j];
                let ghost mid = flat_mat(mat@.take(j as int));
                let mut k: usize = 0;
                while k < row.len()
                    invariant
                        k <= row@.len(),
                        j < mat@.len(),
                        row == &mat@[j as int],
                        r@ == head + mid + row@.take(k as int),
                    decreases row@.len() - k,
                {
                    r.push(row[k]);
                    k = k + 1;
                    proof {
                        assert(row@.take(k as int) =~= row@.take(k as int - 1).push(
                            row@[k as int - 1],
                        ));
                        assert(r@ =~= head + mid + row@.take(k as int));
                    }
                }
                j = j + 1;
                proof {
                    assert(mat@.take(j as int).drop_last() =~= mat@.take(j as int - 1));
                    assert(row@.take(row@.len() as int) =~= row@);
                    assert(r@ =~= head + flat_mat(mat@.take(j as int)));
                }
            }
            i = i + 1;
            proof {
                assert(inputs@.take(i as int).drop_last() =~= inputs@.take(i as int - 1));
                assert(mat@.take(mat@.len() as int) =~= mat@);
                assert(r@ =~= flat_ten(inputs@.take(i as int)));
            }
        }
        proof {
            assert(inputs@.take(inputs@.len() as int) =~= inputs@);
        }
        r
    }

    /// Shapes a flat vector back into `channels` matrices of `rows` by
    /// `cols`, consuming it channel-major, then row-major, then column by
    /// column — the inverse of `flatten` on a tensor of that shape.
    pub fn reshape(input: Vec<u64>, channels: usize, rows: usize, cols: usize) -> (out: Vec<
        Vec<Vec<u64>>,
    >)
        requires
            channels as int * rows as int * cols as int <= input@.len(),
        ensures
            ten_dims(out@, channels as int, rows as int, cols as int),
            forall|i: int, j: int, k: int|
                0 <= i < channels && 0 <= j < rows && 0 <= k < cols ==> #[trigger] out@[i]@[j]@[k]
                    == input@[(i * rows as int + j) * cols as int + k],
    {
        let total: usize = input.len();
        let mut out: Vec<Vec<Vec<u64>>> = Vec::new();
        let mut index: usize = 0;
        let mut i: usize = 0;
        while i < channels
            invariant
                i <= channels,
                input@.len() == total,
                channels as int * rows as int * cols as int <= input@.len(),
                index == i as int * rows as int * cols as int,
                out@.len() == i,
                forall|x: int|
                    0 <= x < i ==> mat_dims((#[trigger] out@[x])@, rows as int, cols as int),
                forall|x: int, y: int, z: int|
                    0 <= x < i && 0 <= y < rows && 0 <= z < cols ==> #[trigger] out@[x]@[y]@[z]
                        == input@[(x * rows as int + y) * cols as int + z],
            decreases channels - i,
        {
            proof {
                lemma_channel_step(i as int, rows as int, cols as int);
            }
            let mut mat: Vec<Vec<u64>> = Vec::new();
            let mut j: usize = 0;
            while j < rows
                invariant
                    j <= rows,
                    i < channels,
                    input@.len() == total,
                    channels as int * rows as int * cols as int <= input@.len(),
                    index == i as int * rows as int * cols as int + j as int * cols as int,
                    mat@.len() == j,
                    forall|y: int| 0 <= y < j ==> (#[trigger] mat@[y])@.len() == cols,
                    forall|y: int, z: int|
                        0 <= y < j && 0 <= z < cols ==> #[trigger] mat@[y]@[z] == input@[(
                        i as int * rows as int + y) * cols as int + z],
                decreases rows - j,
            {
                proof {
                    lemma_flat_row(i as int, j as int, channels as int, rows as int, cols as int);
                }
                let mut row: Vec<u64> = Vec::new();
                let mut k: usize = 0;
                while k < cols
                    invariant
                        k <= cols,
                        input@.len() == total,
                        (i as int * rows as int + j) * cols as int + cols <= input@.len(),
                        index == (i as int * rows as int + j) * cols as int + k,
                        row@.len() == k,
                        forall|z: int|
                            0 <= z < k ==> #[trigger] row@[z] == input@[(i as int * rows as int
                                + j) * cols as int + z],
                    decreases cols - k,
                {
                    row.push(input[index]);
                    index = index + 1;
                    k = k + 1;
                }
                mat.push(row);
                j = j + 1;
            }
            out.push(mat);
            i = i + 1;
        }
        out
    }

    /// Forgets the last epoch's cost, every layer's cached activations,
    /// and every spatial layer's kernels, so that re-initialization
    /// re-draws the weights of every layer: the embedding program places
    /// fresh draws through the params' `init`, which overwrites dense
    /// weights wholesale and fills the dropped kernels anew.
    pub fn reset(&mut self)
        requires
            forall|i: int|
                0 <= i < old(self).layers@.len() ==> ((#[trigger] old(self).layers@[i]).layer_type
                    == LayerType::Dense ==> old(self).layers@[i].dense_params is Some),
            forall|i: int|
                0 <= i < old(self).layers@.len() ==> ((#[trigger] old(self).layers@[i]).layer_type
                    != LayerType::Dense ==> old(self).layers@[i].conv_params is Some),
        ensures
            final(self).cost == ZERO_BITS,
            final(self).learning_rate == old(self).learning_rate,
            final(self).batch_size == old(self).batch_size,
            final(self).print_progress == old(self).print_progress,
            final(self).network_type == old(self).network_type,
            final(self).loss_function == old(self).loss_function,
            final(self).grad_threshold == old(self).grad_threshold,
            final(self).layers@.len() == old(self).layers@.len(),
            forall|i: int|
                0 <= i < old(self).layers@.len() ==> {
                    let l0 = old(self).layers@[i];
                    let l1 = #[trigger] final(self).layers@[i];
                    &&& l1.layer_type == l0.layer_type
                    &&& l1.activation == l0.activation
                    &&& (l0.layer_type == LayerType::Dense ==> {
                        &&& l1.conv_params == l0.conv_params
                        &&& l1.dense_params is Some
                        &&& l1.dense_params->0.inputs@.len() == 0
                        &&& l1.dense_params->0.outputs@.len() == 0
                        &&& l1.dense_params->0.weights == l0.dense_params->0.weights
                        &&& l1.dense_params->0.biases == l0.dense_params->0.biases
                        &&& l1.dense_params->0.nodes_in == l0.dense_params->0.nodes_in
                        &&& l1.dense_params->0.nodes_out == l0.dense_params->0.nodes_out
                    })
                    &&& (l0.layer_type != LayerType::Dense ==> {
                        &&& l1.dense_params == l0.dense_params
                        &&& l1.conv_params is Some
                        &&& l1.conv_params->0.inputs@.len() == 0
                        &&& l1.conv_params->0.outputs@.len() == 0
                        &&& l1.conv_params->0.weights@.len() == 0
                        &&& l1.conv_params->0.bias == l0.conv_params->0.bias
                        &&& l1.conv_params->0.kernel == l0.conv_params->0.kernel
                        &&& l1.conv_params->0.stride == l0.conv_params->0.stride
                        &&& l1.conv_params->0.padding == l0.conv_params->0.padding
                        &&& l1.conv_params->0.padding_type == l0.conv_params->0.padding_type
                        &&& l1.conv_params->0.data == l0.conv_params->0.data
                    })
                },
    {
        self.cost = ZERO_BITS;
        let ghost orig = self.layers@;
        let mut rest: Vec<Layer> = Vec::new();
        core::mem::swap(&mut self.layers, &mut rest);
        let mut done: Vec<Layer> = Vec::new();
        let mut i: usize = 0;
        let n = rest.len();
        while i < n
            invariant
                i <= n,
                n == orig.len(),
                rest@ == orig.skip(i as int),
                done@.len() == i,
                forall|x: int|
                    0 <= x < orig.len() ==> ((#[trigger] orig[x]).layer_type == LayerType::Dense
                        ==> orig[x].dense_params is Some),
                forall|x: int|
                    0 <= x < orig.len() ==> ((#[trigger] orig[x]).layer_type != LayerType::Dense
                        ==> orig[x].conv_params is Some),
                forall|x: int|
                    0 <= x < i ==> {
                        let l0 = orig[x];
                        let l1 = #[trigger] done@[x];
                        &&& l1.layer_type == l0.layer_type
                        &&& l1.activation == l0.activation
                        &&& (l0.layer_type == LayerType::Dense ==> {
                            &&& l1.conv_params == l0.conv_params
                            &&& l1.dense_params is Some
                            &&& l1.dense_params->0.inputs@.len() == 0
                            &&& l1.dense_params->0.outputs@.len() == 0
                            &&& l1.dense_params->0.weights == l0.dense_params->0.weights
                            &&& l1.dense_params->0.biases == l0.dense_params->0.biases
                            &&& l1.dense_params->0.nodes_in == l0.dense_params->0.nodes_in
                            &&& l1.dense_params->0.nodes_out == l0.dense_params->0.nodes_out
                        })
                        &&& (l0.layer_type != LayerType::Dense ==> {
                            &&& l1.dense_params == l0.dense_params
                            &&& l1.conv_params is Some
                            &&& l1.conv_params->0.inputs@.len() == 0
                            &&& l1.conv_params->0.outputs@.len() == 0
                            &&& l1.conv_params->0.weights@.len() == 0
                            &&& l1.conv_params->0.bias == l0.conv_params->0.bias
                            &&& l1.conv_params->0.kernel == l0.conv_params->0.kernel
                            &&& l1.conv_params->0.stride == l0.conv_params->0.stride
                            &&& l1.conv_params->0.padding == l0.conv_params->0.padding
                            &&& l1.conv_params->0.padding_type == l0.conv_params->0.padding_type
                            &&& l1.conv_params->0.data == l0.conv_params->0.data
                        })
                    },
            decreases n - i,
        {
            let mut layer = rest.remove(0);
            proof {
                assert(orig.skip(i as int)[0] == orig[i as int]);
                assert(orig.skip(i as int).remove(0) =~= orig.skip(i as int + 1));
            }
            layer.reset();
            done.push(layer);
            i = i + 1;
        }
        self.layers = done;
    }

    /// Index of the one-hot entry of a target vector: the first entry
    /// that equals 1.0 — whose bit pattern is that of 1.0, the only
    /// pattern a double equal to one has — or zero when none does.
    pub fn true_index(target: &Vec<u64>) -> (r: usize)
        ensures
            (exists|i: int| 0 <= i < target@.len() && #[trigger] fp_eq(target@[i], ONE_BITS)) ==> (
            r < target@.len() && fp_eq(target@[r as int], ONE_BITS) && forall|i: int|
                0 <= i < r ==> !#[trigger] fp_eq(target@[i], ONE_BITS)),
            !(exists|i: int| 0 <= i < target@.len() && #[trigger] fp_eq(target@[i], ONE_BITS))
                ==> r == 0,
    {
        proof {
            crate::scalar::lemma_fp_eq_one_bits();
        }
        let mut i: usize = 0;
        while i < target.len()
            invariant
                i <= target@.len(),
                forall|x: int| 0 <= x < i ==> target@[x] != ONE_BITS,
                forall|x: u64| #[trigger] fp_eq(x, ONE_BITS) <==> x == ONE_BITS,
            decreases target@.len() - i,
        {
            if target[i] == ONE_BITS {
                proof {
                    assert(fp_eq(target@[i as int], ONE_BITS));
                }
                return i;
            }
            i = i + 1;
        }
        0
    }

    /// How many batches one epoch walks: the sample count over the batch
    /// size, rounded up; the last batch may be smaller.
    pub fn batch_count(samples: usize, batch_size: usize) -> (r: usize)
        requires
            batch_size >= 1,
        ensures
            r as int == samples as int / batch_size as int + (if samples as int % batch_size as int
                == 0 {
                0int
            } else {
                1int
            }),
            samples as int <= r as int * batch_size as int,
            samples > 0 ==> (r as int - 1) * (batch_size as int) < samples as int,
    {
        let q = samples / batch_size;
        let m = samples % batch_size;
        proof {
            vstd::arithmetic::div_mod::lemma_fundamental_div_mod(
                samples as int,
                batch_size as int,
            );
            vstd::arithmetic::div_mod::lemma_mod_bound(samples as int, batch_size as int);
            vstd::arithmetic::mul::lemma_mul_is_commutative(q as int, batch_size as int);
            vstd::arithmetic::mul::lemma_mul_is_distributive_add_other_way(
                batch_size as int,
                q as int,
                1,
            );
            vstd::arithmetic::mul::lemma_mul_is_distributive_sub_other_way(
                batch_size as int,
                q as int,
                1,
            );
            vstd::arithmetic::mul::lemma_mul_inequality(1, batch_size as int, q as int);
        }
        if m == 0 {
            q
        } else {
            q + 1
        }
    }

    /// How many samples the given batch of an epoch takes: the batch size,
    /// except that the batch reaching the end of the data takes what
    /// remains — unless the batch size is one, which always takes one.
    pub fn batch_span(samples: usize, batch_size: usize, batch: usize) -> (r: usize)
        requires
            batch_size >= 1,
            (batch as int) * (batch_size as int) < samples as int,
            samples + batch_size <= usize::MAX,
        ensures
            r as int == (if batch as int * batch_size as int + batch_size as int
                >= samples as int && batch_size != 1 {
                samples as int - batch as int * batch_size as int
            } else {
                batch_size as int
            }),
    {
        proof {
            vstd::arithmetic::mul::lemma_mul_nonnegative(batch as int, batch_size as int);
        }
        let current_sample = batch * batch_size;
        let mut sample_max = batch_size;
        if current_sample + batch_size >= samples && batch_size != 1 {
            sample_max = samples - current_sample;
        }
        sample_max
    }

    /// Copies of every layer's weights: spatial layers' kernel stacks
    /// first (in layer order), dense layers' matrices second (in layer
    /// order).
    #[verifier::rlimit(100)]
    pub fn get_weights(&self) -> (r: (Vec<Vec<Vec<Vec<u64>>>>, Vec<Vec<Vec<u64>>>))
        requires
            forall|i: int|
                0 <= i < self.layers@.len() ==> ((#[trigger] self.layers@[i]).layer_type
                    == LayerType::Dense ==> self.layers@[i].dense_params is Some),
            forall|i: int|
                0 <= i < self.layers@.len() ==> ((#[trigger] self.layers@[i]).layer_type
                    != LayerType::Dense ==> self.layers@[i].conv_params is Some),
        ensures
            r.0@.len() == spatial_count(self.layers@),
            r.1@.len() == dense_count(self.layers@),
            forall|n: int|
                0 <= n < self.layers@.len() && (#[trigger] self.layers@[n]).layer_type
                    == LayerType::Dense ==> crate::tensor::mat_view(
                    r.1@[dense_count(self.layers@.take(n))],
                ) == crate::tensor::mat_view(self.layers@[n].dense_params->0.weights),
            forall|n: int|
                0 <= n < self.layers@.len() && (#[trigger] self.layers@[n]).layer_type
                    != LayerType::Dense ==> crate::tensor::ten_view(
                    r.0@[spatial_count(self.layers@.take(n))],
                ) == crate::tensor::ten_view(self.layers@[n].conv_params->0.weights),
    {
        let ghost ls = self.layers@;
        let mut dense_weights: Vec<Vec<Vec<u64>>> = Vec::new();
        let mut conv_weights: Vec<Vec<Vec<Vec<u64>>>> = Vec::new();
        let mut i: usize = 0;
        while i < self.layers.len()
            invariant
                i <= ls.len(),
                ls == self.layers@,
                forall|x: int|
                    0 <= x < ls.len() ==> ((#[trigger] ls[x]).layer_type == LayerType::Dense
                        ==> ls[x].dense_params is Some),
                forall|x: int|
                    0 <= x < ls.len() ==> ((#[trigger] ls[x]).layer_type != LayerType::Dense
                        ==> ls[x].conv_params is Some),
                conv_weights@.len() == spatial_count(ls.take(i as int)),
                dense_weights@.len() == dense_count(ls.take(i as int)),
                forall|n: int|
                    0 <= n < i && (#[trigger] ls[n]).layer_type == LayerType::Dense
                        ==> crate::tensor::mat_view(dense_weights@[dense_count(ls.take(n))])
                        == crate::tensor::mat_view(ls[n].dense_params->0.weights),
                forall|n: int|
                    0 <= n < i && (#[trigger] ls[n]).layer_type != LayerType::Dense
                        ==> crate::tensor::ten_view(conv_weights@[spatial_count(ls.take(n))])
                        == crate::tensor::ten_view(ls[n].conv_params->0.weights),
            decreases ls.len() - i,
        {
            proof {
                lemma_count_step(ls, i as int, i as int + 1);
            }
            if self.layers[i].layer_type == LayerType::Dense {
                dense_weights.push(self.layers[i].get_dense_weights());
                proof {
                    assert forall|n: int|
                        0 <= n < i && (#[trigger] ls[n]).layer_type
                            == LayerType::Dense implies crate::tensor::mat_view(
                        dense_weights@[dense_count(ls.take(n))],
                    ) == crate::tensor::mat_view(ls[n].dense_params->0.weights) by {
                        lemma_count_step(ls, n, i as int);
                    }
                }
            } else {
                conv_weights.push(self.layers[i].get_conv_weights());
                proof {
                    assert forall|n: int|
                        0 <= n < i && (#[trigger] ls[n]).layer_type
                            != LayerType::Dense implies crate::tensor::ten_view(
                        conv_weights@[spatial_count(ls.take(n))],
                    ) == crate::tensor::ten_view(ls[n].conv_params->0.weights) by {
                        lemma_count_step(ls, n, i as int);
                    }
                }
            }
            i = i + 1;
        }
        proof {
            assert(ls.take(ls.len() as int) =~= ls);
        }
        (conv_weights, dense_weights)
    }

    /// Copies of every layer's biases: the spatial layers' shared scalars
    /// first (in layer order), the dense layers' vectors second (in layer
    /// order).
    #[verifier::rlimit(100)]
    pub fn get_biases(&self) -> (r: (Vec<u64>, Vec<Vec<u64>>))
        requires
            forall|i: int|
                0 <= i < self.layers@.len() ==> ((#[trigger] self.layers@[i]).layer_type
                    == LayerType::Dense ==> self.layers@[i].dense_params is Some),
            forall|i: int|
                0 <= i < self.layers@.len() ==> ((#[trigger] self.layers@[i]).layer_type
                    != LayerType::Dense ==> self.layers@[i].conv_params is Some),
        ensures
            r.0@.len() == spatial_count(self.layers@),
            r.1@.len() == dense_count(self.layers@),
            forall|n: int|
                0 <= n < self.layers@.len() && (#[trigger] self.layers@[n]).layer_type
                    == LayerType::Dense ==> (r.1@[dense_count(self.layers@.take(n))])@
                    == self.layers@[n].dense_params->0.biases@,
            forall|n: int|
                0 <= n < self.layers@.len() && (#[trigger] self.layers@[n]).layer_type
                    != LayerType::Dense ==> r.0@[spatial_count(self.layers@.take(n))]
                    == self.layers@[n].conv_params->0.bias,
    {
        let ghost ls = self.layers@;
        let mut dense_biases: Vec<Vec<u64>> = Vec::new();
        let mut conv_biases: Vec<u64> = Vec::new();
        let mut i: usize = 0;
        while i < self.layers.len()
            invariant
                i <= ls.len(),
                ls == self.layers@,
                forall|x: int|
                    0 <= x < ls.len() ==> ((#[trigger] ls[x]).layer_type == LayerType::Dense
                        ==> ls[x].dense_params is Some),
                forall|x: int|
                    0 <= x < ls.len() ==> ((#[trigger] ls[x]).layer_type != LayerType::Dense
                        ==> ls[x].conv_params is Some),
                conv_biases@.len() == spatial_count(ls.take(i as int)),
                dense_biases@.len() == dense_count(ls.take(i as int)),
                forall|n: int|
                    0 <= n < i && (#[trigger] ls[n]).layer_type == LayerType::Dense ==> (
                    dense_biases@[dense_count(ls.take(n))])@ == ls[n].dense_params->0.biases@,
                forall|n: int|
                    0 <= n < i && (#[trigger] ls[n]).layer_type != LayerType::Dense
                        ==> conv_biases@[spatial_count(ls.take(n))]
                        == ls[n].conv_params->0.bias,
            decreases ls.len() - i,
        {
            proof {
                lemma_count_step(ls, i as int, i as int + 1);
            }
            if self.layers[i].layer_type == LayerType::Dense {
                dense_biases.push(self.layers[i].get_dense_biases());
                proof {
                    assert forall|n: int|
                        0 <= n < i && (#[trigger] ls[n]).layer_type == LayerType::Dense implies (
                    dense_biases@[dense_count(ls.take(n))])@ == ls[n].dense_params->0.biases@ by {
                        lemma_count_step(ls, n, i as int);
                    }
                }
            } else {
                conv_biases.push(self.layers[i].get_conv_biases());
                proof {
                    assert forall|n: int|
                        0 <= n < i && (#[trigger] ls[n]).layer_type
                            != LayerType::Dense implies conv_biases@[spatial_count(ls.take(n))]
                        == ls[n].conv_params->0.bias by {
                        lemma_count_step(ls, n, i as int);
                    }
                }
            }
            i = i + 1;
        }
        proof {
            assert(ls.take(ls.len() as int) =~= ls);
        }
        (conv_biases, dense_biases)
    }

    /// Copies of the cached outputs of the leading spatial layers: one
    /// tensor per layer before the first dense layer.
    pub fn get_conv_outputs(&self) -> (r: Vec<Vec<Vec<Vec<u64>>>>)
        requires
            forall|i: int|
                0 <= i < self.layers@.len() ==> ((#[trigger] self.layers@[i]).layer_type
                    != LayerType::Dense ==> self.layers@[i].conv_params is Some),
        ensures
            r@.len() <= self.layers@.len(),
            r@.len() < self.layers@.len() ==> self.layers@[r@.len() as int].layer_type
                == LayerType::Dense,
            forall|n: int|
                0 <= n < r@.len() ==> (#[trigger] self.layers@[n]).layer_type != LayerType::Dense,
            forall|n: int|
                0 <= n < r@.len() ==> crate::tensor::ten_view(#[trigger] r@[n])
                    == crate::tensor::ten_view(self.layers@[n].conv_params->0.outputs),
    {
        let mut outputs: Vec<Vec<Vec<Vec<u64>>>> = Vec::new();
        let mut i: usize = 0;
        while i < self.layers.len()
            invariant
                i <= self.layers@.len(),
                outputs@.len() == i,
                forall|x: int|
                    0 <= x < self.layers@.len() ==> ((#[trigger] self.layers@[x]).layer_type
                        != LayerType::Dense ==> self.layers@[x].conv_params is Some),
                forall|n: int|
                    0 <= n < i ==> (#[trigger] self.layers@[n]).layer_type != LayerType::Dense,
                forall|n: int|
                    0 <= n < i ==> crate::tensor::ten_view(#[trigger] outputs@[n])
                        == crate::tensor::ten_view(self.layers@[n].conv_params->0.outputs),
            decreases self.layers@.len() - i,
        {
            if self.layers[i].layer_type == LayerType::Dense {
                return outputs;
            }
            outputs.push(self.layers[i].get_conv_outputs());
            i = i + 1;
        }
        outputs
    }

    /// The widths the data takes on its way through the stack: for every
    /// layer but the convolutional ones its input width (zero for pooling
    /// layers), and last the output width of the final layer.
    #[verifier::rlimit(100)]
    pub fn get_nodes(&self) -> (r: Vec<usize>)
        requires
            self.layers@.len() >= 1,
            forall|i: int|
                0 <= i < self.layers@.len() ==> ((#[trigger] self.layers@[i]).layer_type
                    == LayerType::Dense ==> self.layers@[i].dense_params is Some),
        ensures
            r@.len() == nonconv_count(self.layers@) + 1,
            forall|n: int|
                0 <= n < self.layers@.len() && (#[trigger] self.layers@[n]).layer_type
                    != LayerType::Convolutional ==> r@[nonconv_count(self.layers@.take(n))] == (
                if self.layers@[n].layer_type == LayerType::Dense {
                    self.layers@[n].dense_params->0.nodes_in
                } else {
                    0
                }),
            r@.last() == (if self.layers@.last().layer_type == LayerType::Dense {
                self.layers@.last().dense_params->0.nodes_out
            } else {
                0
            }),
    {
        let ghost ls = self.layers@;
        let mut nodes: Vec<usize> = Vec::new();
        let mut i: usize = 0;
        while i < self.layers.len()
            invariant
                i <= ls.len(),
                ls == self.layers@,
                forall|x: int|
                    0 <= x < ls.len() ==> ((#[trigger] ls[x]).layer_type == LayerType::Dense
                        ==> ls[x].dense_params is Some),
                nodes@.len() == nonconv_count(ls.take(i as int)),
                forall|n: int|
                    0 <= n < i && (#[trigger] ls[n]).layer_type != LayerType::Convolutional
                        ==> nodes@[nonconv_count(ls.take(n))] == (if ls[n].layer_type
                        == LayerType::Dense {
                        ls[n].dense_params->0.nodes_in
                    } else {
                        0
                    }),
            decreases ls.len() - i,
        {
            proof {
                lemma_count_step(ls, i as int, i as int + 1);
            }
            if self.layers[i].layer_type != LayerType::Convolutional {
                nodes.push(self.layers[i].get_input_nodes());
                proof {
                    assert forall|n: int|
                        0 <= n < i && (#[trigger] ls[n]).layer_type
                            != LayerType::Convolutional implies nodes@[nonconv_count(ls.take(n))]
                        == (if ls[n].layer_type == LayerType::Dense {
                        ls[n].dense_params->0.nodes_in
                    } else {
                        0
                    }) by {
                        lemma_count_step(ls, n, i as int);
                    }
                }
            }
            i = i + 1;
        }
        proof {
            assert(ls.take(ls.len() as int) =~= ls);
        }
        nodes.push(self.layers[self.layers.len() - 1].get_nodes());
        proof {
            assert forall|n: int|
                0 <= n < ls.len() && (#[trigger] ls[n]).layer_type
                    != LayerType::Convolutional implies nodes@[nonconv_count(ls.take(n))] == (
            if ls[n].layer_type == LayerType::Dense {
                ls[n].dense_params->0.nodes_in
            } else {
                0
            }) by {
                lemma_count_step(ls, n, ls.len() as int);
                assert(ls.take(ls.len() as int) =~= ls);
            }
        }
        nodes
    }

    /// Puts the dense training samples in a fresh uniformly random order.
    /// Relies on rand's `SliceRandom::shuffle`, a Fisher-Yates pass of
    /// swaps: the vector afterwards holds exactly the same samples.
    #[verifier::external_body]
    pub fn shuffle_vector(vec: &mut Vec<[Vec<u64>; 2]>)
        ensures
            final(vec)@.len() == old(vec)@.len(),
            final(vec)@.to_multiset() == old(vec)@.to_multiset(),
    {
        let mut rng = rand::thread_rng();
        vec.shuffle(&mut rng);
    }

    /// Puts the spatial training samples in a fresh uniformly random
    /// order. Relies on rand's `SliceRandom::shuffle`, a Fisher-Yates
    /// pass of swaps: the vector afterwards holds exactly the same
    /// samples.
    #[verifier::external_body]
    pub fn shuffle_tensor(vec: &mut Vec<(Vec<Vec<Vec<u64>>>, Vec<u64>)>)
        ensures
            final(vec)@.len() == old(vec)@.len(),
            final(vec)@.to_multiset() == old(vec)@.to_multiset(),
    {
        let mut rng = rand::thread_rng();
        vec.shuffle(&mut rng);
    }
}

/// One channel's block advances the flat index by one channel's cells.
proof fn lemma_channel_step(i: int, rows: int, cols: int) by (nonlinear_arith)
    requires
        0 <= i,
        0 <= rows,
        0 <= cols,
    ensures
        (i + 1) * rows * cols == i * rows * cols + rows * cols,
{
}

/// Bounds of one row's block in the flattened vector.
proof fn lemma_flat_row(i: int, j: int, ch: int, rows: int, cols: int) by (nonlinear_arith)
    requires
        0 <= i < ch,
        0 <= j < rows,
        0 <= cols,
    ensures
        (i * rows + j) * cols >= 0,
        (i * rows + j) * cols + cols <= ch * rows * cols,
        (i * rows + j) * cols == i * rows * cols + j * cols,
        i * rows * cols + j * cols + cols <= i * rows * cols + rows * cols,
        (j + 1) * cols == j * cols + cols,
{
}

} // verus!
