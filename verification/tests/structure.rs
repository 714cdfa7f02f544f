use sprout::activation::{Activation, ActivationFunction};
use sprout::conv_params::{ConvParams, PaddingType};
use sprout::dense_params::DenseParams;
use sprout::layer::{Layer, LayerType};
use sprout::convolution_params;
use sprout::layer_builder::LayerBuilder;
use sprout::loss_function::{LossFunction, LossType};
use sprout::network::{Network, NetworkType};

fn mat(rows: &[&[f64]]) -> Vec<Vec<u64>> {
    rows.iter().map(|r| r.iter().map(|x| x.to_bits()).collect()).collect()
}

fn as_f64(m: &Vec<Vec<u64>>) -> Vec<Vec<f64>> {
    m.iter().map(|r| r.iter().map(|&b| f64::from_bits(b)).collect()).collect()
}

#[test]
fn activation_carries_its_kind() {
    let a = Activation::new(ActivationFunction::TanH);
    assert_eq!(a.function, ActivationFunction::TanH);
    assert!(a.uses_elementwise_derivative());
    let s = Activation::new(ActivationFunction::SoftMax);
    assert!(!s.uses_elementwise_derivative());
}

#[test]
fn loss_function_carries_its_kind() {
    let l = LossFunction::new(LossType::CEL);
    assert_eq!(l.loss_type, LossType::CEL);
}

#[test]
fn dense_params_start_zeroed_with_the_given_shape() {
    let p = DenseParams::new(3, 2);
    assert_eq!(p.nodes_in, 3);
    assert_eq!(p.nodes_out, 2);
    assert_eq!(p.weights, vec![vec![0u64; 2]; 3]);
    assert_eq!(p.biases, vec![0u64; 2]);
    assert!(p.inputs.is_empty());
    assert!(p.outputs.is_empty());
}

#[test]
fn dense_init_places_draws_row_major_and_zeroes_biases() {
    let mut p = DenseParams::new(2, 3);
    p.biases = vec![9u64, 9u64, 9u64];
    let draws: Vec<u64> = vec![
        1.0f64.to_bits(),
        2.0f64.to_bits(),
        3.0f64.to_bits(),
        4.0f64.to_bits(),
        5.0f64.to_bits(),
        6.0f64.to_bits(),
    ];
    p.init(&draws);
    assert_eq!(
        as_f64(&p.weights),
        vec![vec![1.0, 2.0, 3.0], vec![4.0, 5.0, 6.0]]
    );
    assert_eq!(p.biases, vec![0u64; 3]);
}

#[test]
fn conv_init_places_draws_once_and_only_once() {
    let mut p = ConvParams::new(2, PaddingType::Valid, 1);
    p.inputs = vec![mat(&[&[1.0, 2.0, 3.0], &[4.0, 5.0, 6.0], &[7.0, 8.0, 9.0]])];
    p.add_padding();
    let draws: Vec<u64> = (1..=4).map(|i| (i as f64).to_bits()).collect();
    p.init(&draws);
    assert_eq!(as_f64(&p.weights[0]), vec![vec![1.0, 2.0], vec![3.0, 4.0]]);
    assert_eq!(p.bias, 0u64);
    // a second pass is a no-op: weights are placed once and then kept
    let other: Vec<u64> = (5..=8).map(|i| (i as f64).to_bits()).collect();
    p.init(&other);
    assert_eq!(as_f64(&p.weights[0]), vec![vec![1.0, 2.0], vec![3.0, 4.0]]);
}

#[test]
fn output_dims_follow_the_padding_mode() {
    // for a 6x6 input and a 3x3 kernel at stride 1:
    // Valid gives 4x4, Same keeps 6x6, Full gives 8x8
    let six = mat(&[
        &[0.0; 6], &[0.0; 6], &[0.0; 6], &[0.0; 6], &[0.0; 6], &[0.0; 6],
    ]);
    for (ptype, expect) in [
        (PaddingType::Valid, [4usize, 4usize]),
        (PaddingType::Same, [6, 6]),
        (PaddingType::Full, [8, 8]),
    ] {
        let mut p = ConvParams::new(3, ptype, 1);
        p.inputs = vec![six.clone()];
        p.add_padding();
        assert_eq!(p.get_output_dims(), expect);
    }
}

#[test]
fn conv_identity_shape_survives_same_padding() {
    // a 3x3 plus pattern under Same padding and stride 1 keeps its
    // spatial dimensions
    let plus = mat(&[&[0.0, 1.0, 0.0], &[1.0, 1.0, 1.0], &[0.0, 1.0, 0.0]]);
    let mut p = ConvParams::new(3, PaddingType::Same, 1);
    p.inputs = vec![plus];
    p.add_padding();
    assert_eq!(p.padding, 1);
    assert_eq!(p.get_output_dims(), [3, 3]);
}

#[test]
fn add_padding_centres_each_channel() {
    let mut p = ConvParams::new(3, PaddingType::Full, 1);
    p.inputs = vec![mat(&[&[1.0, 2.0], &[3.0, 4.0]])];
    p.add_padding();
    assert_eq!(p.padding, 2);
    assert_eq!(p.data[0].len(), 6);
    assert_eq!(p.data[0][0].len(), 6);
    assert_eq!(f64::from_bits(p.data[0][2][2]), 1.0);
    assert_eq!(f64::from_bits(p.data[0][3][3]), 4.0);
    assert_eq!(f64::from_bits(p.data[0][0][0]), 0.0);
    assert_eq!(f64::from_bits(p.data[0][5][5]), 0.0);
}

#[test]
fn layer_constructors_tag_and_fill_their_variant() {
    let d = Layer::dense([2, 3], ActivationFunction::Sigmoid);
    assert_eq!(d.get_layer_type(), LayerType::Dense);
    assert_eq!(d.get_input_nodes(), 2);
    assert_eq!(d.get_nodes(), 3);
    assert!(d.conv_params.is_none());

    let c = Layer::conv(3, PaddingType::Same, 1, ActivationFunction::ReLU);
    assert_eq!(c.get_layer_type(), LayerType::Convolutional);
    assert_eq!(c.get_nodes(), 0);
    assert!(c.dense_params.is_none());

    let p = Layer::pool(2, 2);
    assert_eq!(p.get_layer_type(), LayerType::Pooling);
    assert_eq!(p.activation.function, ActivationFunction::ReLU);
}

#[test]
fn set_params_overwrites_dense_state() {
    let mut d = Layer::dense([2, 2], ActivationFunction::Sigmoid);
    let w = mat(&[&[1.0, 2.0], &[3.0, 4.0]]);
    let b: Vec<u64> = vec![5.0f64.to_bits(), 6.0f64.to_bits()];
    d.set_params(w.clone(), b.clone());
    assert_eq!(d.get_dense_weights(), w);
    assert_eq!(d.get_dense_biases(), b);
}

#[test]
fn reset_clears_caches_and_keeps_weights() {
    let mut d = Layer::dense([2, 2], ActivationFunction::Sigmoid);
    let w = mat(&[&[1.0, 2.0], &[3.0, 4.0]]);
    d.set_params(w.clone(), vec![0u64, 0u64]);
    d.reset();
    assert_eq!(d.get_dense_weights(), w);
    match &d.dense_params {
        Some(p) => {
            assert!(p.inputs.is_empty());
            assert!(p.outputs.is_empty());
        }
        None => panic!("dense layer lost its params"),
    }
}

#[test]
fn network_detects_its_kind_and_sets_defaults() {
    let fcn = Network::new(
        vec![Layer::dense([2, 1], ActivationFunction::Sigmoid)],
        0.5f64.to_bits(),
        1,
        LossType::MSE,
    );
    assert_eq!(fcn.network_type, NetworkType::FCN);
    assert_eq!(fcn.learning_rate, 0.5f64.to_bits());
    assert_eq!(fcn.batch_size, 1);
    assert_eq!(fcn.cost, 0.0f64.to_bits());
    assert_eq!(fcn.grad_threshold, 0.2f64.to_bits());
    assert_eq!(fcn.loss_function.loss_type, LossType::MSE);
    assert!(!fcn.print_progress);

    let cnn = Network::new(
        vec![Layer::pool(2, 2), Layer::dense([1, 1], ActivationFunction::Sigmoid)],
        0.5f64.to_bits(),
        1,
        LossType::CEL,
    );
    assert_eq!(cnn.network_type, NetworkType::CNN);
}

#[test]
fn flatten_walks_channels_then_rows_then_columns() {
    let t = vec![
        mat(&[&[1.0, 2.0], &[3.0, 4.0]]),
        mat(&[&[5.0, 6.0], &[7.0, 8.0]]),
    ];
    let flat = Network::flatten(&t);
    let vals: Vec<f64> = flat.iter().map(|&b| f64::from_bits(b)).collect();
    assert_eq!(vals, vec![1.0, 2.0, 3.0, 4.0, 5.0, 6.0, 7.0, 8.0]);
}

#[test]
fn reshape_splits_the_flat_vector_channel_by_channel() {
    let flat: Vec<u64> = (1..=8).map(|i| (i as f64).to_bits()).collect();
    let t = Network::reshape(flat, 2, 2, 2);
    assert_eq!(as_f64(&t[0]), vec![vec![1.0, 2.0], vec![3.0, 4.0]]);
    assert_eq!(as_f64(&t[1]), vec![vec![5.0, 6.0], vec![7.0, 8.0]]);
}

#[test]
fn reshape_inverts_flatten_on_the_cached_shape() {
    let t = vec![
        mat(&[&[1.0, 2.0, 3.0], &[4.0, 5.0, 6.0]]),
        mat(&[&[-1.0, 0.5, 0.0], &[7.0, 8.0, 9.0]]),
    ];
    let flat = Network::flatten(&t);
    let back = Network::reshape(flat, 2, 2, 3);
    assert_eq!(back, t);
}

#[test]
fn true_index_finds_the_first_one_hot_entry() {
    let target: Vec<u64> = [0.0f64, 1.0, 1.0].iter().map(|x| x.to_bits()).collect();
    assert_eq!(Network::true_index(&target), 1);
    let none: Vec<u64> = [0.0f64, 0.5].iter().map(|x| x.to_bits()).collect();
    assert_eq!(Network::true_index(&none), 0);
    let empty: Vec<u64> = vec![];
    assert_eq!(Network::true_index(&empty), 0);
}

#[test]
fn batch_arithmetic_matches_the_training_walk() {
    assert_eq!(Network::batch_count(10, 3), 4);
    assert_eq!(Network::batch_count(9, 3), 3);
    assert_eq!(Network::batch_count(1, 4), 1);
    // the batch that reaches the end takes what remains
    assert_eq!(Network::batch_span(10, 3, 0), 3);
    assert_eq!(Network::batch_span(10, 3, 3), 1);
    // unless the batch size is one, which always takes one
    assert_eq!(Network::batch_span(4, 1, 3), 1);
    // a full final batch still counts as reaching the end
    assert_eq!(Network::batch_span(9, 3, 2), 3);
}

#[test]
fn shuffle_vector_keeps_exactly_the_same_samples() {
    let mut data: Vec<[Vec<u64>; 2]> = (0..16)
        .map(|i| [vec![(i as f64).to_bits()], vec![((i * i) as f64).to_bits()]])
        .collect();
    let before = data.clone();
    Network::shuffle_vector(&mut data);
    assert_eq!(data.len(), before.len());
    let mut sorted = data.clone();
    sorted.sort();
    let mut expected = before.clone();
    expected.sort();
    assert_eq!(sorted, expected);
}

#[test]
fn shuffle_tensor_keeps_exactly_the_same_samples() {
    let mut data: Vec<(Vec<Vec<Vec<u64>>>, Vec<u64>)> = (0..12)
        .map(|i| {
            (
                vec![mat(&[&[i as f64, 1.0], &[2.0, 3.0]])],
                vec![(i as f64).to_bits()],
            )
        })
        .collect();
    let before = data.clone();
    Network::shuffle_tensor(&mut data);
    let mut sorted = data.clone();
    sorted.sort();
    let mut expected = before;
    expected.sort();
    assert_eq!(sorted, expected);
}

#[test]
fn weight_and_bias_walks_split_spatial_from_dense() {
    let mut d = Layer::dense([2, 2], ActivationFunction::Sigmoid);
    let w = mat(&[&[1.0, 2.0], &[3.0, 4.0]]);
    d.set_params(w.clone(), vec![0u64, 0u64]);
    let net = Network::new(
        vec![Layer::pool(2, 2), d],
        0.5f64.to_bits(),
        1,
        LossType::MSE,
    );
    let (conv_w, dense_w) = net.get_weights();
    assert_eq!(conv_w.len(), 1);
    assert_eq!(dense_w.len(), 1);
    assert_eq!(dense_w[0], w);
    let (conv_b, dense_b) = net.get_biases();
    assert_eq!(conv_b, vec![0u64]);
    assert_eq!(dense_b, vec![vec![0u64, 0u64]]);
}

#[test]
fn node_walk_skips_convolutional_layers() {
    let net = Network::new(
        vec![
            Layer::conv(3, PaddingType::Valid, 1, ActivationFunction::ReLU),
            Layer::pool(2, 2),
            Layer::dense([4, 3], ActivationFunction::Sigmoid),
        ],
        0.5f64.to_bits(),
        1,
        LossType::MSE,
    );
    // pooling contributes a zero, the dense layer its input width, and
    // the last entry is the final layer's output width
    assert_eq!(net.get_nodes(), vec![0, 4, 3]);
}

#[test]
fn builder_records_settings_and_assembles_nothing() {
    let mut b = LayerBuilder::new();
    b.set_kernels(vec![3, 2]);
    b.set_paddings(vec![
        convolution_params::PaddingType::Same,
        convolution_params::PaddingType::Valid,
    ]);
    b.set_strides(vec![1, 2]);
    b.set_activations(vec![ActivationFunction::ReLU, ActivationFunction::Sigmoid]);
    b.set_cn_layers(2);
    b.set_img([6, 6]);
    b.set_dense_layers(vec![4, 3]);
    assert_eq!(b.kernels, vec![3, 2]);
    assert_eq!(b.paddings.len(), 2);
    assert_eq!(b.cn_layers, 2);
    assert_eq!(b.dense_layers, vec![4, 3]);
    assert!(b.cnn().is_empty());
}

#[test]
fn planar_conv_params_place_draws_and_pad() {
    let draws: Vec<u64> = (1..=9).map(|i| (i as f64).to_bits()).collect();
    let mut p = convolution_params::ConvParams::new(
        3,
        convolution_params::PaddingType::Same,
        1,
        &draws,
        0.125f64.to_bits(),
    );
    assert_eq!(
        as_f64(&p.weights),
        vec![vec![1.0, 2.0, 3.0], vec![4.0, 5.0, 6.0], vec![7.0, 8.0, 9.0]]
    );
    assert_eq!(f64::from_bits(p.bias), 0.125);
    p.inputs = mat(&[&[1.0, 2.0], &[3.0, 4.0]]);
    p.add_padding();
    assert_eq!(p.padding, 1);
    assert_eq!(p.data.len(), 4);
    assert_eq!(f64::from_bits(p.data[1][1]), 1.0);
    // the slide here always steps one cell at a time
    assert_eq!(p.get_output_dims(), [2, 2]);
}

#[test]
fn planar_valid_padding_leaves_the_state_alone() {
    let draws: Vec<u64> = vec![1.0f64.to_bits()];
    let mut p = convolution_params::ConvParams::new(
        1,
        convolution_params::PaddingType::Valid,
        1,
        &draws,
        0u64,
    );
    p.inputs = mat(&[&[5.0]]);
    p.add_padding();
    // Valid leaves even `data` untouched here: the caller slides over the
    // input it set
    assert!(p.data.is_empty());
    assert_eq!(p.padding, 0);
}

#[test]
fn network_reset_zeroes_cost_and_clears_caches() {
    let mut net = Network::new(
        vec![Layer::pool(2, 2), Layer::dense([1, 1], ActivationFunction::Sigmoid)],
        0.5f64.to_bits(),
        1,
        LossType::MSE,
    );
    net.cost = 3.5f64.to_bits();
    net.layers[1].dense_params.as_mut().unwrap().inputs = vec![1u64];
    net.reset();
    assert_eq!(net.cost, 0.0f64.to_bits());
    assert!(net.layers[1].dense_params.as_ref().unwrap().inputs.is_empty());
}

#[test]
fn conv_output_walk_stops_at_the_first_dense_layer() {
    let mut pool = Layer::pool(2, 2);
    let input = vec![mat(&[&[1.0, 2.0], &[3.0, 4.0]])];
    let _ = pool.pool_forward(input);
    let expected = pool.get_conv_outputs();
    let net = Network::new(
        vec![pool, Layer::dense([1, 1], ActivationFunction::Sigmoid)],
        0.5f64.to_bits(),
        1,
        LossType::MSE,
    );
    let outs = net.get_conv_outputs();
    assert_eq!(outs.len(), 1);
    assert_eq!(outs[0], expected);
}

#[test]
fn reset_drops_spatial_kernels_for_fresh_draws() {
    let mut p = Layer::pool(2, 2);
    let input = vec![mat(&[&[1.0, 2.0], &[3.0, 4.0]])];
    let _ = p.pool_forward(input);
    if let Some(params) = p.conv_params.as_mut() {
        params.weights = vec![mat(&[&[1.0, 2.0], &[3.0, 4.0]])];
    }
    p.reset();
    match &p.conv_params {
        Some(params) => {
            assert!(params.weights.is_empty());
            assert!(params.inputs.is_empty());
            assert!(params.outputs.is_empty());
        }
        None => panic!("pooling layer lost its params"),
    }
}

#[test]
fn overlapping_pool_windows_route_last_writer_wins() {
    // kernel 2, stride 1 over a 3x3 image whose centre dominates: all
    // four windows report the centre cell, so the last window's error is
    // what it keeps
    let mut layer = Layer::pool(2, 1);
    let input = vec![mat(&[&[1.0, 1.0, 1.0], &[1.0, 9.0, 1.0], &[1.0, 1.0, 1.0]])];
    let _ = layer.pool_forward(input);
    let errors = vec![mat(&[&[10.0, 20.0], &[30.0, 40.0]])];
    let next = layer.pool_backward(errors);
    let expected = vec![
        vec![0.0, 0.0, 0.0],
        vec![0.0, 40.0, 0.0],
        vec![0.0, 0.0, 0.0],
    ];
    let got: Vec<Vec<f64>> = next[0]
        .iter()
        .map(|r| r.iter().map(|&b| f64::from_bits(b)).collect())
        .collect();
    assert_eq!(got, expected);
}
