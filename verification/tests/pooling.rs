use sprout::layer::Layer;

fn mat(rows: &[&[f64]]) -> Vec<Vec<u64>> {
    rows.iter().map(|r| r.iter().map(|x| x.to_bits()).collect()).collect()
}

fn one_channel(rows: &[&[f64]]) -> Vec<Vec<Vec<u64>>> {
    vec![mat(rows)]
}

fn as_f64(m: &Vec<Vec<u64>>) -> Vec<Vec<f64>> {
    m.iter().map(|r| r.iter().map(|&b| f64::from_bits(b)).collect()).collect()
}

#[test]
fn pool_forward_takes_each_window_maximum() {
    let mut layer = Layer::pool(2, 2);
    let input = one_channel(&[
        &[1.0, 2.0, 0.5, -1.0],
        &[3.5, -0.0, 7.25, 7.25],
        &[-2.0, -8.0, 0.0, 0.25],
        &[4.0, 4.0, 0.125, -0.5],
    ]);
    let out = layer.pool_forward(input);
    assert_eq!(out.len(), 1);
    assert_eq!(as_f64(&out[0]), vec![vec![3.5, 7.25], vec![4.0, 0.25]]);
}

#[test]
fn pool_forward_keeps_first_negative_zero_of_a_zero_tie() {
    let mut layer = Layer::pool(2, 2);
    let input = one_channel(&[&[-0.0, 0.0], &[-1.0, -2.0]]);
    let out = layer.pool_forward(input);
    // -0.0 is seen first and +0.0 is not strictly greater, so the sign
    // bit of the first zero survives.
    assert_eq!(out[0][0][0], (-0.0f64).to_bits());
}

#[test]
fn pool_backward_routes_every_error_to_its_window_maximum() {
    let mut layer = Layer::pool(2, 2);
    let input = one_channel(&[
        &[1.0, 2.0, 0.5, -1.0],
        &[3.5, -0.0, 7.25, 7.25],
        &[-2.0, -8.0, 0.0, 0.25],
        &[4.0, 4.0, 0.125, -0.5],
    ]);
    let _ = layer.pool_forward(input);
    let errors = one_channel(&[&[10.0, 20.0], &[30.0, 40.0]]);
    let next = layer.pool_backward(errors);
    // Each window's whole error sits on the cell that held the window's
    // maximum; ties go to the first cell scanned; all else is zero.
    let expected = vec![
        vec![0.0, 0.0, 0.0, 0.0],
        vec![10.0, 0.0, 20.0, 0.0],
        vec![0.0, 0.0, 0.0, 40.0],
        vec![30.0, 0.0, 0.0, 0.0],
    ];
    assert_eq!(as_f64(&next[0]), expected);
}

#[test]
fn pool_backward_leaves_the_layer_untouched() {
    let mut layer = Layer::pool(2, 2);
    let input = one_channel(&[&[1.0, 2.0], &[3.0, 4.0]]);
    let _ = layer.pool_forward(input.clone());
    let outputs_before = layer.get_conv_outputs();
    let _ = layer.pool_backward(one_channel(&[&[5.0]]));
    assert_eq!(layer.get_conv_outputs(), outputs_before);
}

#[test]
fn pool_forward_caches_inputs_and_outputs() {
    let mut layer = Layer::pool(2, 2);
    let input = one_channel(&[&[1.0, 2.0], &[3.0, 4.0]]);
    let out = layer.pool_forward(input.clone());
    assert_eq!(as_f64(&out[0]), vec![vec![4.0]]);
    assert_eq!(layer.get_conv_outputs(), out);
    match &layer.conv_params {
        Some(p) => {
            assert_eq!(p.inputs, input);
            assert_eq!(p.data, input);
        }
        None => panic!("pooling layer lost its params"),
    }
}

#[test]
fn pool_forward_all_nan_window_reports_negative_infinity() {
    let mut layer = Layer::pool(2, 2);
    let input = one_channel(&[&[f64::NAN, f64::NAN], &[f64::NAN, f64::NAN]]);
    let out = layer.pool_forward(input);
    // NaN never compares greater, so the seed of the running maximum
    // survives the scan.
    assert_eq!(out[0][0][0], f64::NEG_INFINITY.to_bits());
}

#[test]
fn rotate180_reverses_rows_and_columns() {
    let m = mat(&[&[1.0, 2.0, 3.0], &[4.0, 5.0, 6.0]]);
    let r = Layer::rotate180(&m);
    assert_eq!(as_f64(&r), vec![vec![6.0, 5.0, 4.0], vec![3.0, 2.0, 1.0]]);
    let twice = Layer::rotate180(&r);
    assert_eq!(twice, m);
}

#[test]
fn add_padding_matrix_centres_in_zeros() {
    let m = mat(&[&[1.0, 2.0], &[3.0, 4.0]]);
    let r = Layer::add_padding_matrix(2, &m);
    assert_eq!(r.len(), 6);
    for row in &r {
        assert_eq!(row.len(), 6);
    }
    assert_eq!(as_f64(&r)[2][2..4], [1.0, 2.0]);
    assert_eq!(as_f64(&r)[3][2..4], [3.0, 4.0]);
    let zeros: f64 = as_f64(&r)
        .iter()
        .enumerate()
        .flat_map(|(i, row)| row.iter().enumerate().map(move |(j, &v)| (i, j, v)))
        .filter(|&(i, j, _)| !(2..4).contains(&i) || !(2..4).contains(&j))
        .map(|(_, _, v)| v.abs())
        .sum();
    assert_eq!(zeros, 0.0);
}
