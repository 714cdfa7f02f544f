//! Max-pooling over channelled tensors: the sliding window maximum, where
//! in its window the maximum sits, and the backward routing that hands an
//! incoming error map back to exactly the winning cells.
//!
//! A window scan reads its cells row-major and keeps the first strictly
//! greater value (under the bit-pattern ordering of doubles), seeded with
//! negative infinity and with the window's anchor as the seed position.

use vstd::prelude::*;

use crate::scalar::{fp_gt, gt_bits, NEG_INFINITY_BITS};
use crate::tensor::{mat_dims, ten_dims, zero_matrix, zero_row};

verus! {

/// One scan step: the candidate at `(r, c)` replaces the best seen only
/// when it is strictly greater.
pub open spec fn scan_step(acc: (u64, int, int), v: u64, r: int, c: int) -> (u64, int, int) {
    if fp_gt(v, acc.0) {
        (v, r, c)
    } else {
        acc
    }
}

/// Scans up to `k` cells of row `r`, starting at column `c0` and stopping
/// at the row's end.
pub open spec fn scan_cols(row: Seq<u64>, r: int, c0: int, k: int, acc: (u64, int, int)) -> (
    u64,
    int,
    int,
)
    decreases k,
{
    if k <= 0 || c0 < 0 || c0 >= row.len() {
        acc
    } else {
        scan_cols(row, r, c0 + 1, k - 1, scan_step(acc, row[c0], r, c0))
    }
}

/// Scans up to `kr` rows from `r0` down, `k` cells each from column `c0`,
/// stopping at the image's lower edge.
pub open spec fn scan_rows(
    m: Seq<Vec<u64>>,
    r0: int,
    c0: int,
    kr: int,
    k: int,
    acc: (u64, int, int),
) -> (u64, int, int)
    decreases kr,
{
    if kr <= 0 || r0 < 0 || r0 >= m.len() {
        acc
    } else {
        scan_rows(m, r0 + 1, c0, kr - 1, k, scan_cols(m[r0]@, r0, c0, k, acc))
    }
}

/// The maximum a `k` by `k` window anchored at `(r0, c0)` reports, and the
/// cell it was found in: the first-encountered strict maximum of the cells
/// inside the image, seeded with negative infinity at the anchor.
pub open spec fn window_argmax(m: Seq<Vec<u64>>, r0: int, c0: int, k: int) -> (u64, int, int) {
    scan_rows(m, r0, c0, k, k, (NEG_INFINITY_BITS, r0, c0))
}

/// Scans the `k` by `k` window anchored at `(r0, c0)` of `m` row-major and
/// returns the first strict maximum and its cell.
pub fn window_scan_max(m: &Vec<Vec<u64>>, r0: usize, c0: usize, k: usize) -> (res: (
    u64,
    usize,
    usize,
))
    requires
        r0 + k <= usize::MAX,
        c0 + k <= usize::MAX,
    ensures
        (res.0, res.1 as int, res.2 as int) == window_argmax(m@, r0 as int, c0 as int, k as int),
        (res.1 == r0 && res.2 == c0) || (res.1 < m@.len() && res.2 < m@[res.1 as int]@.len()),
        r0 <= res.1,
        res.1 == r0 || res.1 < r0 + k,
        c0 <= res.2,
        res.2 == c0 || res.2 < c0 + k,
{
    let ghost goal = window_argmax(m@, r0 as int, c0 as int, k as int);
    let mut best: u64 = NEG_INFINITY_BITS;
    let mut best_r: usize = r0;
    let mut best_c: usize = c0;
    let mut t: usize = 0;
    while t < k && r0 + t < m.len()
        invariant
            t <= k,
            r0 + k <= usize::MAX,
            c0 + k <= usize::MAX,
            scan_rows(
                m@,
                r0 + t,
                c0 as int,
                k - t,
                k as int,
                (best, best_r as int, best_c as int),
            ) == goal,
            (best_r == r0 && best_c == c0) || (best_r < m@.len() && best_c < m@[best_r as int]@.len()),
            r0 <= best_r,
            best_r == r0 || best_r < r0 + k,
            c0 <= best_c,
            best_c == c0 || best_c < c0 + k,
        decreases k - t,
    {
        let row_i = r0 + t;
        let mut u: usize = 0;
        while u < k && c0 + u < m[row_i].len()
            invariant
                u <= k,
                t < k,
                row_i == r0 + t,
                row_i < m@.len(),
                r0 + k <= usize::MAX,
                c0 + k <= usize::MAX,
                scan_rows(
                    m@,
                    r0 + t + 1,
                    c0 as int,
                    k - t - 1,
                    k as int,
                    scan_cols(
                        m@[row_i as int]@,
                        row_i as int,
                        c0 + u,
                        k - u,
                        (best, best_r as int, best_c as int),
                    ),
                ) == goal,
                (best_r == r0 && best_c == c0) || (best_r < m@.len() && best_c < m@[best_r as int]@.len()),
                r0 <= best_r,
                best_r == r0 || best_r < r0 + k,
                c0 <= best_c,
                best_c == c0 || best_c < c0 + k,
            decreases k - u,
        {
            let col_i = c0 + u;
            let val = m[row_i][col_i];
            if gt_bits(val, best) {
                best = val;
                best_r = row_i;
                best_c = col_i;
            }
            u = u + 1;
        }
        t = t + 1;
    }
    (best, best_r, best_c)
}

/// Slides a `kernel` by `kernel` window at `stride` over every channel of
/// `img` and keeps each window's maximum. Output cells whose window guard
/// `j * kernel >= rows` (or `k * kernel >= cols`) trips keep the zero fill,
/// exactly as the sliding loop leaves them.
pub fn max_pool(
    img: &Vec<Vec<Vec<u64>>>,
    kernel: usize,
    stride: usize,
    rows: usize,
    cols: usize,
    out_h: usize,
    out_w: usize,
) -> (out: Vec<Vec<Vec<u64>>>)
    requires
        ten_dims(img@, img@.len() as int, rows as int, cols as int),
        1 <= kernel,
        kernel <= rows,
        kernel <= cols,
        stride >= 1,
        out_h as int == crate::conv_params::out_len(rows as int, kernel as int, stride as int),
        out_w as int == crate::conv_params::out_len(cols as int, kernel as int, stride as int),
        rows as int * kernel as int <= usize::MAX,
        cols as int * kernel as int <= usize::MAX,
    ensures
        ten_dims(out@, img@.len() as int, out_h as int, out_w as int),
        forall|i: int, j: int, k: int|
            0 <= i < img@.len() && 0 <= j < out_h && 0 <= k < out_w
                ==> #[trigger] out@[i]@[j]@[k] == (if j * (kernel as int) < rows && k * (kernel as int) < cols {
                window_argmax(img@[i]@, j * stride as int, k * stride as int, kernel as int).0
            } else {
                0u64
            }),
{
    let ch = img.len();
    let mut out: Vec<Vec<Vec<u64>>> = Vec::new();
    let mut i: usize = 0;
    while i < ch
        invariant
            i <= ch,
            ch == img@.len(),
            ten_dims(img@, ch as int, rows as int, cols as int),
            1 <= kernel <= rows,
            kernel <= cols,
            stride >= 1,
            out_h as int == crate::conv_params::out_len(rows as int, kernel as int, stride as int),
            out_w as int == crate::conv_params::out_len(cols as int, kernel as int, stride as int),
            rows as int * kernel as int <= usize::MAX,
            cols as int * kernel as int <= usize::MAX,
            out@.len() == i,
            forall|x: int| 0 <= x < i ==> mat_dims((#[trigger] out@[x])@, out_h as int, out_w as int),
            forall|x: int, y: int, z: int|
                0 <= x < i && 0 <= y < out_h && 0 <= z < out_w
                    ==> #[trigger] out@[x]@[y]@[z] == (if y * (kernel as int) < rows && z * (kernel as int) < cols {
                    window_argmax(img@[x]@, y * stride as int, z * stride as int, kernel as int).0
                } else {
                    0u64
                }),
        decreases ch - i,
    {
        let mut mat: Vec<Vec<u64>> = Vec::new();
        let mut j: usize = 0;
        while j < out_h
            invariant
                j <= out_h,
                i < ch,
                ch == img@.len(),
                ten_dims(img@, ch as int, rows as int, cols as int),
                1 <= kernel <= rows,
                kernel <= cols,
                stride >= 1,
                out_h as int == crate::conv_params::out_len(
                    rows as int,
                    kernel as int,
                    stride as int,
                ),
                out_w as int == crate::conv_params::out_len(
                    cols as int,
                    kernel as int,
                    stride as int,
                ),
                rows as int * kernel as int <= usize::MAX,
                cols as int * kernel as int <= usize::MAX,
                mat@.len() == j,
                forall|y: int| 0 <= y < j ==> (#[trigger] mat@[y])@.len() == out_w,
                forall|y: int, z: int|
                    0 <= y < j && 0 <= z < out_w ==> #[trigger] mat@[y]@[z] == (if y * (kernel as int) < rows && z * (kernel as int) < cols {
                        window_argmax(
                            img@[i as int]@,
                            y * stride as int,
                            z * stride as int,
                            kernel as int,
                        ).0
                    } else {
                        0u64
                    }),
            decreases out_h - j,
        {
            proof {
                lemma_window_fits(j as int, rows as int, kernel as int, stride as int);
                vstd::arithmetic::mul::lemma_mul_inequality(
                    j as int,
                    rows as int,
                    kernel as int,
                );
                vstd::arithmetic::mul::lemma_mul_nonnegative(j as int, kernel as int);
            }
            if j * kernel >= rows {
                mat.push(zero_row(out_w));
            } else {
                let r0 = j * stride;
                let mut row: Vec<u64> = Vec::new();
                let mut k: usize = 0;
                while k < out_w
                    invariant
                        k <= out_w,
                        i < ch,
                        j < out_h,
                        ch == img@.len(),
                        r0 == j * stride as int,
                        r0 + kernel <= rows,
                        ten_dims(img@, ch as int, rows as int, cols as int),
                        1 <= kernel <= rows,
                        kernel <= cols,
                        stride >= 1,
                        out_w as int == crate::conv_params::out_len(
                            cols as int,
                            kernel as int,
                            stride as int,
                        ),
                        rows as int * kernel as int <= usize::MAX,
                        cols as int * kernel as int <= usize::MAX,
                        j * (kernel as int) < rows,
                        row@.len() == k,
                        forall|z: int|
                            0 <= z < k ==> #[trigger] row@[z] == (if z * (kernel as int) < cols {
                                window_argmax(
                                    img@[i as int]@,
                                    j * stride as int,
                                    z * stride as int,
                                    kernel as int,
                                ).0
                            } else {
                                0u64
                            }),
                    decreases out_w - k,
                {
                    proof {
                        lemma_window_fits(k as int, cols as int, kernel as int, stride as int);
                        vstd::arithmetic::mul::lemma_mul_inequality(
                            k as int,
                            cols as int,
                            kernel as int,
                        );
                        vstd::arithmetic::mul::lemma_mul_nonnegative(k as int, kernel as int);
                    }
                    if k * kernel >= cols {
                        row.push(0u64);
                    } else {
                        let c0 = k * stride;
                        let res = window_scan_max(&img[i], r0, c0, kernel);
                        row.push(res.0);
                    }
                    k = k + 1;
                }
                mat.push(row);
            }
            j = j + 1;
        }
        out.push(mat);
        i = i + 1;
    }
    out
}

/// The window `(j, k)` of the slide over `ch` sends its error to cell
/// `(r, c)`: the scan of the window anchored at `(j*stride, k*stride)`
/// reported its maximum there.
pub open spec fn routes_to(
    ch: Seq<Vec<u64>>,
    stride: int,
    kernel: int,
    j: int,
    k: int,
    r: int,
    c: int,
) -> bool {
    window_argmax(ch, j * stride, k * stride, kernel).1 == r && window_argmax(
        ch,
        j * stride,
        k * stride,
        kernel,
    ).2 == c
}

/// Window `(j2, k2)` comes before the boundary `(jb, kb)` in the row-major
/// order the backward pass walks windows in.
pub open spec fn before_window(j2: int, k2: int, jb: int, kb: int) -> bool {
    j2 < jb || (j2 == jb && k2 < kb)
}

/// The window at slide position `(j, k)` is scanned at all: its anchor
/// lies inside the image. (An anchor past the edge is where the backward
/// walk's break leaves the rest of a row — or all later rows — untouched.)
pub open spec fn window_scanned(j: int, k: int, stride: int, rows: int, cols: int) -> bool {
    j * stride < rows && k * stride < cols
}

/// The error a cell `(r, c)` holds once the backward walk has processed
/// every window before boundary `(jb, kb)` in row-major order: the error
/// of the last such scanned window whose scan reported `(r, c)`, and zero
/// if none did — later windows write over earlier ones where scans
/// collide. A row of windows spans `ec` columns.
pub open spec fn routed_before(
    ch: Seq<Vec<u64>>,
    err: Seq<Vec<u64>>,
    stride: int,
    kernel: int,
    rows: int,
    cols: int,
    ec: int,
    jb: int,
    kb: int,
    r: int,
    c: int,
) -> u64
    decreases jb, kb,
{
    if jb < 0 || kb < 0 {
        0u64
    } else if kb == 0 {
        if jb == 0 {
            0u64
        } else {
            routed_before(ch, err, stride, kernel, rows, cols, ec, jb - 1, ec, r, c)
        }
    } else {
        if window_scanned(jb, kb - 1, stride, rows, cols) && routes_to(
            ch,
            stride,
            kernel,
            jb,
            kb - 1,
            r,
            c,
        ) {
            err[jb]@[kb - 1]
        } else {
            routed_before(ch, err, stride, kernel, rows, cols, ec, jb, kb - 1, r, c)
        }
    }
}

/// The error a cell holds after the whole backward walk over an `er` by
/// `ec` slide of windows.
pub open spec fn routed(
    ch: Seq<Vec<u64>>,
    err: Seq<Vec<u64>>,
    stride: int,
    kernel: int,
    rows: int,
    cols: int,
    er: int,
    ec: int,
    r: int,
    c: int,
) -> u64 {
    routed_before(ch, err, stride, kernel, rows, cols, ec, er, 0, r, c)
}

/// A row of windows whose anchors lie below the image routes nothing.
proof fn lemma_routed_row_skipped(
    ch: Seq<Vec<u64>>,
    err: Seq<Vec<u64>>,
    stride: int,
    kernel: int,
    rows: int,
    cols: int,
    ec: int,
    jb: int,
    kb: int,
    r: int,
    c: int,
)
    requires
        jb * stride >= rows,
        0 <= kb,
    ensures
        routed_before(ch, err, stride, kernel, rows, cols, ec, jb, kb, r, c) == routed_before(
            ch,
            err,
            stride,
            kernel,
            rows,
            cols,
            ec,
            jb,
            0,
            r,
            c,
        ),
    decreases kb,
{
    if kb > 0 {
        lemma_routed_row_skipped(ch, err, stride, kernel, rows, cols, ec, jb, kb - 1, r, c);
    }
}

/// A nonnegative number sits in the `(r / s)`-th stride-`s` block.
proof fn lemma_div_range(r: int, s: int)
    requires
        s >= 1,
        r >= 0,
    ensures
        (r / s) * s <= r,
        r < (r / s) * s + s,
        r / s >= 0,
{
    vstd::arithmetic::div_mod::lemma_fundamental_div_mod(r, s);
    vstd::arithmetic::div_mod::lemma_mod_bound(r, s);
    vstd::arithmetic::mul::lemma_mul_is_commutative(r / s, s);
    assert((r / s) * s <= r);
    assert(r < (r / s) * s + s);
    if r / s < 0 {
        vstd::arithmetic::mul::lemma_mul_inequality(r / s, -1, s);
    }
}

/// With windows no wider than the stride, a cell of window `j` is owned by
/// it alone: dividing the cell's coordinate by the stride gives `j` back.
proof fn lemma_owner_window(cell: int, j: int, s: int, k: int)
    requires
        0 <= j,
        1 <= k <= s,
        j * s <= cell < j * s + k,
    ensures
        cell / s == j,
{
    vstd::arithmetic::div_mod::lemma_fundamental_div_mod_converse(cell, s, j, cell - j * s);
}

/// Routes an incoming error map back through a max-pool slide: for every
/// window of the slide over `img` whose anchor is inside the image, the
/// window's error lands on the cell its scan reports as the maximum;
/// every cell no scanned window reports stays zero. Later windows write
/// over earlier ones where scans collide; with a stride at least as wide
/// as the kernel no two windows share cells and every cell is pinned down.
pub fn route_pool_errors(
    img: &Vec<Vec<Vec<u64>>>,
    errors: &Vec<Vec<Vec<u64>>>,
    kernel: usize,
    stride: usize,
    rows: usize,
    cols: usize,
    er: usize,
    ec: usize,
) -> (next: Vec<Vec<Vec<u64>>>)
    requires
        ten_dims(img@, img@.len() as int, rows as int, cols as int),
        ten_dims(errors@, img@.len() as int, er as int, ec as int),
        kernel >= 1,
        stride >= 1,
        er as int * stride as int <= usize::MAX,
        ec as int * stride as int <= usize::MAX,
        rows + kernel <= usize::MAX,
        cols + kernel <= usize::MAX,
    ensures
        ten_dims(next@, img@.len() as int, rows as int, cols as int),
        forall|i: int, r: int, c: int|
            0 <= i < img@.len() && 0 <= r < rows && 0 <= c < cols ==> #[trigger] next@[i]@[r]@[c]
                == routed(
                img@[i]@,
                errors@[i]@,
                stride as int,
                kernel as int,
                rows as int,
                cols as int,
                er as int,
                ec as int,
                r,
                c,
            ),
        stride >= kernel ==> forall|i: int, r: int, c: int|
            0 <= i < img@.len() && 0 <= r < rows && 0 <= c < cols ==> #[trigger] next@[i]@[r]@[c]
                == (if r / (stride as int) < er && c / (stride as int) < ec && routes_to(
                img@[i]@,
                stride as int,
                kernel as int,
                r / (stride as int),
                c / (stride as int),
                r,
                c,
            ) {
                errors@[i]@[r / (stride as int)]@[c / (stride as int)]
            } else {
                0u64
            }),
{
    let ch = img.len();
    let ghost si = stride as int;
    let ghost ki = kernel as int;
    let mut next: Vec<Vec<Vec<u64>>> = Vec::new();
    let mut i: usize = 0;
    while i < ch
        invariant
            i <= ch,
            ch == img@.len(),
            ten_dims(img@, ch as int, rows as int, cols as int),
            ten_dims(errors@, ch as int, er as int, ec as int),
            kernel >= 1,
            stride >= 1,
            si == stride as int,
            ki == kernel as int,
            er as int * stride as int <= usize::MAX,
            ec as int * stride as int <= usize::MAX,
            rows + kernel <= usize::MAX,
            cols + kernel <= usize::MAX,
            next@.len() == i,
            forall|x: int| 0 <= x < i ==> mat_dims((#[trigger] next@[x])@, rows as int, cols as int),
            forall|x: int, r: int, c: int|
                0 <= x < i && 0 <= r < rows && 0 <= c < cols ==> #[trigger] next@[x]@[r]@[c]
                    == routed(
                    img@[x]@,
                    errors@[x]@,
                    si,
                    ki,
                    rows as int,
                    cols as int,
                    er as int,
                    ec as int,
                    r,
                    c,
                ),
            stride >= kernel ==> forall|x: int, r: int, c: int|
                0 <= x < i && 0 <= r < rows && 0 <= c < cols ==> #[trigger] next@[x]@[r]@[c] == (
                if r / si < er && c / si < ec && routes_to(
                    img@[x]@,
                    si,
                    ki,
                    r / si,
                    c / si,
                    r,
                    c,
                ) {
                    errors@[x]@[r / si]@[c / si]
                } else {
                    0u64
                }),
        decreases ch - i,
    {
        let mut mat = zero_matrix(rows, cols);
        let mut j: usize = 0;
        while j < er
            invariant
                j <= er,
                i < ch,
                ch == img@.len(),
                ten_dims(img@, ch as int, rows as int, cols as int),
                ten_dims(errors@, ch as int, er as int, ec as int),
                kernel >= 1,
                stride >= 1,
                si == stride as int,
                ki == kernel as int,
                er as int * stride as int <= usize::MAX,
                ec as int * stride as int <= usize::MAX,
                rows + kernel <= usize::MAX,
                cols + kernel <= usize::MAX,
                mat_dims(mat@, rows as int, cols as int),
                forall|r: int, c: int|
                    0 <= r < rows && 0 <= c < cols ==> #[trigger] mat@[r]@[c] == routed_before(
                        img@[i as int]@,
                        errors@[i as int]@,
                        si,
                        ki,
                        rows as int,
                        cols as int,
                        ec as int,
                        j as int,
                        0,
                        r,
                        c,
                    ),
                stride >= kernel ==> forall|r: int, c: int|
                    0 <= r < rows && 0 <= c < cols ==> #[trigger] mat@[r]@[c] == (if r / si < er
                        && c / si < ec && before_window(r / si, c / si, j as int, 0)
                        && routes_to(img@[i as int]@, si, ki, r / si, c / si, r, c) {
                        errors@[i as int]@[r / si]@[c / si]
                    } else {
                        0u64
                    }),
            decreases er - j,
        {
            proof {
                vstd::arithmetic::mul::lemma_mul_nonnegative(j as int, stride as int);
                vstd::arithmetic::mul::lemma_mul_inequality(j as int, er as int, stride as int);
            }
            let js = j * stride;
            if js < rows {
                let mut k: usize = 0;
                while k < ec
                    invariant
                        k <= ec,
                        j < er,
                        i < ch,
                        ch == img@.len(),
                        js == j * si,
                        js < rows,
                        ten_dims(img@, ch as int, rows as int, cols as int),
                        ten_dims(errors@, ch as int, er as int, ec as int),
                        kernel >= 1,
                        stride >= 1,
                        si == stride as int,
                        ki == kernel as int,
                        er as int * stride as int <= usize::MAX,
                        ec as int * stride as int <= usize::MAX,
                        rows + kernel <= usize::MAX,
                        cols + kernel <= usize::MAX,
                        mat_dims(mat@, rows as int, cols as int),
                        forall|r: int, c: int|
                            0 <= r < rows && 0 <= c < cols ==> #[trigger] mat@[r]@[c]
                                == routed_before(
                                img@[i as int]@,
                                errors@[i as int]@,
                                si,
                                ki,
                                rows as int,
                                cols as int,
                                ec as int,
                                j as int,
                                k as int,
                                r,
                                c,
                            ),
                        stride >= kernel ==> forall|r: int, c: int|
                            0 <= r < rows && 0 <= c < cols ==> #[trigger] mat@[r]@[c] == (if r / si
                                < er && c / si < ec && before_window(
                                r / si,
                                c / si,
                                j as int,
                                k as int,
                            ) && routes_to(img@[i as int]@, si, ki, r / si, c / si, r, c) {
                                errors@[i as int]@[r / si]@[c / si]
                            } else {
                                0u64
                            }),
                    decreases ec - k,
                {
                    proof {
                        vstd::arithmetic::mul::lemma_mul_nonnegative(k as int, stride as int);
                        vstd::arithmetic::mul::lemma_mul_inequality(
                            k as int,
                            ec as int,
                            stride as int,
                        );
                    }
                    let ks = k * stride;
                    let ghost mat0 = mat@;
                    if ks < cols {
                        let res = window_scan_max(&img[i], js, ks, kernel);
                        let br = res.1;
                        let bc = res.2;
                        proof {
                            assert(br < rows && bc < cols);
                            if stride >= kernel {
                                lemma_owner_window(br as int, j as int, si, ki);
                                lemma_owner_window(bc as int, k as int, si, ki);
                            }
                        }
                        let e = errors[i][j][k];
                        let mut rowv = crate::tensor::copy_row(&mat[br]);
                        rowv.set(bc, e);
                        mat.set(br, rowv);
                        proof {
                            assert(routes_to(
                                img@[i as int]@,
                                si,
                                ki,
                                j as int,
                                k as int,
                                br as int,
                                bc as int,
                            ));
                            assert(mat@[br as int]@[bc as int]
                                == errors@[i as int]@[j as int]@[k as int]);
                            assert forall|r: int, c: int|
                                0 <= r < rows && 0 <= c < cols && !(r == br as int && c
                                    == bc as int) implies #[trigger] mat@[r]@[c] == mat0[r]@[c] by {
                            }
                            assert forall|r: int, c: int|
                                0 <= r < rows && 0 <= c < cols implies #[trigger] mat@[r]@[c]
                                == routed_before(
                                img@[i as int]@,
                                errors@[i as int]@,
                                si,
                                ki,
                                rows as int,
                                cols as int,
                                ec as int,
                                j as int,
                                k as int + 1,
                                r,
                                c,
                            ) by {
                                assert(window_scanned(j as int, k as int, si, rows as int, cols as int));
                            }
                            if stride >= kernel {
                                assert forall|r: int, c: int|
                                    0 <= r < rows && 0 <= c < cols implies #[trigger] mat@[r]@[c]
                                    == (if r / si < er && c / si < ec && before_window(
                                    r / si,
                                    c / si,
                                    j as int,
                                    k as int + 1,
                                ) && routes_to(img@[i as int]@, si, ki, r / si, c / si, r, c) {
                                    errors@[i as int]@[r / si]@[c / si]
                                } else {
                                    0u64
                                }) by {
                                    lemma_div_range(r, si);
                                    lemma_div_range(c, si);
                                }
                            }
                        }
                    } else {
                        proof {
                            assert forall|r: int, c: int|
                                0 <= r < rows && 0 <= c < cols implies #[trigger] mat@[r]@[c]
                                == routed_before(
                                img@[i as int]@,
                                errors@[i as int]@,
                                si,
                                ki,
                                rows as int,
                                cols as int,
                                ec as int,
                                j as int,
                                k as int + 1,
                                r,
                                c,
                            ) by {
                                assert(!window_scanned(j as int, k as int, si, rows as int, cols as int));
                            }
                            if stride >= kernel {
                                assert forall|r: int, c: int|
                                    0 <= r < rows && 0 <= c < cols implies #[trigger] mat@[r]@[c]
                                    == (if r / si < er && c / si < ec && before_window(
                                    r / si,
                                    c / si,
                                    j as int,
                                    k as int + 1,
                                ) && routes_to(img@[i as int]@, si, ki, r / si, c / si, r, c) {
                                    errors@[i as int]@[r / si]@[c / si]
                                } else {
                                    0u64
                                }) by {
                                    lemma_div_range(c, si);
                                    if c / si == k as int {
                                        vstd::arithmetic::mul::lemma_mul_is_commutative(
                                            c / si,
                                            si,
                                        );
                                    }
                                }
                            }
                        }
                    }
                    k = k + 1;
                }
                proof {
                    assert forall|r: int, c: int|
                        0 <= r < rows && 0 <= c < cols implies #[trigger] mat@[r]@[c]
                        == routed_before(
                        img@[i as int]@,
                        errors@[i as int]@,
                        si,
                        ki,
                        rows as int,
                        cols as int,
                        ec as int,
                        j as int + 1,
                        0,
                        r,
                        c,
                    ) by {
                    }
                }
            } else {
                proof {
                    assert forall|r: int, c: int|
                        0 <= r < rows && 0 <= c < cols implies #[trigger] mat@[r]@[c]
                        == routed_before(
                        img@[i as int]@,
                        errors@[i as int]@,
                        si,
                        ki,
                        rows as int,
                        cols as int,
                        ec as int,
                        j as int + 1,
                        0,
                        r,
                        c,
                    ) by {
                        lemma_routed_row_skipped(
                            img@[i as int]@,
                            errors@[i as int]@,
                            si,
                            ki,
                            rows as int,
                            cols as int,
                            ec as int,
                            j as int,
                            ec as int,
                            r,
                            c,
                        );
                    }
                }
            }
            j = j + 1;
        }
        next.push(mat);
        i = i + 1;
    }
    next
}

/// What a column scan can report: its accumulator unchanged, or one of
/// the cells it visited, holding that cell's value; nothing it visited —
/// nor the accumulator — beats what it reports.
proof fn lemma_scan_cols_props(row: Seq<u64>, r: int, c0: int, k: int, acc: (u64, int, int))
    requires
        0 <= c0,
    ensures
        scan_cols(row, r, c0, k, acc) == acc || (exists|c: int|
            c0 <= c < c0 + k && c < row.len() && scan_cols(row, r, c0, k, acc) == (row[c], r, c)),
        forall|c: int|
            c0 <= c < c0 + k && c < row.len() ==> !fp_gt(
                #[trigger] row[c],
                scan_cols(row, r, c0, k, acc).0,
            ),
        scan_cols(row, r, c0, k, acc).0 == acc.0 || fp_gt(scan_cols(row, r, c0, k, acc).0, acc.0),
    decreases k,
{
    if k <= 0 || c0 >= row.len() {
    } else {
        let acc2 = scan_step(acc, row[c0], r, c0);
        let res = scan_cols(row, r, c0, k, acc);
        lemma_scan_cols_props(row, r, c0 + 1, k - 1, acc2);
        crate::scalar::lemma_fp_gt_order(res.0, acc2.0, acc.0);
        assert forall|c: int| c0 <= c < c0 + k && c < row.len() implies !fp_gt(
            #[trigger] row[c],
            res.0,
        ) by {
            crate::scalar::lemma_fp_gt_order(row[c], res.0, acc2.0);
        }
    }
}

/// What a row-by-row scan can report: its accumulator unchanged, or one
/// of the window cells it visited, holding that cell's value; nothing it
/// visited — nor the accumulator — beats what it reports.
proof fn lemma_scan_rows_props(m: Seq<Vec<u64>>, r0: int, c0: int, kr: int, k: int, acc: (u64, int, int))
    requires
        0 <= r0,
        0 <= c0,
    ensures
        scan_rows(m, r0, c0, kr, k, acc) == acc || (exists|rr: int, cc: int|
            r0 <= rr < r0 + kr && rr < m.len() && c0 <= cc < c0 + k && cc < m[rr]@.len()
                && scan_rows(m, r0, c0, kr, k, acc) == (m[rr]@[cc], rr, cc)),
        forall|rr: int, cc: int|
            r0 <= rr < r0 + kr && rr < m.len() && c0 <= cc < c0 + k && cc < m[rr]@.len()
                ==> !fp_gt(#[trigger] m[rr]@[cc], scan_rows(m, r0, c0, kr, k, acc).0),
        scan_rows(m, r0, c0, kr, k, acc).0 == acc.0 || fp_gt(
            scan_rows(m, r0, c0, kr, k, acc).0,
            acc.0,
        ),
    decreases kr,
{
    if kr <= 0 || r0 >= m.len() {
    } else {
        let acc2 = scan_cols(m[r0]@, r0, c0, k, acc);
        let res = scan_rows(m, r0, c0, kr, k, acc);
        lemma_scan_cols_props(m[r0]@, r0, c0, k, acc);
        lemma_scan_rows_props(m, r0 + 1, c0, kr - 1, k, acc2);
        crate::scalar::lemma_fp_gt_order(res.0, acc2.0, acc.0);
        assert forall|rr: int, cc: int|
            r0 <= rr < r0 + kr && rr < m.len() && c0 <= cc < c0 + k && cc < m[rr]@.len() implies !fp_gt(
            #[trigger] m[rr]@[cc],
            res.0,
        ) by {
            if rr == r0 {
                crate::scalar::lemma_fp_gt_order(m[r0]@[cc], res.0, acc2.0);
            }
        }
    }
}

/// A window with one strict maximum reports exactly that cell: if the
/// cell `(rbest, cbest)` of the window beats negative infinity and every
/// other cell the window covers, the scan hands back its value and its
/// position. With `lemma_pool_error_routing` this pins the backward pass
/// to the cell that held the forward maximum.
pub proof fn lemma_window_unique_max(
    m: Seq<Vec<u64>>,
    r0: int,
    c0: int,
    k: int,
    rbest: int,
    cbest: int,
)
    requires
        0 <= r0,
        0 <= c0,
        r0 <= rbest < r0 + k,
        c0 <= cbest < c0 + k,
        rbest < m.len(),
        cbest < m[rbest]@.len(),
        fp_gt(m[rbest]@[cbest], NEG_INFINITY_BITS),
        forall|rr: int, cc: int|
            r0 <= rr < r0 + k && rr < m.len() && c0 <= cc < c0 + k && cc < m[rr]@.len() && !(rr
                == rbest && cc == cbest) ==> fp_gt(m[rbest]@[cbest], #[trigger] m[rr]@[cc]),
    ensures
        window_argmax(m, r0, c0, k) == (m[rbest]@[cbest], rbest, cbest),
{
    let seed = (NEG_INFINITY_BITS, r0, c0);
    let res = window_argmax(m, r0, c0, k);
    lemma_scan_rows_props(m, r0, c0, k, k, seed);
    assert(!fp_gt(m[rbest]@[cbest], res.0));
    if res == seed {
        assert(false);
    }
}

/// Routing law of the backward pooling pass, for windows no wider than the
/// stride: within any window of the slide, the cell the window's scan
/// reports as its maximum receives the window's whole incoming error, and
/// every other cell of the window receives exactly zero. (When the window
/// holds one strict maximum, the reported cell is the one holding it; ties
/// go to the first cell in row-major scan order.) The first premise is the
/// cell characterization `route_pool_errors` establishes for one channel.
pub proof fn lemma_pool_error_routing(
    next_ch: Seq<Vec<u64>>,
    err_ch: Seq<Vec<u64>>,
    img_ch: Seq<Vec<u64>>,
    kernel: int,
    stride: int,
    rows: int,
    cols: int,
    er: int,
    ec: int,
    j: int,
    k: int,
    r: int,
    c: int,
)
    requires
        1 <= kernel <= stride,
        forall|r2: int, c2: int|
            0 <= r2 < rows && 0 <= c2 < cols ==> #[trigger] next_ch[r2]@[c2] == (if r2 / stride
                < er && c2 / stride < ec && routes_to(
                img_ch,
                stride,
                kernel,
                r2 / stride,
                c2 / stride,
                r2,
                c2,
            ) {
                err_ch[r2 / stride]@[c2 / stride]
            } else {
                0u64
            }),
        0 <= j < er,
        0 <= k < ec,
        j * stride <= r < j * stride + kernel,
        k * stride <= c < k * stride + kernel,
        r < rows,
        c < cols,
    ensures
        routes_to(img_ch, stride, kernel, j, k, r, c) ==> next_ch[r]@[c] == err_ch[j]@[k],
        !routes_to(img_ch, stride, kernel, j, k, r, c) ==> next_ch[r]@[c] == 0u64,
{
    vstd::arithmetic::mul::lemma_mul_nonnegative(j, stride);
    vstd::arithmetic::mul::lemma_mul_nonnegative(k, stride);
    lemma_owner_window(r, j, stride, kernel);
    lemma_owner_window(c, k, stride, kernel);
}

/// Every window start of a `k`-at-stride-`s` slide stays inside the input.
pub proof fn lemma_window_fits(j: int, dim: int, k: int, s: int)
    requires
        s >= 1,
        1 <= k <= dim,
        0 <= j < crate::conv_params::out_len(dim, k, s),
    ensures
        0 <= j * s,
        j * s + k <= dim,
        crate::conv_params::out_len(dim, k, s) <= dim,
{
    let q = (dim - k) / s;
    vstd::arithmetic::div_mod::lemma_fundamental_div_mod(dim - k, s);
    vstd::arithmetic::div_mod::lemma_mod_bound(dim - k, s);
    vstd::arithmetic::mul::lemma_mul_nonnegative(j, s);
    vstd::arithmetic::mul::lemma_mul_inequality(j, q, s);
    assert(q * s <= dim - k);
    vstd::arithmetic::mul::lemma_mul_inequality(1, s, q);
}

} // verus!
