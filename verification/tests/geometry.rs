use vector_db::check_shape;
use vector_db::decode_vector;
use vector_db::gram_schmidt::orthogonal_projection_words;
use vector_db::handshake::handshake_words;
use vector_db::subspace::project_words;
use vector_db::svd_outcome;
use vector_db::svd_select;
use vector_db::VexusError;

fn words_of(v: &[f32]) -> Vec<u32> {
    v.iter().map(|x| x.to_bits()).collect()
}

fn floats_of(bits: &[u64]) -> Vec<f64> {
    bits.iter().map(|b| f64::from_bits(*b)).collect()
}

fn dot_f64(a: &[f64], b: &[f64]) -> f64 {
    a.iter().zip(b.iter()).map(|(x, y)| x * y).sum()
}

#[test]
fn shape_check_accepts_exact_buffers() {
    assert!(check_shape(16, 4).is_ok());
    assert!(check_shape(0, 0).is_ok());
}

#[test]
fn shape_check_rejects_everything_else() {
    match check_shape(15, 4) {
        Err(VexusError::ShapeMismatch { expected, actual }) => {
            assert_eq!(expected, 16);
            assert_eq!(actual, 15);
        }
        other => panic!("expected a shape mismatch, got {:?}", other),
    }
    assert!(check_shape(17, 4).is_err());
    assert!(check_shape(4, 0).is_err());
}

#[test]
fn decode_reads_little_endian_components() {
    let value: f32 = 1.5;
    let bytes: Vec<u8> = value.to_le_bytes().to_vec();
    let words = decode_vector(&bytes, 1).unwrap();
    assert_eq!(words, vec![value.to_bits()]);
    let two: Vec<u8> = [0.25f32, -8.0f32]
        .iter()
        .flat_map(|x| x.to_le_bytes())
        .collect();
    let words = decode_vector(&two, 2).unwrap();
    assert_eq!(words, vec![0.25f32.to_bits(), (-8.0f32).to_bits()]);
}

#[test]
fn orthogonal_projection_axis_example() {
    let query = words_of(&[1.0, 0.0, 0.0, 0.0]);
    let tags = words_of(&[1.0, 0.0, 0.0, 0.0, 0.0, 1.0, 0.0, 0.0]);
    let r = orthogonal_projection_words(&query, &tags, 2, 4);
    let coeffs = floats_of(&r.basis_coefficients);
    let projection = floats_of(&r.projection);
    let residual = floats_of(&r.residual);
    assert_eq!(coeffs, vec![1.0, 0.0]);
    assert_eq!(projection, vec![1.0, 0.0, 0.0, 0.0]);
    assert_eq!(residual, vec![0.0, 0.0, 0.0, 0.0]);
}

#[test]
fn orthogonal_projection_is_idempotent() {
    let query = words_of(&[0.3, -1.2, 2.5]);
    let tags = words_of(&[1.0, 1.0, 0.0, 1.0, 0.0, 1.0, 0.5, 0.5, 0.5]);
    let a = orthogonal_projection_words(&query, &tags, 3, 3);
    let b = orthogonal_projection_words(&query, &tags, 3, 3);
    assert_eq!(a.projection, b.projection);
    assert_eq!(a.residual, b.residual);
    assert_eq!(a.basis_coefficients, b.basis_coefficients);
}

#[test]
fn accepted_basis_is_orthonormal_and_residual_orthogonal() {
    let dim = 3usize;
    let query: Vec<f64> = vec![0.3, -1.2, 2.5];
    let cands: Vec<Vec<f64>> = vec![
        vec![1.0, 1.0, 0.0],
        vec![1.0, 0.0, 1.0],
        vec![0.5, 0.5, 0.5],
    ];
    // Mirror of the documented algorithm, to recover the accepted basis.
    let mut basis: Vec<Vec<f64>> = Vec::new();
    for cand in &cands {
        let mut v = cand.clone();
        for u in &basis {
            let mut d = 0.0;
            for i in 0..dim {
                d += v[i] * u[i];
            }
            for i in 0..dim {
                v[i] -= d * u[i];
            }
        }
        let mag = v.iter().map(|x| x * x).sum::<f64>().sqrt();
        if mag > 1e-6 {
            for i in 0..dim {
                v[i] /= mag;
            }
            basis.push(v);
        }
    }
    for a in 0..basis.len() {
        let norm = dot_f64(&basis[a], &basis[a]);
        assert!((norm - 1.0).abs() < 1e-6);
        for b in 0..a {
            assert!(dot_f64(&basis[a], &basis[b]).abs() < 1e-6);
        }
    }
    let qw = words_of(&query.iter().map(|x| *x as f32).collect::<Vec<f32>>());
    let tw = words_of(
        &cands
            .iter()
            .flatten()
            .map(|x| *x as f32)
            .collect::<Vec<f32>>(),
    );
    let r = orthogonal_projection_words(&qw, &tw, 3, 3);
    let residual = floats_of(&r.residual);
    for u in &basis {
        assert!(dot_f64(&residual, u).abs() < 1e-5);
    }
    let projection = floats_of(&r.projection);
    for i in 0..dim {
        let q = query[i] as f32 as f64;
        assert!((projection[i] + residual[i] - q).abs() < 1e-9);
    }
}

#[test]
fn handshake_identical_vectors_zero_case() {
    let q = words_of(&[0.5, -2.0, 7.25]);
    let tags = words_of(&[0.5, -2.0, 7.25]);
    let r = handshake_words(&q, &tags, 1, 3);
    let mags = floats_of(&r.magnitudes);
    let dirs = floats_of(&r.directions);
    assert_eq!(mags, vec![0.0]);
    assert_eq!(dirs, vec![0.0, 0.0, 0.0]);
    assert!(mags.iter().all(|m| !m.is_nan()));
    assert!(dirs.iter().all(|d| !d.is_nan()));
}

#[test]
fn handshake_known_displacement() {
    let q = words_of(&[3.0, 4.0]);
    let tags = words_of(&[0.0, 0.0, 3.0, 0.0]);
    let r = handshake_words(&q, &tags, 2, 2);
    let mags = floats_of(&r.magnitudes);
    let dirs = floats_of(&r.directions);
    assert!((mags[0] - 5.0).abs() < 1e-12);
    assert!((dirs[0] - 0.6).abs() < 1e-12);
    assert!((dirs[1] - 0.8).abs() < 1e-12);
    assert!((mags[1] - 4.0).abs() < 1e-12);
    assert!((dirs[2] - 0.0).abs() < 1e-12);
    assert!((dirs[3] - 1.0).abs() < 1e-12);
}

#[test]
fn entropy_zero_for_aligned_vector() {
    let v = words_of(&[2.0, 0.0, 0.0, 0.0]);
    let mean = words_of(&[0.0, 0.0, 0.0, 0.0]);
    let basis = words_of(&[
        1.0, 0.0, 0.0, 0.0, 0.0, 1.0, 0.0, 0.0, 0.0, 0.0, 1.0, 0.0, 0.0, 0.0, 0.0, 1.0,
    ]);
    let r = project_words(&v, &basis, &mean, 4, 4);
    let probs = floats_of(&r.probabilities);
    let entropy = f64::from_bits(r.entropy);
    assert!((probs[0] - 1.0).abs() < 1e-12);
    assert!(probs[1..].iter().all(|p| p.abs() < 1e-12));
    assert!(entropy.abs() < 1e-12);
}

#[test]
fn entropy_reaches_log2_k_for_even_split() {
    let v = words_of(&[1.0, 1.0, 1.0, 1.0]);
    let mean = words_of(&[0.0, 0.0, 0.0, 0.0]);
    let basis = words_of(&[
        1.0, 0.0, 0.0, 0.0, 0.0, 1.0, 0.0, 0.0, 0.0, 0.0, 1.0, 0.0, 0.0, 0.0, 0.0, 1.0,
    ]);
    let r = project_words(&v, &basis, &mean, 4, 4);
    let entropy = f64::from_bits(r.entropy);
    assert!((entropy - 2.0).abs() < 1e-9);
    assert!(entropy >= 0.0);
    assert!(entropy <= 2.0 + 1e-9);
    let energy = f64::from_bits(r.total_energy);
    assert!((energy - 4.0).abs() < 1e-9);
}

#[test]
fn degenerate_energy_yields_all_zero_distribution() {
    let v = words_of(&[0.25, -0.5]);
    let mean = words_of(&[0.25, -0.5]);
    let basis = words_of(&[1.0, 0.0, 0.0, 1.0]);
    let r = project_words(&v, &basis, &mean, 2, 2);
    let probs = floats_of(&r.probabilities);
    let entropy = f64::from_bits(r.entropy);
    assert!(f64::from_bits(r.total_energy) <= 1e-12);
    assert_eq!(probs, vec![0.0, 0.0]);
    assert_eq!(entropy, 0.0);
    assert!(!entropy.is_nan());
}

#[test]
fn svd_identity_two_singular_values() {
    let rows = nalgebra::DMatrix::from_row_slice(2, 2, &[1.0f32, 0.0, 0.0, 1.0]);
    let svd = rows.svd(false, true);
    let s_bits: Vec<u32> = svd.singular_values.iter().map(|x| x.to_bits()).collect();
    let vt = svd.v_t.expect("right-singular matrix");
    let mut vt_bits: Vec<u32> = Vec::new();
    for i in 0..vt.nrows() {
        for x in vt.row(i).iter() {
            vt_bits.push(x.to_bits());
        }
    }
    let r = svd_select(&s_bits, &vt_bits, 2, 2);
    assert_eq!(r.k, 2);
    assert_eq!(r.dim, 2);
    let s = floats_of(&r.s);
    assert!((s[0] - 1.0).abs() < 1e-6);
    assert!((s[1] - 1.0).abs() < 1e-6);
    let u = floats_of(&r.u);
    let r0 = [u[0], u[1]];
    let r1 = [u[2], u[3]];
    assert!((dot_f64(&r0, &r0) - 1.0).abs() < 1e-6);
    assert!((dot_f64(&r1, &r1) - 1.0).abs() < 1e-6);
    assert!(dot_f64(&r0, &r1).abs() < 1e-6);
}

#[test]
fn svd_truncates_to_requested_k() {
    let s_bits = words_of(&[3.0, 2.0, 1.0]);
    let vt_bits = words_of(&[1.0, 0.0, 0.0, 0.0, 1.0, 0.0, 0.0, 0.0, 1.0]);
    let r = svd_select(&s_bits, &vt_bits, 3, 2);
    assert_eq!(r.k, 2);
    assert_eq!(floats_of(&r.s), vec![3.0, 2.0]);
    assert_eq!(r.u.len(), 6);
}

#[test]
fn missing_right_singular_matrix_is_a_decomposition_failure() {
    match svd_outcome(None, 2, 2) {
        Err(VexusError::DecompositionFailed) => {}
        other => panic!("expected a decomposition failure, got {:?}", other),
    }
    let ok = svd_outcome(Some((words_of(&[1.0]), words_of(&[1.0, 0.0]))), 2, 4).unwrap();
    assert_eq!(ok.k, 1);
}
