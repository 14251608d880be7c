use vector_db::VexusError;
use vector_db::VexusIndex;

fn bytes_of(v: &[f32]) -> Vec<u8> {
    v.iter().flat_map(|x| x.to_le_bytes()).collect()
}

#[test]
fn insert_rejects_wrong_byte_length_exactly() {
    let mut store = VexusIndex::new(4, 8).unwrap();
    let short = bytes_of(&[1.0, 2.0, 3.0]);
    match store.add(1, &short) {
        Err(VexusError::ShapeMismatch { expected, actual }) => {
            assert_eq!(expected, 16);
            assert_eq!(actual, 12);
        }
        other => panic!("expected a shape mismatch, got {:?}", other),
    }
    let right = bytes_of(&[1.0, 2.0, 3.0, 4.0]);
    assert!(store.add(1, &right).is_ok());
}

#[test]
fn search_rejects_wrong_byte_length_exactly() {
    let mut store = VexusIndex::new(4, 8).unwrap();
    store.add(1, &bytes_of(&[1.0, 0.0, 0.0, 0.0])).unwrap();
    let long = bytes_of(&[1.0, 0.0, 0.0, 0.0, 0.0]);
    match store.search(&long, 3) {
        Err(VexusError::ShapeMismatch { expected, actual }) => {
            assert_eq!(expected, 16);
            assert_eq!(actual, 20);
        }
        other => panic!("expected a shape mismatch, got {:?}", other),
    }
    assert!(store.search(&bytes_of(&[1.0, 0.0, 0.0, 0.0]), 3).is_ok());
}

#[test]
fn growth_keeps_size_within_capacity() {
    let mut store = VexusIndex::new(4, 2).unwrap();
    let mut capacities: Vec<u32> = vec![store.stats().capacity];
    let vectors = [
        [1.0f32, 0.0, 0.0, 0.0],
        [0.0, 1.0, 0.0, 0.0],
        [0.0, 0.0, 1.0, 0.0],
    ];
    for (i, v) in vectors.iter().enumerate() {
        store.add(i as u32, &bytes_of(v)).unwrap();
        let s = store.stats();
        assert!(s.total_vectors <= s.capacity);
        capacities.push(s.capacity);
    }
    let s = store.stats();
    assert_eq!(s.total_vectors, 3);
    assert!(s.capacity >= 3);
    let growth_events = capacities.windows(2).filter(|w| w[1] > w[0]).count();
    assert!(growth_events >= 1);
}

#[test]
fn search_scores_exact_match_as_one() {
    let mut store = VexusIndex::new(4, 8).unwrap();
    store.add(7, &bytes_of(&[1.0, 0.0, 0.0, 0.0])).unwrap();
    store.add(9, &bytes_of(&[0.0, 1.0, 0.0, 0.0])).unwrap();
    let results = store.search(&bytes_of(&[1.0, 0.0, 0.0, 0.0]), 2).unwrap();
    assert!(!results.is_empty());
    assert!(results.len() <= 2);
    assert_eq!(results[0].id, 7);
    let top = f64::from_bits(results[0].score);
    assert!((top - 1.0).abs() < 1e-6);
    let second = f64::from_bits(results[1].score);
    assert!(second <= top);
}

#[test]
fn search_returns_at_most_k_and_at_most_size() {
    let mut store = VexusIndex::new(2, 8).unwrap();
    store.add(1, &bytes_of(&[1.0, 0.0])).unwrap();
    store.add(2, &bytes_of(&[0.0, 1.0])).unwrap();
    let results = store.search(&bytes_of(&[1.0, 0.0]), 10).unwrap();
    assert!(results.len() <= 2);
    let one = store.search(&bytes_of(&[1.0, 0.0]), 1).unwrap();
    assert!(one.len() <= 1);
}

#[test]
fn remove_deletes_by_identifier() {
    let mut store = VexusIndex::new(2, 8).unwrap();
    store.add(5, &bytes_of(&[1.0, 0.0])).unwrap();
    assert_eq!(store.stats().total_vectors, 1);
    store.remove(5).unwrap();
    assert_eq!(store.stats().total_vectors, 0);
}

#[test]
fn batch_insert_is_validated_then_partial() {
    let mut store = VexusIndex::new(2, 8).unwrap();
    let ids: Vec<u32> = vec![1, 2, 3];
    let flat = bytes_of(&[1.0, 0.0, 0.0, 1.0, 1.0, 1.0]);
    store.add_batch(&ids, &flat).unwrap();
    assert_eq!(store.stats().total_vectors, 3);
    let wrong = bytes_of(&[1.0, 0.0, 0.0, 1.0, 1.0]);
    match store.add_batch(&vec![4, 5, 6], &wrong) {
        Err(VexusError::ShapeMismatch { expected, actual }) => {
            assert_eq!(expected, 24);
            assert_eq!(actual, 20);
        }
        other => panic!("expected a shape mismatch, got {:?}", other),
    }
    assert_eq!(store.stats().total_vectors, 3);
}

#[test]
fn recovered_rows_skip_wrong_lengths() {
    let mut store = VexusIndex::new(2, 8).unwrap();
    let rows: Vec<(i64, Vec<u8>)> = vec![
        (10, bytes_of(&[1.0, 0.0])),
        (11, bytes_of(&[1.0, 0.0, 3.0])),
        (12, bytes_of(&[0.0, 1.0])),
        (13, Vec::new()),
    ];
    let (inserted, skipped) = store.recover_rows(&rows);
    assert_eq!(inserted, 2);
    assert_eq!(skipped, 2);
    assert_eq!(store.stats().total_vectors, 2);
}

#[test]
fn stats_reports_dimensionality() {
    let store = VexusIndex::new(12, 4).unwrap();
    let s = store.stats();
    assert_eq!(s.dimensions, 12);
    assert_eq!(s.total_vectors, 0);
    assert!(s.capacity >= 4);
}

#[test]
fn save_then_load_preserves_contents() {
    let mut store = VexusIndex::new(2, 8).unwrap();
    store.add(1, &bytes_of(&[1.0, 0.0])).unwrap();
    store.add(2, &bytes_of(&[0.0, 1.0])).unwrap();
    let path = "/tmp/vector_db_store_roundtrip.usearch";
    store.save(path).unwrap();
    let loaded = VexusIndex::load(2, 8, path).unwrap();
    let s = loaded.stats();
    assert_eq!(s.dimensions, 2);
    assert_eq!(s.total_vectors, 2);
    let results = loaded.search(&bytes_of(&[1.0, 0.0]), 1).unwrap();
    assert_eq!(results[0].id, 1);
}

#[test]
fn analysis_methods_share_the_store_dimensionality() {
    let store = VexusIndex::new(2, 4).unwrap();
    let q = bytes_of(&[1.0, 0.0]);
    let tags = bytes_of(&[1.0, 0.0, 0.0, 1.0]);
    let proj = store.compute_orthogonal_projection(&q, &tags, 2).unwrap();
    assert_eq!(proj.basis_coefficients.len(), 2);
    assert_eq!(
        f64::from_bits(proj.basis_coefficients[0]),
        1.0
    );
    let hs = store.compute_handshakes(&q, &tags, 2).unwrap();
    assert_eq!(hs.magnitudes.len(), 2);
    assert_eq!(f64::from_bits(hs.magnitudes[0]), 0.0);
    let mean = bytes_of(&[0.0, 0.0]);
    let pr = store.project(&q, &tags, &mean, 2).unwrap();
    assert_eq!(pr.projections.len(), 2);
    assert!((f64::from_bits(pr.entropy)).abs() < 1e-9);
    let bad = bytes_of(&[1.0, 0.0, 3.0]);
    assert!(matches!(
        store.compute_handshakes(&bad, &tags, 2),
        Err(VexusError::ShapeMismatch { .. })
    ));
    assert!(matches!(
        store.project(&q, &tags, &bad, 2),
        Err(VexusError::ShapeMismatch { .. })
    ));
    assert!(matches!(
        store.compute_orthogonal_projection(&q, &bad, 2),
        Err(VexusError::ShapeMismatch { .. })
    ));
}

#[test]
fn duplicate_identifier_outcome_is_the_engines() {
    let mut store = VexusIndex::new(2, 8).unwrap();
    store.add(7, &bytes_of(&[1.0, 0.0])).unwrap();
    match store.add(7, &bytes_of(&[0.0, 1.0])) {
        Ok(()) => assert_eq!(store.stats().total_vectors, 2),
        Err(VexusError::EngineFailure { .. }) => assert_eq!(store.stats().total_vectors, 1),
        other => panic!("unexpected outcome {:?}", other),
    }
}
