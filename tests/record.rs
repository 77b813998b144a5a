use face_ident::embedding::{FaceEmbedding, FaceHash};
use face_ident::error::FaceError;
use face_ident::face::Face;

fn embedding(seed: u32) -> FaceEmbedding {
    let data: Vec<u32> = (0..128u32).map(|i| (i * 31 + seed).wrapping_mul(2654435761)).collect();
    FaceEmbedding::from_output(&vec![1, 128], data).ok().unwrap()
}

#[test]
fn hash_id_is_name_based_uuid() {
    let h = FaceHash::new([1, 2, 3, 4, 5, 6, 7, 8]);
    assert_eq!(h.to_string(), "b2e0e6c1-46b9-3c68-821b-242c6ae6730c");
    assert_eq!(FaceHash::new([0; 8]).to_string(), "1f89640e-6a20-3e00-aca3-3edf8e9c1a99");
}

#[test]
fn same_hash_same_id() {
    let a = FaceHash::from_output(&vec![1, 8], &vec![9, 8, 7, 6, 5, 4, 3, 2]).unwrap();
    let b = FaceHash::new([9, 8, 7, 6, 5, 4, 3, 2]);
    assert_eq!(a.to_string(), b.to_string());
    assert_ne!(a.to_string(), FaceHash::new([9, 8, 7, 6, 5, 4, 3, 3]).to_string());
}

#[test]
fn hash_output_layout_is_checked() {
    assert!(matches!(FaceHash::from_output(&vec![1, 7], &vec![0; 7]), Err(FaceError::InferenceShapeMismatch)));
    assert!(matches!(FaceHash::from_output(&vec![1, 8], &vec![0; 9]), Err(FaceError::InferenceShapeMismatch)));
    assert!(matches!(FaceHash::from_output(&vec![8], &vec![0; 8]), Err(FaceError::InferenceShapeMismatch)));
}

#[test]
fn embedding_output_layout_is_checked() {
    assert!(matches!(FaceEmbedding::from_output(&vec![1, 127], vec![0; 127]), Err(FaceError::InferenceShapeMismatch)));
    assert!(matches!(FaceEmbedding::from_output(&vec![1, 128], vec![0; 129]), Err(FaceError::InferenceShapeMismatch)));
    assert!(matches!(FaceEmbedding::from_output(&vec![128], vec![0; 128]), Err(FaceError::InferenceShapeMismatch)));
}

#[test]
fn embedding_keeps_values_bit_for_bit() {
    let values: Vec<u32> = (0..128).map(|i| (0.25f32 * i as f32 - 3.0).to_bits()).collect();
    let e = FaceEmbedding::from_output(&vec![1, 128], values.clone()).ok().unwrap();
    assert_eq!(e.data(), &values);
}

#[test]
fn point_carries_id_vector_and_payload() {
    let hash = FaceHash::new([1, 2, 3, 4, 5, 6, 7, 8]);
    let e = embedding(5);
    let vector = e.data().clone();
    let point = Face::new(hash, e, "Alice".to_string(), Some(1999)).to_point();
    assert_eq!(point.id, "b2e0e6c1-46b9-3c68-821b-242c6ae6730c");
    assert_eq!(point.vector, vector);
    assert_eq!(point.celebrity, "Alice");
    assert_eq!(point.year_taken, Some(1999));
}

#[test]
fn points_of_equal_faces_are_equal() {
    let p1 = Face::new(FaceHash::new([3; 8]), embedding(1), "Bob".to_string(), None).to_point();
    let p2 = Face::new(FaceHash::new([3; 8]), embedding(1), "Bob".to_string(), None).to_point();
    assert_eq!(p1.id, p2.id);
    assert_eq!(p1.vector, p2.vector);
    assert_eq!(p1.celebrity, p2.celebrity);
    assert_eq!(p1.year_taken, p2.year_taken);
}
