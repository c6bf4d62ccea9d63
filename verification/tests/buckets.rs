use spectremesh::scalar::Scalar;
use spectremesh::types::FearBucket;

fn scalar(x: f32) -> Scalar {
    Scalar::from_bits(x.to_bits())
}

#[test]
fn types_test_fear_bucket_classification() {
    assert_eq!(FearBucket::from_score(scalar(0.0)), FearBucket::Low);
    assert_eq!(FearBucket::from_score(scalar(0.32)), FearBucket::Low);
    assert_eq!(FearBucket::from_score(scalar(0.33)), FearBucket::Medium);
    assert_eq!(FearBucket::from_score(scalar(0.65)), FearBucket::Medium);
    assert_eq!(FearBucket::from_score(scalar(0.66)), FearBucket::High);
    assert_eq!(FearBucket::from_score(scalar(1.0)), FearBucket::High);
}
