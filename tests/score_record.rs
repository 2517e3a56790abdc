use snake_game::{ScoreError, ScoreRepository};

#[test]
fn save_then_load_gives_the_score_back() {
    let bytes = ScoreRepository::encode(42);
    assert_eq!(ScoreRepository::decode(&bytes), Ok(42));
}

#[test]
fn record_is_eight_little_endian_bytes() {
    assert_eq!(ScoreRepository::encode(42), vec![42, 0, 0, 0, 0, 0, 0, 0]);
    assert_eq!(ScoreRepository::encode(0x0102), vec![2, 1, 0, 0, 0, 0, 0, 0]);
    assert_eq!(ScoreRepository::encode(0), vec![0; 8]);
}

#[test]
fn round_trip_at_the_extremes() {
    for v in [0usize, 1, 255, 256, usize::MAX].iter() {
        assert_eq!(ScoreRepository::decode(&ScoreRepository::encode(*v)), Ok(*v));
    }
}

#[test]
fn short_record_is_truncated() {
    assert_eq!(ScoreRepository::decode(&[]), Err(ScoreError::Truncated));
    assert_eq!(ScoreRepository::decode(&[42, 0, 0, 0, 0, 0, 0]), Err(ScoreError::Truncated));
}

#[test]
fn bytes_after_the_record_are_ignored() {
    assert_eq!(ScoreRepository::decode(&[7, 1, 0, 0, 0, 0, 0, 0, 9, 9]), Ok(263));
}
