use key_image_store::engine::{
    is_capacity_supported, BUCKET_CAPACITY, MAX_BUCKETS, OMAP_FOUND, OMAP_INVALID_KEY,
    OMAP_NOT_FOUND, OMAP_OVERFLOW,
};
use key_image_store::outcome::{classify_read, write_outcome, AddRecordsError, KeyImageResultCode};
use key_image_store::store::{ALLOW_OVERWRITE, STASH_SIZE};

#[test]
fn status_codes_are_those_of_the_map() {
    assert_eq!(OMAP_FOUND, mc_oblivious_traits::OMAP_FOUND);
    assert_eq!(OMAP_NOT_FOUND, mc_oblivious_traits::OMAP_NOT_FOUND);
    assert_eq!(OMAP_OVERFLOW, mc_oblivious_traits::OMAP_OVERFLOW);
    assert_eq!(OMAP_INVALID_KEY, mc_oblivious_traits::OMAP_INVALID_KEY);
}

#[test]
fn found_is_classified_not_spent() {
    assert_eq!(classify_read(OMAP_FOUND), KeyImageResultCode::NotSpent);
}

#[test]
fn not_found_is_classified_key_image_error() {
    assert_eq!(classify_read(OMAP_NOT_FOUND), KeyImageResultCode::KeyImageError);
}

#[test]
fn invalid_key_is_classified_key_image_error() {
    assert_eq!(classify_read(OMAP_INVALID_KEY), KeyImageResultCode::KeyImageError);
}

#[test]
fn other_read_codes_are_classified_key_image_error() {
    assert_eq!(classify_read(OMAP_OVERFLOW), KeyImageResultCode::KeyImageError);
    assert_eq!(classify_read(4), KeyImageResultCode::KeyImageError);
    assert_eq!(classify_read(u32::MAX), KeyImageResultCode::KeyImageError);
}

#[test]
fn write_found_and_not_found_succeed() {
    assert_eq!(write_outcome(OMAP_FOUND), Ok(()));
    assert_eq!(write_outcome(OMAP_NOT_FOUND), Ok(()));
}

#[test]
fn write_invalid_key_is_key_wrong_size() {
    assert_eq!(write_outcome(OMAP_INVALID_KEY), Err(AddRecordsError::KeyWrongSize));
}

#[test]
fn write_overflow_is_key_wrong_size() {
    assert_eq!(write_outcome(OMAP_OVERFLOW), Err(AddRecordsError::KeyWrongSize));
}

#[test]
fn store_constants() {
    assert_eq!(STASH_SIZE, 32);
    assert_eq!(ALLOW_OVERWRITE, 1);
    assert_eq!(BUCKET_CAPACITY, 1024 / (32 + 16));
}

#[test]
fn capacity_limit_is_exact() {
    assert!(is_capacity_supported(0));
    assert!(is_capacity_supported(1));
    assert!(is_capacity_supported(1 << 20));
    let last = 2 * BUCKET_CAPACITY * MAX_BUCKETS + 2 * BUCKET_CAPACITY - 1;
    assert!(is_capacity_supported(last));
    assert!(!is_capacity_supported(last + 1));
    assert!(!is_capacity_supported(u64::MAX));
}
