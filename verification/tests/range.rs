use shimiko::errors::ValidationError;
use shimiko::range::normalize_range;

#[test]
fn reversed_range_is_swapped() {
    let range = normalize_range(5, 1).expect("a reversed range is valid");
    assert_eq!(range.min(), 1);
    assert_eq!(range.max(), 5);
}

#[test]
fn ordered_range_is_kept() {
    let range = normalize_range(7, 12).expect("an ordered range is valid");
    assert_eq!(range.min(), 7);
    assert_eq!(range.max(), 12);
}

#[test]
fn zero_pack_range() {
    assert_eq!(normalize_range(0, 0), Err(ValidationError::ZeroBound));
    assert_eq!(normalize_range(0, 5), Err(ValidationError::ZeroBound));
    assert_eq!(normalize_range(5, 0), Err(ValidationError::ZeroBound));
}

#[test]
fn range_ceiling() {
    assert_eq!(normalize_range(1, 3000), Err(ValidationError::TooHigh(3000)));
    assert_eq!(normalize_range(3000, 1), Err(ValidationError::TooHigh(3000)));
    assert_eq!(normalize_range(1, 65535), Err(ValidationError::TooHigh(65535)));
    let range = normalize_range(1, 2999).expect("the highest allowed range is valid");
    assert_eq!(range.max(), 2999);
}

#[test]
fn single_pack_range() {
    let range = normalize_range(1318, 1318).expect("a single pack is a valid range");
    assert_eq!(range.min(), 1318);
    assert_eq!(range.max(), 1318);
}
