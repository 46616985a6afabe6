use shader_utils::attribute::location_from_query;

#[test]
fn bound_attribute_gives_its_location() {
    assert_eq!(location_from_query(0, 0), Some(0));
    assert_eq!(location_from_query(3, 0), Some(3));
    assert_eq!(location_from_query(i32::MAX, 0), Some(2147483647));
}

#[test]
fn flagged_error_gives_absent() {
    // GL_INVALID_OPERATION
    assert_eq!(location_from_query(-1, 0x0502), None);
    assert_eq!(location_from_query(2, 1), None);
}

#[test]
fn negative_location_without_error_is_passed_through_as_unsigned() {
    assert_eq!(location_from_query(-1, 0), Some(u32::MAX));
}
