use poe_skill_tree::error::StructuralError;
use poe_skill_tree::parsing::{
    default_bool, default_box_box_str_none, default_u8, defualt_u32_none, from_string_array_to_box,
    from_string_array_to_box_option, from_string_array_to_u32_box, from_string_to_u32,
    from_string_to_u32_option,
};

fn strings(items: &[&str]) -> Vec<String> {
    items.iter().map(|s| s.to_string()).collect()
}

#[test]
fn parses_plain_decimal() {
    assert_eq!(from_string_to_u32("123"), Ok(123));
    assert_eq!(from_string_to_u32("0"), Ok(0));
    assert_eq!(from_string_to_u32("007"), Ok(7));
}

#[test]
fn parses_leading_plus() {
    assert_eq!(from_string_to_u32("+42"), Ok(42));
}

#[test]
fn parses_u32_max_but_not_beyond() {
    assert_eq!(from_string_to_u32("4294967295"), Ok(u32::MAX));
    assert_eq!(
        from_string_to_u32("4294967296"),
        Err(StructuralError::BadNumber)
    );
}

#[test]
fn rejects_non_numeric_text() {
    assert_eq!(from_string_to_u32("abc"), Err(StructuralError::BadNumber));
    assert_eq!(from_string_to_u32("12a"), Err(StructuralError::BadNumber));
    assert_eq!(from_string_to_u32(""), Err(StructuralError::BadNumber));
    assert_eq!(from_string_to_u32("+"), Err(StructuralError::BadNumber));
    assert_eq!(from_string_to_u32("-1"), Err(StructuralError::BadNumber));
    assert_eq!(from_string_to_u32(" 1"), Err(StructuralError::BadNumber));
}

#[test]
fn optional_number_empty_is_absent() {
    assert_eq!(from_string_to_u32_option(""), Ok(None));
    assert_eq!(from_string_to_u32_option("9"), Ok(Some(9)));
    assert_eq!(
        from_string_to_u32_option("x"),
        Err(StructuralError::BadNumber)
    );
}

#[test]
fn joins_string_array_in_order_without_separator() {
    assert_eq!(from_string_array_to_box(&strings(&["a", "bc", "d"])), "abcd");
    assert_eq!(from_string_array_to_box(&strings(&[])), "");
}

#[test]
fn optional_join_empty_array_is_absent() {
    assert_eq!(from_string_array_to_box_option(&strings(&[])), None);
    assert_eq!(
        from_string_array_to_box_option(&strings(&["x", "y"])),
        Some("xy".to_string())
    );
}

#[test]
fn coerces_string_array_to_ids() {
    assert_eq!(
        from_string_array_to_u32_box(&strings(&["1", "22", "333"])),
        Ok(vec![1, 22, 333])
    );
    assert_eq!(from_string_array_to_u32_box(&strings(&[])), Ok(vec![]));
    assert_eq!(
        from_string_array_to_u32_box(&strings(&["1", "x"])),
        Err(StructuralError::BadNumber)
    );
}

#[test]
fn defaults_for_absent_fields() {
    assert_eq!(default_box_box_str_none(), None);
    assert_eq!(defualt_u32_none(), None);
    assert!(!default_bool());
    assert_eq!(default_u8(), 0);
}
