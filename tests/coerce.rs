use openrtb::category::Category;
use openrtb::{
    anything_to_string, bool_or_int_to_i32, bool_to_u8, category_list_to_value, default_false,
    i32_to_value, int_or_string_to_string, is_false, is_none_or_empty, mbool_to_u8,
    string_or_vec_category, string_to_value, u8_to_bool, u8_to_mbool, DecodeError, Expected,
    RawValue, ValueKind,
};

fn text(s: &str) -> RawValue {
    RawValue::Str(s.to_string())
}

#[test]
fn bool_accepted_shapes_encode_canonically() {
    let cases: Vec<(RawValue, u64)> = vec![
        (RawValue::Bool(true), 1),
        (RawValue::Bool(false), 0),
        (RawValue::UInt(0u8 as u64), 0),
        (RawValue::UInt(1u8 as u64), 1),
        (RawValue::UInt(0u16 as u64), 0),
        (RawValue::UInt(1u16 as u64), 1),
        (RawValue::UInt(0u32 as u64), 0),
        (RawValue::UInt(1u32 as u64), 1),
        (RawValue::UInt(0u64), 0),
        (RawValue::UInt(1u64), 1),
    ];
    for (raw, bit) in cases {
        let b = u8_to_bool(&raw).unwrap();
        assert_eq!(bool_to_u8(&b), RawValue::UInt(bit));
        assert_eq!(mbool_to_u8(&u8_to_mbool(&raw)), RawValue::UInt(bit));
    }
}

#[test]
fn bool_out_of_range_is_error_or_absent() {
    let raw = RawValue::UInt(2u8 as u64);
    assert_eq!(u8_to_bool(&raw), Err(DecodeError::OutOfRangeBoolean(2)));
    assert_eq!(u8_to_mbool(&raw), None);
    let big = RawValue::UInt(u64::MAX);
    assert_eq!(u8_to_bool(&big), Err(DecodeError::OutOfRangeBoolean(u64::MAX)));
    assert_eq!(u8_to_mbool(&big), None);
}

#[test]
fn bool_rejects_other_shapes() {
    assert_eq!(
        u8_to_bool(&text("true")),
        Err(DecodeError::UnsupportedShape(Expected::BoolOrBit, ValueKind::Text))
    );
    assert_eq!(
        u8_to_bool(&RawValue::Int(-1)),
        Err(DecodeError::UnsupportedShape(Expected::BoolOrBit, ValueKind::Integer))
    );
    assert_eq!(
        u8_to_bool(&RawValue::Float("1.0".to_string())),
        Err(DecodeError::UnsupportedShape(Expected::BoolOrBit, ValueKind::Float))
    );
    assert_eq!(
        u8_to_bool(&RawValue::Array(vec![])),
        Err(DecodeError::UnsupportedShape(Expected::BoolOrBit, ValueKind::Array))
    );
    assert_eq!(u8_to_mbool(&RawValue::Null), None);
    assert_eq!(mbool_to_u8(&None), RawValue::Null);
}

#[test]
fn omission_predicates() {
    assert!(!default_false());
    assert!(is_false(&false));
    assert!(!is_false(&true));
    assert!(is_none_or_empty::<u64>(&None));
    assert!(is_none_or_empty::<u64>(&Some(vec![])));
    assert!(!is_none_or_empty(&Some(vec![1u64])));
}

#[test]
fn any_scalar_to_text() {
    assert_eq!(anything_to_string(&RawValue::Bool(true)).unwrap(), "true");
    assert_eq!(anything_to_string(&RawValue::Bool(false)).unwrap(), "false");
    assert_eq!(anything_to_string(&RawValue::UInt(14014)).unwrap(), "14014");
    assert_eq!(anything_to_string(&RawValue::UInt(0)).unwrap(), "0");
    assert_eq!(anything_to_string(&RawValue::Int(-42)).unwrap(), "-42");
    assert_eq!(anything_to_string(&RawValue::Int(i64::MIN)).unwrap(), "-9223372036854775808");
    assert_eq!(anything_to_string(&RawValue::Char('x')).unwrap(), "x");
    assert_eq!(anything_to_string(&text("site123")).unwrap(), "site123");
    assert_eq!(
        anything_to_string(&RawValue::Null),
        Err(DecodeError::UnsupportedShape(Expected::Scalar, ValueKind::Null))
    );
    assert_eq!(
        anything_to_string(&RawValue::Object(vec![])),
        Err(DecodeError::UnsupportedShape(Expected::Scalar, ValueKind::Object))
    );
}

#[test]
fn text_round_trip() {
    let decoded = anything_to_string(&RawValue::UInt(300)).unwrap();
    let encoded = string_to_value(&decoded);
    assert_eq!(encoded, text("300"));
    assert_eq!(anything_to_string(&encoded).unwrap(), decoded);
}

#[test]
fn unknown_category_kept_verbatim() {
    let cats = string_or_vec_category(&text("XYZ999")).unwrap().unwrap();
    assert_eq!(cats, vec![Category::Unknown("XYZ999".to_string())]);
    assert_eq!(category_list_to_value(&cats), RawValue::Array(vec![text("XYZ999")]));
}

#[test]
fn bare_code_same_as_list() {
    let bare = string_or_vec_category(&text("IAB1")).unwrap();
    let list = string_or_vec_category(&RawValue::Array(vec![text("IAB1")])).unwrap();
    assert_eq!(bare, list);
    assert_eq!(bare, Some(vec![Category::IAB1]));
}

#[test]
fn category_list_skips_non_strings() {
    let raw = RawValue::Array(vec![
        text("IAB2"),
        RawValue::UInt(7),
        RawValue::Null,
        text("IAB1-6"),
        text("nope"),
    ]);
    let cats = string_or_vec_category(&raw).unwrap().unwrap();
    assert_eq!(
        cats,
        vec![Category::IAB2, Category::IAB1_6, Category::Unknown("nope".to_string())]
    );
}

#[test]
fn category_field_null_and_errors() {
    assert_eq!(string_or_vec_category(&RawValue::Null), Ok(None));
    assert_eq!(
        string_or_vec_category(&RawValue::UInt(1)),
        Err(DecodeError::MalformedCategoryRoot(ValueKind::Integer))
    );
    assert_eq!(
        string_or_vec_category(&RawValue::Object(vec![])),
        Err(DecodeError::MalformedCategoryRoot(ValueKind::Object))
    );
}

#[test]
fn empty_category_list_is_omitted() {
    let cats = string_or_vec_category(&RawValue::Array(vec![])).unwrap();
    assert_eq!(cats, Some(vec![]));
    assert!(is_none_or_empty(&cats));
}

#[test]
fn category_round_trip() {
    let raw = RawValue::Array(vec![text("IAB26"), text("IAB1-1"), text("IAB99-3")]);
    let cats = string_or_vec_category(&raw).unwrap().unwrap();
    let encoded = category_list_to_value(&cats);
    assert_eq!(encoded, raw);
    assert_eq!(string_or_vec_category(&encoded).unwrap().unwrap(), cats);
}

#[test]
fn category_codes_both_ways() {
    assert_eq!(Category::from_code(&"IAB17".to_string()), Category::IAB17);
    assert_eq!(Category::IAB1_7.to_code(), "IAB1-7");
    assert_eq!(Category::Unknown("IAB1".to_string()).to_code(), "IAB1");
    assert_ne!(Category::IAB1, Category::IAB2);
    assert_ne!(Category::IAB1, Category::Unknown("IAB1".to_string()));
}

#[test]
fn flex_int_decoding() {
    assert_eq!(bool_or_int_to_i32(&RawValue::Bool(true)), Ok(Some(1)));
    assert_eq!(bool_or_int_to_i32(&RawValue::Bool(false)), Ok(Some(0)));
    assert_eq!(bool_or_int_to_i32(&RawValue::UInt(1)), Ok(Some(1)));
    assert_eq!(bool_or_int_to_i32(&RawValue::Int(-5)), Ok(Some(-5)));
    assert_eq!(bool_or_int_to_i32(&RawValue::UInt(4294967297)), Ok(Some(1)));
    assert_eq!(bool_or_int_to_i32(&RawValue::Null), Ok(None));
    assert_eq!(
        bool_or_int_to_i32(&RawValue::UInt(u64::MAX)),
        Err(DecodeError::UnsupportedShape(Expected::Integer, ValueKind::Integer))
    );
    assert_eq!(
        bool_or_int_to_i32(&RawValue::Float("1.5".to_string())),
        Err(DecodeError::UnsupportedShape(Expected::Integer, ValueKind::Float))
    );
    assert_eq!(
        bool_or_int_to_i32(&text("1")),
        Err(DecodeError::UnsupportedShape(Expected::BoolOrInteger, ValueKind::Text))
    );
}

#[test]
fn flex_int_round_trip() {
    for x in [0i32, 1, -1, i32::MAX, i32::MIN] {
        assert_eq!(bool_or_int_to_i32(&i32_to_value(x)), Ok(Some(x)));
    }
    assert_eq!(i32_to_value(7), RawValue::UInt(7));
    assert_eq!(i32_to_value(-7), RawValue::Int(-7));
}

#[test]
fn flex_text_decoding() {
    assert_eq!(int_or_string_to_string(&text("abc")), Ok(Some("abc".to_string())));
    assert_eq!(int_or_string_to_string(&RawValue::UInt(123)), Ok(Some("123".to_string())));
    assert_eq!(int_or_string_to_string(&RawValue::Int(-9)), Ok(Some("-9".to_string())));
    assert_eq!(
        int_or_string_to_string(&RawValue::Float("2.5".to_string())),
        Ok(Some("2.5".to_string()))
    );
    assert_eq!(int_or_string_to_string(&RawValue::Null), Ok(None));
    assert_eq!(
        int_or_string_to_string(&RawValue::Bool(true)),
        Err(DecodeError::UnsupportedShape(Expected::StringOrInteger, ValueKind::Bool))
    );
    let decoded = int_or_string_to_string(&RawValue::UInt(42)).unwrap().unwrap();
    assert_eq!(int_or_string_to_string(&string_to_value(&decoded)), Ok(Some(decoded)));
}
