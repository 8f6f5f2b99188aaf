use vstd::prelude::*;

use crate::category::{Category, code_of, decodes_to};
use crate::text::{bool_text, bool_to_text, char_to_text, i64_text, int_text, nat_text, u64_text};
use crate::value::{kind_of, DecodeError, Expected, RawValue, ValueKind};

verus! {

/// What a required boolean field decodes to: a boolean literal as it is, an
/// unsigned integer 0 or 1 as `false` or `true`.
pub open spec fn decode_bool(v: RawValue) -> Result<bool, DecodeError> {
    match v {
        RawValue::Bool(b) => Ok(b),
        RawValue::UInt(n) => if n == 0 {
            Ok(false)
        } else if n == 1 {
            Ok(true)
        } else {
            Err(DecodeError::OutOfRangeBoolean(n))
        },
        _ => Err(DecodeError::UnsupportedShape(Expected::BoolOrBit, kind_of(v))),
    }
}

/// What an optional boolean field decodes to: any failure counts as absence.
pub open spec fn decode_mbool(v: RawValue) -> Option<bool> {
    match decode_bool(v) {
        Ok(b) => Some(b),
        Err(_) => None,
    }
}

/// The canonical wire form of a boolean: the integer 1 or 0.
pub open spec fn bit_of(b: bool) -> RawValue {
    RawValue::UInt(if b { 1 } else { 0 })
}

/// The text that a scalar decodes to, or the error for any other value.
pub open spec fn decode_text(v: RawValue) -> Result<Seq<char>, DecodeError> {
    match v {
        RawValue::Bool(b) => Ok(bool_text(b)),
        RawValue::UInt(n) => Ok(nat_text(n as nat)),
        RawValue::Int(i) => Ok(int_text(i as int)),
        RawValue::Char(c) => Ok(seq![c]),
        RawValue::Str(s) => Ok(s@),
        _ => Err(DecodeError::UnsupportedShape(Expected::Scalar, kind_of(v))),
    }
}

/// The codes held by the string elements of a list, in order; elements of
/// any other kind are skipped.
pub open spec fn string_items(items: Seq<RawValue>) -> Seq<Seq<char>>
    decreases items.len(),
{
    if items.len() == 0 {
        Seq::empty()
    } else {
        let rest = string_items(items.drop_last());
        match items.last() {
            RawValue::Str(s) => rest.push(s@),
            _ => rest,
        }
    }
}

/// The codes that a category field holds: none for null, one for a bare
/// string, the string elements of a list; any other value is an error.
pub open spec fn category_codes(v: RawValue) -> Result<Option<Seq<Seq<char>>>, DecodeError> {
    match v {
        RawValue::Null => Ok(None),
        RawValue::Str(s) => Ok(Some(seq![s@])),
        RawValue::Array(items) => Ok(Some(string_items(items@))),
        _ => Err(DecodeError::MalformedCategoryRoot(kind_of(v))),
    }
}

/// Whether `cs` is what the codes decode to, one category for each code.
pub open spec fn decodes_all(codes: Seq<Seq<char>>, cs: Seq<Category>) -> bool {
    &&& cs.len() == codes.len()
    &&& forall|i: int| 0 <= i < cs.len() ==> decodes_to(#[trigger] codes[i], cs[i])
}

/// Whether a decoded category field agrees with what the raw value holds.
pub open spec fn categories_decoded(
    v: RawValue,
    r: Result<Option<Vec<Category>>, DecodeError>,
) -> bool {
    match category_codes(v) {
        Ok(None) => r matches Ok(None),
        Ok(Some(codes)) => r matches Ok(Some(cs)) && decodes_all(codes, cs@),
        Err(e) => r == Err::<Option<Vec<Category>>, DecodeError>(e),
    }
}

/// Whether `items` is the wire list of the codes of `cs`, in order.
pub open spec fn lists_codes(items: Seq<RawValue>, cs: Seq<Category>) -> bool {
    &&& items.len() == cs.len()
    &&& forall|i: int|
        0 <= i < items.len() ==> (#[trigger] items[i] matches RawValue::Str(s) && s@ == code_of(
            cs[i],
        ))
}

/// What a boolean-or-integer field decodes to: a boolean as 1 or 0, an
/// integer that fits 64 signed bits truncated to 32 bits.
pub open spec fn decode_flex_int(v: RawValue) -> Result<Option<i32>, DecodeError> {
    match v {
        RawValue::Null => Ok(None),
        RawValue::Bool(b) => Ok(Some(if b { 1i32 } else { 0i32 })),
        RawValue::UInt(n) => if n <= i64::MAX {
            Ok(Some(n as i32))
        } else {
            Err(DecodeError::UnsupportedShape(Expected::Integer, ValueKind::Integer))
        },
        RawValue::Int(i) => Ok(Some(i as i32)),
        RawValue::Float(_) => Err(DecodeError::UnsupportedShape(Expected::Integer, ValueKind::Float)),
        _ => Err(DecodeError::UnsupportedShape(Expected::BoolOrInteger, kind_of(v))),
    }
}

/// The canonical wire form of an integer.
pub open spec fn int_value(x: i32) -> RawValue {
    if x >= 0 {
        RawValue::UInt(x as u64)
    } else {
        RawValue::Int(x as i64)
    }
}

/// The text that a string-or-number field decodes to.
pub open spec fn decode_flex_text(v: RawValue) -> Result<Option<Seq<char>>, DecodeError> {
    match v {
        RawValue::Null => Ok(None),
        RawValue::Str(s) => Ok(Some(s@)),
        RawValue::UInt(n) => Ok(Some(nat_text(n as nat))),
        RawValue::Int(i) => Ok(Some(int_text(i as int))),
        RawValue::Float(t) => Ok(Some(t@)),
        _ => Err(DecodeError::UnsupportedShape(Expected::StringOrInteger, kind_of(v))),
    }
}

/// Encodes a boolean in its canonical wire form, the integer 1 or 0.
pub fn bool_to_u8(x: &bool) -> (r: RawValue)
    ensures
        r == bit_of(*x),
{
    RawValue::UInt(if *x { 1 } else { 0 })
}

/// Decodes a required boolean field.
pub fn u8_to_bool(v: &RawValue) -> (r: Result<bool, DecodeError>)
    ensures
        r == decode_bool(*v),
{
    match v {
        RawValue::Bool(b) => Ok(*b),
        RawValue::UInt(n) => if *n == 0 {
            Ok(false)
        } else if *n == 1 {
            Ok(true)
        } else {
            Err(DecodeError::OutOfRangeBoolean(*n))
        },
        _ => Err(DecodeError::UnsupportedShape(Expected::BoolOrBit, v.kind())),
    }
}

/// Encodes an optional boolean: 1 or 0 when present, null when absent.
pub fn mbool_to_u8(mx: &Option<bool>) -> (r: RawValue)
    ensures
        r == match *mx {
            Some(x) => bit_of(x),
            None => RawValue::Null,
        },
{
    match mx {
        Some(x) => bool_to_u8(x),
        None => RawValue::Null,
    }
}

/// Decodes an optional boolean field; a value that a required field would
/// reject is taken as absent.
pub fn u8_to_mbool(v: &RawValue) -> (r: Option<bool>)
    ensures
        r == decode_mbool(*v),
{
    match u8_to_bool(v) {
        Ok(b) => Some(b),
        Err(_) => None,
    }
}

/// Decodes any scalar to its text: `true` or `false`, the decimal digits of
/// an integer, the character itself, or the string unchanged.
pub fn anything_to_string(v: &RawValue) -> (r: Result<String, DecodeError>)
    ensures
        match decode_text(*v) {
            Ok(t) => r matches Ok(s) && s@ == t,
            Err(e) => r == Err::<String, DecodeError>(e),
        },
{
    match v {
        RawValue::Bool(b) => Ok(bool_to_text(*b)),
        RawValue::UInt(n) => Ok(u64_text(*n)),
        RawValue::Int(i) => Ok(i64_text(*i)),
        RawValue::Char(c) => Ok(char_to_text(*c)),
        RawValue::Str(s) => Ok(s.clone()),
        _ => Err(DecodeError::UnsupportedShape(Expected::Scalar, v.kind())),
    }
}

/// Encodes a text field: the string itself.
pub fn string_to_value(s: &String) -> (r: RawValue)
    ensures
        r matches RawValue::Str(t) && t@ == s@,
{
    RawValue::Str(s.clone())
}

/// Decodes the string elements of a list into categories, skipping the
/// elements of any other kind.
fn categories_of_items(items: &Vec<RawValue>) -> (r: Vec<Category>)
    ensures
        decodes_all(string_items(items@), r@),
{
    let mut out: Vec<Category> = Vec::new();
    let mut i: usize = 0;
    while i < items.len()
        invariant
            i <= items@.len(),
            decodes_all(string_items(items@.take(i as int)), out@),
        decreases items@.len() - i,
    {
        assert(items@.take(i as int + 1).drop_last() == items@.take(i as int));
        match &items[i] {
            RawValue::Str(s) => {
                out.push(Category::from_code(s));
            },
            _ => {},
        }
        i += 1;
    }
    assert(items@.take(i as int) == items@);
    out
}

/// Decodes a category field given as a single code or as a list of codes;
/// codes that the table does not hold are kept as `Unknown`.
pub fn string_or_vec_category(v: &RawValue) -> (r: Result<Option<Vec<Category>>, DecodeError>)
    ensures
        categories_decoded(*v, r),
{
    match v {
        RawValue::Null => Ok(None),
        RawValue::Str(s) => {
            let c = Category::from_code(s);
            let out = vec![c];
            assert(decodes_to(seq![s@][0], out@[0]));
            Ok(Some(out))
        },
        RawValue::Array(items) => Ok(Some(categories_of_items(items))),
        _ => Err(DecodeError::MalformedCategoryRoot(v.kind())),
    }
}

/// Encodes a list of categories as the list of their codes.
pub fn category_list_to_value(cs: &Vec<Category>) -> (r: RawValue)
    ensures
        r matches RawValue::Array(items) && lists_codes(items@, cs@),
{
    let mut items: Vec<RawValue> = Vec::new();
    let mut i: usize = 0;
    while i < cs.len()
        invariant
            i <= cs@.len(),
            lists_codes(items@, cs@.take(i as int)),
        decreases cs@.len() - i,
    {
        items.push(RawValue::Str(cs[i].to_code()));
        i += 1;
    }
    assert(cs@.take(i as int) == cs@);
    RawValue::Array(items)
}

/// Decodes a field given as a boolean or as an integer into an integer.
pub fn bool_or_int_to_i32(v: &RawValue) -> (r: Result<Option<i32>, DecodeError>)
    ensures
        r == decode_flex_int(*v),
{
    match v {
        RawValue::Null => Ok(None),
        RawValue::Bool(b) => Ok(Some(if *b { 1 } else { 0 })),
        RawValue::UInt(n) => if *n <= i64::MAX as u64 {
            Ok(Some(#[verifier::truncate] (*n as i32)))
        } else {
            Err(DecodeError::UnsupportedShape(Expected::Integer, ValueKind::Integer))
        },
        RawValue::Int(i) => Ok(Some(#[verifier::truncate] (*i as i32))),
        RawValue::Float(_) => Err(DecodeError::UnsupportedShape(Expected::Integer, ValueKind::Float)),
        _ => Err(DecodeError::UnsupportedShape(Expected::BoolOrInteger, v.kind())),
    }
}

/// Encodes an integer field in its canonical wire form.
pub fn i32_to_value(x: i32) -> (r: RawValue)
    ensures
        r == int_value(x),
{
    if x >= 0 {
        RawValue::UInt(x as u64)
    } else {
        RawValue::Int(x as i64)
    }
}

/// Decodes a field given as a string or as a number into text: a string as
/// it is, a number as its decimal text.
pub fn int_or_string_to_string(v: &RawValue) -> (r: Result<Option<String>, DecodeError>)
    ensures
        match decode_flex_text(*v) {
            Ok(None) => r matches Ok(None),
            Ok(Some(t)) => r matches Ok(Some(s)) && s@ == t,
            Err(e) => r == Err::<Option<String>, DecodeError>(e),
        },
{
    match v {
        RawValue::Null => Ok(None),
        RawValue::Str(s) => Ok(Some(s.clone())),
        RawValue::UInt(n) => Ok(Some(u64_text(*n))),
        RawValue::Int(i) => Ok(Some(i64_text(*i))),
        RawValue::Float(t) => Ok(Some(t.clone())),
        _ => Err(DecodeError::UnsupportedShape(Expected::StringOrInteger, v.kind())),
    }
}

/// What a category field decodes to when it may be absent: absence is
/// `None`, like null.
pub open spec fn decode_opt_cats(f: Option<RawValue>) -> Result<Option<Seq<Seq<char>>>, DecodeError> {
    match f {
        None => Ok(None),
        Some(v) => category_codes(v),
    }
}

/// Whether an optional list of categories is what the codes decode to.
pub open spec fn cats_match(c: Option<Vec<Category>>, codes: Option<Seq<Seq<char>>>) -> bool {
    match codes {
        None => c is None,
        Some(cs) => c matches Some(v) && decodes_all(cs, v@),
    }
}

/// Whether a category entry is the wire form of `c`: a list of codes,
/// left out when there is no category.
pub open spec fn cats_entry(f: Option<RawValue>, c: Option<Vec<Category>>) -> bool {
    match c {
        Some(cs) => if cs@.len() > 0 {
            f matches Some(RawValue::Array(items)) && lists_codes(items@, cs@)
        } else {
            f is None
        },
        None => f is None,
    }
}

/// Decodes a category field that may be absent.
pub fn opt_categories(f: Option<&RawValue>) -> (r: Result<Option<Vec<Category>>, DecodeError>)
    ensures
        match decode_opt_cats(
            match f {
                Some(v) => Some(*v),
                None => None,
            },
        ) {
            Ok(codes) => r matches Ok(c) && cats_match(c, codes),
            Err(e) => r == Err::<Option<Vec<Category>>, DecodeError>(e),
        },
{
    match f {
        None => Ok(None),
        Some(v) => string_or_vec_category(v),
    }
}

/// What a boolean-or-integer field decodes to when it may be absent.
pub open spec fn decode_opt_flex_int(f: Option<RawValue>) -> Result<Option<i32>, DecodeError> {
    match f {
        None => Ok(None),
        Some(v) => decode_flex_int(v),
    }
}

/// Decodes a boolean-or-integer field that may be absent.
pub fn opt_flex_int(f: Option<&RawValue>) -> (r: Result<Option<i32>, DecodeError>)
    ensures
        r == decode_opt_flex_int(
            match f {
                Some(v) => Some(*v),
                None => None,
            },
        ),
{
    match f {
        None => Ok(None),
        Some(v) => bool_or_int_to_i32(v),
    }
}

} // verus!
