//! Tolerant field codecs for an ad-bidding JSON protocol.
//!
//! Senders disagree on the wire shape of simple fields: booleans come as
//! integers, category codes as a bare string or as a list, numbers as
//! strings. The decoders here accept those shapes and normalise them; the
//! encoders always write the canonical shape. Every decoder works on a
//! [`RawValue`], the parsed value of one field.
use vstd::prelude::*;

pub mod banner;
pub mod category;
pub mod coerce;
pub mod fields;
pub mod laws;
pub mod omit;
pub mod publisher;
pub mod site;
pub mod text;
pub mod value;

pub use category::Category;
pub use coerce::{
    anything_to_string, bool_or_int_to_i32, bool_to_u8, category_list_to_value, i32_to_value,
    int_or_string_to_string, mbool_to_u8, string_or_vec_category, string_to_value, u8_to_bool,
    u8_to_mbool,
};
pub use omit::{default_false, is_false, is_none_or_empty};
pub use value::{DecodeError, Expected, RawValue, ValueKind};

verus! {

} // verus!
