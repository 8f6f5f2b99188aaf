use vstd::prelude::*;

use crate::coerce::{bit_of, decode_mbool, mbool_to_u8, u8_to_mbool};
use crate::fields::{
    decode_opt_u32, decode_u64_list, field, keys_of, lemma_field_push, lemma_u64_items_of_list,
    lists_u64, lookup, opt_u32, u64_list, u64_list_to_value,
};
use crate::value::{kind_of, DecodeError, Expected, RawValue};

verus! {

/// A banner impression: its exact size, the creative attributes it blocks,
/// and whether it sits in the top frame rather than in an iframe.
#[derive(Debug, Clone, PartialEq, Eq)]
pub struct Banner {
    /// Exact width in device independent pixels.
    pub w: Option<u32>,
    /// Exact height in device independent pixels.
    pub h: Option<u32>,
    /// Blocked creative attributes.
    pub battr: Vec<u64>,
    /// Whether the banner is in the top frame; 1 is yes, 0 is no on the wire.
    pub topframe: Option<bool>,
}

/// What the `topframe` entry decodes to: absent, or an optional boolean.
pub open spec fn decode_topframe(f: Option<RawValue>) -> Option<bool> {
    match f {
        Some(x) => decode_mbool(x),
        None => None,
    }
}

/// Whether `r` is what the wire value `v` decodes to as a banner.
pub open spec fn banner_decoded(v: RawValue, r: Result<Banner, DecodeError>) -> bool {
    match v {
        RawValue::Object(es) => match (
            decode_opt_u32(field(es@, "w"@)),
            decode_opt_u32(field(es@, "h"@)),
            decode_u64_list(field(es@, "battr"@)),
        ) {
            (Ok(w), Ok(h), Ok(ns)) => r matches Ok(b) && b.w == w && b.h == h && b.battr@ == ns
                && b.topframe == decode_topframe(field(es@, "topframe"@)),
            (Err(e), _, _) => r == Err::<Banner, DecodeError>(e),
            (Ok(_), Err(e), _) => r == Err::<Banner, DecodeError>(e),
            (Ok(_), Ok(_), Err(e)) => r == Err::<Banner, DecodeError>(e),
        },
        _ => r == Err::<Banner, DecodeError>(DecodeError::UnsupportedShape(Expected::Object, kind_of(v))),
    }
}

/// The keys that a banner is written with, in order: each optional field
/// only when present, the attribute list only when it is not empty.
pub open spec fn banner_keys(b: Banner) -> Seq<Seq<char>> {
    (if b.w is Some { seq!["w"@] } else { Seq::empty() })
        + (if b.h is Some { seq!["h"@] } else { Seq::empty() })
        + (if b.battr@.len() > 0 { seq!["battr"@] } else { Seq::empty() })
        + (if b.topframe is Some { seq!["topframe"@] } else { Seq::empty() })
}

/// Whether `v` is the wire form of banner `b`: its keys in order, integers
/// as they are, `topframe` as 1 or 0.
pub open spec fn banner_encoded(b: Banner, v: RawValue) -> bool {
    v matches RawValue::Object(es) && {
        &&& keys_of(es@) == banner_keys(b)
        &&& field(es@, "w"@) == match b.w {
            Some(n) => Some(RawValue::UInt(n as u64)),
            None => None,
        }
        &&& field(es@, "h"@) == match b.h {
            Some(n) => Some(RawValue::UInt(n as u64)),
            None => None,
        }
        &&& if b.battr@.len() > 0 {
            field(es@, "battr"@) matches Some(RawValue::Array(items)) && lists_u64(items@, b.battr@)
        } else {
            field(es@, "battr"@) is None
        }
        &&& field(es@, "topframe"@) == match b.topframe {
            Some(t) => Some(bit_of(t)),
            None => None,
        }
    }
}

/// The keys of a banner's wire form are distinct.
proof fn lemma_banner_keys_distinct()
    ensures
        "w"@ != "h"@,
        "w"@ != "battr"@,
        "w"@ != "topframe"@,
        "h"@ != "battr"@,
        "h"@ != "topframe"@,
        "battr"@ != "topframe"@,
{
    reveal_strlit("w");
    reveal_strlit("h");
    reveal_strlit("battr");
    reveal_strlit("topframe");
    assert("w"@[0] != "h"@[0]);
    assert("w"@.len() != "battr"@.len());
    assert("w"@.len() != "topframe"@.len());
    assert("h"@.len() != "battr"@.len());
    assert("h"@.len() != "topframe"@.len());
    assert("battr"@.len() != "topframe"@.len());
}

impl Default for Banner {
    fn default() -> (r: Banner)
        ensures
            r.w is None && r.h is None && r.battr@.len() == 0 && r.topframe is None,
    {
        Banner { w: None, h: None, battr: Vec::new(), topframe: None }
    }
}

impl Banner {
    /// Decodes a banner from the wire. Missing fields take their defaults;
    /// a malformed `topframe` counts as absent.
    pub fn from_value(v: &RawValue) -> (r: Result<Banner, DecodeError>)
        ensures
            banner_decoded(*v, r),
    {
        match v {
            RawValue::Object(es) => {
                let w = match opt_u32(lookup(es, "w")) {
                    Ok(w) => w,
                    Err(e) => return Err(e),
                };
                let h = match opt_u32(lookup(es, "h")) {
                    Ok(h) => h,
                    Err(e) => return Err(e),
                };
                let battr = match u64_list(lookup(es, "battr")) {
                    Ok(ns) => ns,
                    Err(e) => return Err(e),
                };
                let topframe = match lookup(es, "topframe") {
                    Some(x) => u8_to_mbool(x),
                    None => None,
                };
                Ok(Banner { w, h, battr, topframe })
            },
            _ => Err(DecodeError::UnsupportedShape(Expected::Object, v.kind())),
        }
    }

    /// Encodes a banner; absent fields and an empty attribute list are left
    /// out, and `topframe` is written as 1 or 0.
    pub fn to_value(&self) -> (r: RawValue)
        ensures
            banner_encoded(*self, r),
    {
        proof { lemma_banner_keys_distinct(); }
        let mut es: Vec<(String, RawValue)> = Vec::new();
        let ghost keys: Seq<Seq<char>> = Seq::empty();
        assert(keys_of(es@) == keys);
        if let Some(n) = self.w {
            let k = String::from_str("w");
            proof { lemma_field_push(es@, k, RawValue::UInt(n as u64), "w"@); lemma_field_push(es@, k, RawValue::UInt(n as u64), "h"@); lemma_field_push(es@, k, RawValue::UInt(n as u64), "battr"@); lemma_field_push(es@, k, RawValue::UInt(n as u64), "topframe"@); }
            es.push((k, RawValue::UInt(n as u64)));
            proof { keys = keys.push("w"@); }
            assert(keys_of(es@) =~= keys);
        }
        if let Some(n) = self.h {
            let k = String::from_str("h");
            proof { lemma_field_push(es@, k, RawValue::UInt(n as u64), "w"@); lemma_field_push(es@, k, RawValue::UInt(n as u64), "h"@); lemma_field_push(es@, k, RawValue::UInt(n as u64), "battr"@); lemma_field_push(es@, k, RawValue::UInt(n as u64), "topframe"@); }
            es.push((k, RawValue::UInt(n as u64)));
            proof { keys = keys.push("h"@); }
            assert(keys_of(es@) =~= keys);
        }
        if self.battr.len() > 0 {
            let k = String::from_str("battr");
            let list = u64_list_to_value(&self.battr);
            proof { lemma_field_push(es@, k, list, "w"@); lemma_field_push(es@, k, list, "h"@); lemma_field_push(es@, k, list, "battr"@); lemma_field_push(es@, k, list, "topframe"@); }
            es.push((k, list));
            proof { keys = keys.push("battr"@); }
            assert(keys_of(es@) =~= keys);
        }
        if let Some(_) = self.topframe {
            let k = String::from_str("topframe");
            let bit = mbool_to_u8(&self.topframe);
            proof { lemma_field_push(es@, k, bit, "w"@); lemma_field_push(es@, k, bit, "h"@); lemma_field_push(es@, k, bit, "battr"@); lemma_field_push(es@, k, bit, "topframe"@); }
            es.push((k, bit));
            proof { keys = keys.push("topframe"@); }
            assert(keys_of(es@) =~= keys);
        }
        assert(keys =~= banner_keys(*self));
        RawValue::Object(es)
    }
}

/// A banner, encoded and decoded again, is the same banner.
pub proof fn lemma_banner_round_trip(b: Banner, v: RawValue, r: Result<Banner, DecodeError>)
    requires
        banner_encoded(b, v),
        banner_decoded(v, r),
    ensures
        r matches Ok(d) && d.w == b.w && d.h == b.h && d.battr@ == b.battr@ && d.topframe
            == b.topframe,
{
    if let RawValue::Object(es) = v {
        if b.battr@.len() > 0 {
            if let Some(RawValue::Array(items)) = field(es@, "battr"@) {
                lemma_u64_items_of_list(items@, b.battr@);
            }
        } else {
            assert(b.battr@ == Seq::<u64>::empty());
        }
    }
}

} // verus!
