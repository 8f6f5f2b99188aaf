use vstd::prelude::*;

use crate::category::Category;
use crate::coerce::{cats_entry, cats_match, category_list_to_value, decode_opt_cats, opt_categories};
use crate::fields::{
    decode_opt_text, decode_req_text, field, keys_of, lemma_field_push, lookup, opt_text,
    opt_text_is, req_text, text_entry,
};
use crate::value::{kind_of, DecodeError, Expected, RawValue};

verus! {

/// The publisher of the medium in which an ad is shown.
#[derive(Debug, Clone, PartialEq, Eq)]
pub struct Publisher {
    /// Exchange-specific publisher ID.
    pub id: String,
    /// Publisher name.
    pub name: Option<String>,
    /// Content categories of the publisher.
    pub cat: Option<Vec<Category>>,
    /// Highest level domain of the publisher.
    pub domain: Option<String>,
}

/// The first field of a publisher that fails to decode, in field order, or
/// `None` when every field decodes.
pub open spec fn publisher_error(v: RawValue) -> Option<DecodeError> {
    match v {
        RawValue::Object(es) => {
            if decode_req_text(field(es@, "id"@)) is Err {
                Some(decode_req_text(field(es@, "id"@))->Err_0)
            } else if decode_opt_text(field(es@, "name"@)) is Err {
                Some(decode_opt_text(field(es@, "name"@))->Err_0)
            } else if decode_opt_cats(field(es@, "cat"@)) is Err {
                Some(decode_opt_cats(field(es@, "cat"@))->Err_0)
            } else if decode_opt_text(field(es@, "domain"@)) is Err {
                Some(decode_opt_text(field(es@, "domain"@))->Err_0)
            } else {
                None
            }
        },
        _ => Some(DecodeError::UnsupportedShape(Expected::Object, kind_of(v))),
    }
}

/// Whether the fields of `x` are what the fields of the wire value `v`
/// decode to.
pub open spec fn publisher_fields_ok(v: RawValue, x: Publisher) -> bool {
    match v {
        RawValue::Object(es) => {
            &&& x.id@ == decode_req_text(field(es@, "id"@))->Ok_0
            &&& opt_text_is(x.name, decode_opt_text(field(es@, "name"@))->Ok_0)
            &&& cats_match(x.cat, decode_opt_cats(field(es@, "cat"@))->Ok_0)
            &&& opt_text_is(x.domain, decode_opt_text(field(es@, "domain"@))->Ok_0)
        },
        _ => false,
    }
}

/// Whether `r` is what the wire value `v` decodes to as a publisher.
pub open spec fn publisher_decoded(v: RawValue, r: Result<Publisher, DecodeError>) -> bool {
    match publisher_error(v) {
        Some(e) => r == Err::<Publisher, DecodeError>(e),
        None => r matches Ok(x) && publisher_fields_ok(v, x),
    }
}

/// The keys that a publisher is written with, in order: each optional field
/// only when present, a category list only when it is not empty.
pub open spec fn publisher_keys(x: Publisher) -> Seq<Seq<char>> {
    seq!["id"@]
        + (if x.name is Some { seq!["name"@] } else { Seq::empty() })
        + (if x.cat matches Some(cs) && cs@.len() > 0 { seq!["cat"@] } else { Seq::empty() })
        + (if x.domain is Some { seq!["domain"@] } else { Seq::empty() })
}

/// Whether `v` is the wire form of publisher `x`.
pub open spec fn publisher_encoded(x: Publisher, v: RawValue) -> bool
{
    match v {
        RawValue::Object(es) => {
            &&& keys_of(es@) == publisher_keys(x)
            &&& field(es@, "id"@) matches Some(RawValue::Str(s)) && s@ == x.id@
            &&& text_entry(field(es@, "name"@), x.name)
            &&& cats_entry(field(es@, "cat"@), x.cat)
            &&& text_entry(field(es@, "domain"@), x.domain)
        },
        _ => false,
    }
}

/// The keys of a publisher's wire form are distinct.
proof fn lemma_publisher_keys_distinct()
    ensures
        "id"@ != "name"@,
        "id"@ != "cat"@,
        "id"@ != "domain"@,
        "name"@ != "cat"@,
        "name"@ != "domain"@,
        "cat"@ != "domain"@,
{
    reveal_strlit("id");
    reveal_strlit("name");
    reveal_strlit("cat");
    reveal_strlit("domain");
    assert("id"@.len() != "name"@.len());
    assert("id"@.len() != "cat"@.len());
    assert("id"@.len() != "domain"@.len());
    assert("name"@.len() != "cat"@.len());
    assert("name"@.len() != "domain"@.len());
    assert("cat"@.len() != "domain"@.len());
}

impl Default for Publisher {
    fn default() -> (r: Publisher)
        ensures
            r.id@.len() == 0 && r.name is None && r.cat is None && r.domain is None,
    {
        let id = String::new();
        Publisher { id, name: None, cat: None, domain: None }
    }
}

impl Publisher {
    /// Decodes a publisher from the wire. Missing optional fields are `None`.
    pub fn from_value(v: &RawValue) -> (r: Result<Publisher, DecodeError>)
        ensures
            publisher_decoded(*v, r),
    {
        match v {
            RawValue::Object(es) => {
                let id = match req_text(lookup(es, "id")) {
                    Ok(x) => x,
                    Err(e) => return Err(e),
                };
                let name = match opt_text(lookup(es, "name")) {
                    Ok(x) => x,
                    Err(e) => return Err(e),
                };
                let cat = match opt_categories(lookup(es, "cat")) {
                    Ok(x) => x,
                    Err(e) => return Err(e),
                };
                let domain = match opt_text(lookup(es, "domain")) {
                    Ok(x) => x,
                    Err(e) => return Err(e),
                };
                Ok(Publisher { id, name, cat, domain })
            },
            _ => Err(DecodeError::UnsupportedShape(Expected::Object, v.kind())),
        }
    }

    /// Encodes a publisher; absent fields and empty category lists are left out.
    pub fn to_value(&self) -> (r: RawValue)
        ensures
            publisher_encoded(*self, r),
    {
        proof { lemma_publisher_keys_distinct(); }
        let mut es: Vec<(String, RawValue)> = Vec::new();
        let ghost keys: Seq<Seq<char>> = Seq::empty();
        assert(keys_of(es@) == keys);
        {
            let k = String::from_str("id");
            let val = RawValue::Str(self.id.clone());
            proof { lemma_field_push(es@, k, val, "id"@); lemma_field_push(es@, k, val, "name"@); lemma_field_push(es@, k, val, "cat"@); lemma_field_push(es@, k, val, "domain"@); }
            es.push((k, val));
            proof { keys = keys.push("id"@); }
            assert(keys_of(es@) =~= keys);
        }
        if let Some(t) = &self.name {
            let k = String::from_str("name");
            let val = RawValue::Str(t.clone());
            proof { lemma_field_push(es@, k, val, "id"@); lemma_field_push(es@, k, val, "name"@); lemma_field_push(es@, k, val, "cat"@); lemma_field_push(es@, k, val, "domain"@); }
            es.push((k, val));
            proof { keys = keys.push("name"@); }
            assert(keys_of(es@) =~= keys);
        }
        if let Some(cs) = &self.cat {
            if cs.len() > 0 {
                let k = String::from_str("cat");
                let val = category_list_to_value(cs);
                proof { lemma_field_push(es@, k, val, "id"@); lemma_field_push(es@, k, val, "name"@); lemma_field_push(es@, k, val, "cat"@); lemma_field_push(es@, k, val, "domain"@); }
                es.push((k, val));
                proof { keys = keys.push("cat"@); }
                assert(keys_of(es@) =~= keys);
            }
        }
        if let Some(t) = &self.domain {
            let k = String::from_str("domain");
            let val = RawValue::Str(t.clone());
            proof { lemma_field_push(es@, k, val, "id"@); lemma_field_push(es@, k, val, "name"@); lemma_field_push(es@, k, val, "cat"@); lemma_field_push(es@, k, val, "domain"@); }
            es.push((k, val));
            proof { keys = keys.push("domain"@); }
            assert(keys_of(es@) =~= keys);
        }
        assert(keys =~= publisher_keys(*self));
        RawValue::Object(es)
    }
}

/// The error of an optional publisher entry: none when it is absent or null.
pub open spec fn publisher_field_error(f: Option<RawValue>) -> Option<DecodeError> {
    match f {
        None => None,
        Some(RawValue::Null) => None,
        Some(v) => publisher_error(v),
    }
}

/// Whether an optional publisher is what its entry decodes to.
pub open spec fn publisher_field_ok(f: Option<RawValue>, p: Option<Publisher>) -> bool {
    match f {
        None => p is None,
        Some(RawValue::Null) => p is None,
        Some(v) => p matches Some(q) && publisher_fields_ok(v, q),
    }
}

} // verus!
