use vstd::prelude::*;

use crate::value::{kind_of, DecodeError, Expected, RawValue, ValueKind};

verus! {

/// The value of the first entry of an object under `key`, if it has one.
pub open spec fn field(entries: Seq<(String, RawValue)>, key: Seq<char>) -> Option<RawValue>
    decreases entries.len(),
{
    if entries.len() == 0 {
        None
    } else if entries[0].0@ == key {
        Some(entries[0].1)
    } else {
        field(entries.skip(1), key)
    }
}

/// The keys of an object's entries, in order.
pub open spec fn keys_of(entries: Seq<(String, RawValue)>) -> Seq<Seq<char>> {
    entries.map_values(|e: (String, RawValue)| e.0@)
}

/// Finds the first entry of an object under `key`.
pub fn lookup<'a>(entries: &'a Vec<(String, RawValue)>, key: &str) -> (r: Option<&'a RawValue>)
    ensures
        match field(entries@, key@) {
            None => r is None,
            Some(x) => r matches Some(y) && *y == x,
        },
{
    let wanted = String::from_str(key);
    let mut i: usize = 0;
    assert(entries@.skip(0) == entries@);
    while i < entries.len()
        invariant
            i <= entries@.len(),
            wanted@ == key@,
            field(entries@, key@) == field(entries@.skip(i as int), key@),
        decreases entries@.len() - i,
    {
        assert(entries@.skip(i as int).skip(1) == entries@.skip(i as int + 1));
        if entries[i].0 == wanted {
            return Some(&entries[i].1);
        }
        i += 1;
    }
    None
}

/// What an optional unsigned 32-bit field decodes to; absence and null are
/// `None`.
pub open spec fn decode_opt_u32(f: Option<RawValue>) -> Result<Option<u32>, DecodeError> {
    match f {
        None => Ok(None),
        Some(RawValue::Null) => Ok(None),
        Some(RawValue::UInt(n)) => if n <= u32::MAX {
            Ok(Some(n as u32))
        } else {
            Err(DecodeError::UnsupportedShape(Expected::Unsigned32, ValueKind::Integer))
        },
        Some(v) => Err(DecodeError::UnsupportedShape(Expected::Unsigned32, kind_of(v))),
    }
}

/// Decodes an optional unsigned 32-bit field.
pub fn opt_u32(f: Option<&RawValue>) -> (r: Result<Option<u32>, DecodeError>)
    ensures
        r == decode_opt_u32(
            match f {
                Some(v) => Some(*v),
                None => None,
            },
        ),
{
    match f {
        None => Ok(None),
        Some(RawValue::Null) => Ok(None),
        Some(RawValue::UInt(n)) => if *n <= u32::MAX as u64 {
            Ok(Some(*n as u32))
        } else {
            Err(DecodeError::UnsupportedShape(Expected::Unsigned32, ValueKind::Integer))
        },
        Some(v) => Err(DecodeError::UnsupportedShape(Expected::Unsigned32, v.kind())),
    }
}

/// What an optional string field decodes to; absence and null are `None`.
pub open spec fn decode_opt_text(f: Option<RawValue>) -> Result<Option<Seq<char>>, DecodeError> {
    match f {
        None => Ok(None),
        Some(RawValue::Null) => Ok(None),
        Some(RawValue::Str(s)) => Ok(Some(s@)),
        Some(v) => Err(DecodeError::UnsupportedShape(Expected::Text, kind_of(v))),
    }
}

/// Whether a decoded optional string agrees with its spec value.
pub open spec fn text_agrees(
    r: Result<Option<String>, DecodeError>,
    t: Result<Option<Seq<char>>, DecodeError>,
) -> bool {
    match t {
        Ok(None) => r matches Ok(None),
        Ok(Some(x)) => r matches Ok(Some(s)) && s@ == x,
        Err(e) => r == Err::<Option<String>, DecodeError>(e),
    }
}

/// Decodes an optional string field.
pub fn opt_text(f: Option<&RawValue>) -> (r: Result<Option<String>, DecodeError>)
    ensures
        text_agrees(
            r,
            decode_opt_text(
                match f {
                    Some(v) => Some(*v),
                    None => None,
                },
            ),
        ),
{
    match f {
        None => Ok(None),
        Some(RawValue::Null) => Ok(None),
        Some(RawValue::Str(s)) => Ok(Some(s.clone())),
        Some(v) => Err(DecodeError::UnsupportedShape(Expected::Text, v.kind())),
    }
}

/// The unsigned integers of a list, or the error for its first element of
/// another kind.
pub open spec fn u64_items(items: Seq<RawValue>) -> Result<Seq<u64>, DecodeError>
    decreases items.len(),
{
    if items.len() == 0 {
        Ok(Seq::empty())
    } else {
        match u64_items(items.drop_last()) {
            Err(e) => Err(e),
            Ok(ns) => match items.last() {
                RawValue::UInt(n) => Ok(ns.push(n)),
                v => Err(DecodeError::UnsupportedShape(Expected::UnsignedList, kind_of(v))),
            },
        }
    }
}

/// What a list-of-integers field decodes to; absence is the empty list.
pub open spec fn decode_u64_list(f: Option<RawValue>) -> Result<Seq<u64>, DecodeError> {
    match f {
        None => Ok(Seq::empty()),
        Some(RawValue::Array(items)) => u64_items(items@),
        Some(v) => Err(DecodeError::UnsupportedShape(Expected::UnsignedList, kind_of(v))),
    }
}

/// An error in a prefix of a list is the error of the whole list.
proof fn lemma_u64_items_error(items: Seq<RawValue>, i: int)
    requires
        0 <= i <= items.len(),
        u64_items(items.take(i)) is Err,
    ensures
        u64_items(items) == u64_items(items.take(i)),
    decreases items.len() - i,
{
    if i < items.len() {
        assert(items.take(i + 1).drop_last() == items.take(i));
        lemma_u64_items_error(items, i + 1);
    } else {
        assert(items.take(i) == items);
    }
}

/// Decodes the elements of a list as unsigned integers.
fn u64_items_of(items: &Vec<RawValue>) -> (r: Result<Vec<u64>, DecodeError>)
    ensures
        match u64_items(items@) {
            Ok(ns) => r matches Ok(out) && out@ == ns,
            Err(e) => r == Err::<Vec<u64>, DecodeError>(e),
        },
{
    let mut out: Vec<u64> = Vec::new();
    let mut i: usize = 0;
    while i < items.len()
        invariant
            i <= items@.len(),
            u64_items(items@.take(i as int)) == Ok::<Seq<u64>, DecodeError>(out@),
        decreases items@.len() - i,
    {
        assert(items@.take(i as int + 1).drop_last() == items@.take(i as int));
        match &items[i] {
            RawValue::UInt(n) => {
                out.push(*n);
            },
            v => {
                let e = DecodeError::UnsupportedShape(Expected::UnsignedList, v.kind());
                assert(items@.take(i as int + 1).last() == items@[i as int]);
                assert(u64_items(items@.take(i as int + 1)) == Err::<Seq<u64>, DecodeError>(e));
                proof { lemma_u64_items_error(items@, i as int + 1); }
                return Err(e);
            },
        }
        i += 1;
    }
    assert(items@.take(i as int) == items@);
    Ok(out)
}

/// Decodes a list-of-integers field.
pub fn u64_list(f: Option<&RawValue>) -> (r: Result<Vec<u64>, DecodeError>)
    ensures
        match decode_u64_list(
            match f {
                Some(v) => Some(*v),
                None => None,
            },
        ) {
            Ok(ns) => r matches Ok(out) && out@ == ns,
            Err(e) => r == Err::<Vec<u64>, DecodeError>(e),
        },
{
    match f {
        None => Ok(Vec::new()),
        Some(RawValue::Array(items)) => u64_items_of(items),
        Some(v) => Err(DecodeError::UnsupportedShape(Expected::UnsignedList, v.kind())),
    }
}

/// The wire list of unsigned integers.
pub open spec fn lists_u64(items: Seq<RawValue>, ns: Seq<u64>) -> bool {
    &&& items.len() == ns.len()
    &&& forall|i: int| 0 <= i < items.len() ==> #[trigger] items[i] == RawValue::UInt(ns[i])
}

/// Encodes a list of unsigned integers.
pub fn u64_list_to_value(ns: &Vec<u64>) -> (r: RawValue)
    ensures
        r matches RawValue::Array(items) && lists_u64(items@, ns@),
{
    let mut items: Vec<RawValue> = Vec::new();
    let mut i: usize = 0;
    while i < ns.len()
        invariant
            i <= ns@.len(),
            lists_u64(items@, ns@.take(i as int)),
        decreases ns@.len() - i,
    {
        items.push(RawValue::UInt(ns[i]));
        i += 1;
    }
    assert(ns@.take(i as int) == ns@);
    RawValue::Array(items)
}

/// Looking a key up after one more entry: an earlier entry under the key
/// still wins, else the new entry counts if its key is the one sought.
pub proof fn lemma_field_push(es: Seq<(String, RawValue)>, k: String, v: RawValue, key: Seq<char>)
    ensures
        field(es.push((k, v)), key) == match field(es, key) {
            Some(x) => Some(x),
            None => if k@ == key {
                Some(v)
            } else {
                None
            },
        },
    decreases es.len(),
{
    if es.len() > 0 {
        assert(es.push((k, v)).skip(1) == es.skip(1).push((k, v)));
        lemma_field_push(es.skip(1), k, v, key);
    } else {
        assert(es.push((k, v)).skip(1) == es);
    }
}

/// The unsigned integers of a wire list are the ones it was made from.
pub proof fn lemma_u64_items_of_list(items: Seq<RawValue>, ns: Seq<u64>)
    requires
        lists_u64(items, ns),
    ensures
        u64_items(items) == Ok::<Seq<u64>, DecodeError>(ns),
    decreases items.len(),
{
    if items.len() > 0 {
        lemma_u64_items_of_list(items.drop_last(), ns.drop_last());
        assert(ns.drop_last().push(ns.last()) == ns);
    } else {
        assert(ns == Seq::<u64>::empty());
    }
}

/// What a required string field decodes to.
pub open spec fn decode_req_text(f: Option<RawValue>) -> Result<Seq<char>, DecodeError> {
    match f {
        None => Err(DecodeError::MissingField),
        Some(RawValue::Str(s)) => Ok(s@),
        Some(v) => Err(DecodeError::UnsupportedShape(Expected::Text, kind_of(v))),
    }
}

/// Decodes a required string field.
pub fn req_text(f: Option<&RawValue>) -> (r: Result<String, DecodeError>)
    ensures
        match decode_req_text(
            match f {
                Some(v) => Some(*v),
                None => None,
            },
        ) {
            Ok(t) => r matches Ok(s) && s@ == t,
            Err(e) => r == Err::<String, DecodeError>(e),
        },
{
    match f {
        None => Err(DecodeError::MissingField),
        Some(RawValue::Str(s)) => Ok(s.clone()),
        Some(v) => Err(DecodeError::UnsupportedShape(Expected::Text, v.kind())),
    }
}

/// Whether an optional string holds the text `t`, or nothing when `t` is
/// `None`.
pub open spec fn opt_text_is(s: Option<String>, t: Option<Seq<char>>) -> bool {
    match t {
        None => s is None,
        Some(x) => s matches Some(y) && y@ == x,
    }
}

/// Whether an optional string entry is the wire form of `s`.
pub open spec fn text_entry(f: Option<RawValue>, s: Option<String>) -> bool {
    match s {
        Some(t) => f matches Some(RawValue::Str(u)) && u@ == t@,
        None => f is None,
    }
}

/// Appends an entry under a key that the object does not hold yet.
pub fn push_entry(es: &mut Vec<(String, RawValue)>, key: &str, val: RawValue)
    requires
        field(old(es)@, key@) is None,
    ensures
        keys_of(final(es)@) == keys_of(old(es)@).push(key@),
        field(final(es)@, key@) == Some(val),
        forall|k: Seq<char>| k != key@ ==> #[trigger] field(final(es)@, k) == field(old(es)@, k),
{
    let k = String::from_str(key);
    proof {
        assert forall|q: Seq<char>| true implies #[trigger] field(old(es)@.push((k, val)), q) == match field(old(es)@, q) {
            Some(x) => Some(x),
            None => if k@ == q {
                Some(val)
            } else {
                None
            },
        } by {
            lemma_field_push(old(es)@, k, val, q);
        }
    }
    es.push((k, val));
    assert(keys_of(final(es)@) =~= keys_of(old(es)@).push(key@));
}

} // verus!
