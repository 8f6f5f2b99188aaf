use vstd::prelude::*;

verus! {

/// The value a boolean field takes when it is absent from a message.
pub fn default_false() -> (r: bool)
    ensures
        r == false,
{
    false
}

/// Whether a boolean field that defaults to `false` is left out on encode.
pub fn is_false(x: &bool) -> (r: bool)
    ensures
        r == !*x,
{
    !*x
}

/// Whether an optional list is left out on encode: it is absent or empty.
pub fn is_none_or_empty<T>(v: &Option<Vec<T>>) -> (r: bool)
    ensures
        r == match v {
            None => true,
            Some(items) => items@.len() == 0,
        },
{
    if let Some(items) = v {
        items.len() == 0
    } else {
        true
    }
}

} // verus!
