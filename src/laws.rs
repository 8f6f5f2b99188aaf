use vstd::prelude::*;

use crate::category::{
    code_of, decodes_to, is_canonical, known_of, lemma_code_round_trip, lemma_decoded_canonical,
    same_category, Category,
};
use crate::coerce::{
    bit_of, categories_decoded, cats_entry, cats_match, decode_bool, decode_flex_int,
    decode_flex_text, decode_mbool, decode_opt_cats, decode_text, int_value, lists_codes,
    string_items,
};
use crate::publisher::{publisher_decoded, publisher_encoded, publisher_error, Publisher};
use crate::site::{site_decoded, site_encoded, Site};
use crate::fields::field;
use crate::value::{DecodeError, RawValue};

verus! {

/// A boolean field accepts exactly the literals `true` and `false` and the
/// unsigned integers 0 and 1, and re-encodes each as the integer 1 for
/// `true` and 1, and 0 for `false` and 0.
pub proof fn lemma_bool_canonical(v: RawValue)
    ensures
        decode_bool(v) is Ok <==> (v is Bool || v == RawValue::UInt(0) || v == RawValue::UInt(1)),
        decode_bool(v) matches Ok(b) ==> bit_of(b) == (if v == RawValue::Bool(true) || v
            == RawValue::UInt(1) {
            RawValue::UInt(1)
        } else {
            RawValue::UInt(0)
        }),
{
}

/// An integer other than 0 or 1 is an out-of-range error for a required
/// boolean field, and absence for an optional one.
pub proof fn lemma_bool_out_of_range(n: u64)
    requires
        n > 1,
    ensures
        decode_bool(RawValue::UInt(n)) == Err::<bool, DecodeError>(DecodeError::OutOfRangeBoolean(n)),
        decode_mbool(RawValue::UInt(n)) is None,
{
}

/// A code decodes to one category only.
pub proof fn lemma_decode_deterministic(s: Seq<char>, a: Category, b: Category)
    requires
        decodes_to(s, a),
        decodes_to(s, b),
    ensures
        same_category(a, b),
{
}

/// A code that the table does not hold decodes to `Unknown` carrying that
/// code, and encodes back to a list of that one code.
pub proof fn lemma_unknown_code_kept(
    s: String,
    r: Result<Option<Vec<Category>>, DecodeError>,
    out: Seq<RawValue>,
)
    requires
        known_of(s@) is None,
        categories_decoded(RawValue::Str(s), r),
        r matches Ok(Some(cs)) ==> lists_codes(out, cs@),
    ensures
        r matches Ok(Some(cs)) && cs@.len() == 1 && cs@[0] is Unknown && code_of(cs@[0]) == s@,
        out.len() == 1,
        out[0] matches RawValue::Str(t) && t@ == s@,
{
    if let Ok(Some(cs)) = r {
        assert(decodes_to(seq![s@][0], cs@[0]));
    }
}

/// A category field given as a bare code decodes as the same field given as
/// a list of that one code.
pub proof fn lemma_bare_code_as_list(
    s: String,
    list: Vec<RawValue>,
    r1: Result<Option<Vec<Category>>, DecodeError>,
    r2: Result<Option<Vec<Category>>, DecodeError>,
)
    requires
        list@ == seq![RawValue::Str(s)],
        categories_decoded(RawValue::Str(s), r1),
        categories_decoded(RawValue::Array(list), r2),
    ensures
        match (r1, r2) {
            (Ok(Some(a)), Ok(Some(b))) => a@.len() == 1 && b@.len() == 1 && same_category(
                a@[0],
                b@[0],
            ),
            _ => false,
        },
{
    assert(list@.drop_last() == Seq::<RawValue>::empty());
    assert(string_items(list@.drop_last()) == Seq::<Seq<char>>::empty());
    assert(list@.last() == RawValue::Str(s));
    assert(string_items(list@) =~= seq![s@]);
    if let (Ok(Some(a)), Ok(Some(b))) = (r1, r2) {
        assert(decodes_to(seq![s@][0], a@[0]));
        assert(decodes_to(string_items(list@)[0], b@[0]));
    }
}

/// A required boolean decodes back from its encoding.
pub proof fn lemma_bool_round_trip(b: bool)
    ensures
        decode_bool(bit_of(b)) == Ok::<bool, DecodeError>(b),
{
}

/// An optional boolean decodes back from its encoding, null for absence.
pub proof fn lemma_mbool_round_trip(o: Option<bool>)
    ensures
        decode_mbool(
            match o {
                Some(b) => bit_of(b),
                None => RawValue::Null,
            },
        ) == o,
{
}

/// Text decoded from any scalar decodes back unchanged from its encoding, a
/// string.
pub proof fn lemma_text_round_trip(v: RawValue, w: String)
    requires
        decode_text(v) matches Ok(t) && w@ == t,
    ensures
        decode_text(RawValue::Str(w)) == decode_text(v),
{
}

/// An integer decodes back from its encoding.
pub proof fn lemma_flex_int_round_trip(x: i32)
    ensures
        decode_flex_int(int_value(x)) == Ok::<Option<i32>, DecodeError>(Some(x)),
{
}

/// Text decoded from a string or a number decodes back unchanged from its
/// encoding, a string.
pub proof fn lemma_flex_text_round_trip(v: RawValue, w: String)
    requires
        decode_flex_text(v) matches Ok(Some(t)) && w@ == t,
    ensures
        decode_flex_text(RawValue::Str(w)) == decode_flex_text(v),
{
}

/// The codes of a list whose elements are all strings are those strings.
proof fn lemma_string_items_of_list(items: Seq<RawValue>, cs: Seq<Category>)
    requires
        lists_codes(items, cs),
    ensures
        string_items(items).len() == cs.len(),
        forall|i: int| 0 <= i < cs.len() ==> #[trigger] string_items(items)[i] == code_of(cs[i]),
    decreases items.len(),
{
    if items.len() > 0 {
        let n = items.len() - 1;
        assert forall|i: int| 0 <= i < n implies (#[trigger] items.drop_last()[i] matches RawValue::Str(
            s,
        ) && s@ == code_of(cs.drop_last()[i])) by {
            assert(items[i] matches RawValue::Str(s) && s@ == code_of(cs[i]));
        }
        lemma_string_items_of_list(items.drop_last(), cs.drop_last());
        assert(items[n] matches RawValue::Str(s) && s@ == code_of(cs[n]));
    }
}

/// A decoded category field, encoded and decoded again, gives the same
/// categories in the same order.
pub proof fn lemma_category_round_trip(
    v: RawValue,
    r1: Result<Option<Vec<Category>>, DecodeError>,
    w: Vec<RawValue>,
    r2: Result<Option<Vec<Category>>, DecodeError>,
)
    requires
        categories_decoded(v, r1),
        r1 matches Ok(Some(cs)) && lists_codes(w@, cs@),
        categories_decoded(RawValue::Array(w), r2),
    ensures
        match (r1, r2) {
            (Ok(Some(cs)), Ok(Some(ds))) => ds@.len() == cs@.len() && forall|i: int|
                0 <= i < cs@.len() ==> same_category(#[trigger] cs@[i], ds@[i]),
            _ => false,
        },
{
    if let (Ok(Some(cs)), Ok(Some(ds))) = (r1, r2) {
        lemma_string_items_of_list(w@, cs@);
        let codes = match crate::coerce::category_codes(v) {
            Ok(Some(c)) => c,
            _ => Seq::empty(),
        };
        assert forall|i: int| 0 <= i < cs@.len() implies same_category(#[trigger] cs@[i], ds@[i]) by {
            assert(decodes_to(codes[i], cs@[i]));
            lemma_decoded_canonical(codes[i], cs@[i]);
            assert(decodes_to(string_items(w@)[i], ds@[i]));
            lemma_code_round_trip(cs@[i], ds@[i]);
        }
    }
}

/// Whether two optional strings hold the same text.
pub open spec fn same_text(a: Option<String>, b: Option<String>) -> bool {
    match (a, b) {
        (None, None) => true,
        (Some(x), Some(y)) => x@ == y@,
        _ => false,
    }
}

/// Whether two optional category lists hold the same categories in order.
pub open spec fn same_categories(a: Option<Vec<Category>>, b: Option<Vec<Category>>) -> bool {
    match (a, b) {
        (None, None) => true,
        (Some(x), Some(y)) => x@.len() == y@.len() && forall|i: int|
            0 <= i < x@.len() ==> same_category(#[trigger] x@[i], y@[i]),
        _ => false,
    }
}

/// Whether an optional category list is kept by encoding: absent, or a
/// non-empty list of categories that each decode from their own code.
pub open spec fn keeps_categories(c: Option<Vec<Category>>) -> bool {
    match c {
        None => true,
        Some(cs) => cs@.len() > 0 && forall|i: int| 0 <= i < cs@.len() ==> is_canonical(#[trigger] cs@[i]),
    }
}

/// A category entry that encoding wrote decodes to the same categories.
pub proof fn lemma_category_entry_round_trip(
    f: Option<RawValue>,
    c: Option<Vec<Category>>,
    d: Option<Vec<Category>>,
)
    requires
        keeps_categories(c),
        cats_entry(f, c),
        decode_opt_cats(f) matches Ok(codes) ==> cats_match(d, codes),
    ensures
        decode_opt_cats(f) is Ok,
        same_categories(c, d),
{
    if let Some(cs) = c {
        if let Some(RawValue::Array(items)) = f {
            lemma_string_items_of_list(items@, cs@);
            if let Some(ds) = d {
                assert forall|i: int| 0 <= i < cs@.len() implies same_category(#[trigger] cs@[i], ds@[i]) by {
                    assert(decodes_to(string_items(items@)[i], ds@[i]));
                    lemma_code_round_trip(cs@[i], ds@[i]);
                }
            }
        }
    }
}

/// A publisher, encoded and decoded again, is the same publisher, when its
/// category list is kept by encoding.
pub proof fn lemma_publisher_round_trip(p: Publisher, v: RawValue, r: Result<Publisher, DecodeError>)
    requires
        keeps_categories(p.cat),
        publisher_encoded(p, v),
        publisher_decoded(v, r),
    ensures
        r matches Ok(q) && q.id@ == p.id@ && same_text(q.name, p.name) && same_categories(p.cat, q.cat)
            && same_text(q.domain, p.domain),
{
    if let RawValue::Object(es) = v {
        let f = field(es@, "cat"@);
        match r {
            Ok(q) => {
                lemma_category_entry_round_trip(f, p.cat, q.cat);
            },
            Err(_) => {
                lemma_category_entry_round_trip(f, p.cat, None);
            },
        }
    }
}

/// Whether two optional publishers are the same publisher.
pub open spec fn same_publisher(a: Option<Publisher>, b: Option<Publisher>) -> bool {
    match (a, b) {
        (None, None) => true,
        (Some(p), Some(q)) => q.id@ == p.id@ && same_text(q.name, p.name) && same_categories(
            p.cat,
            q.cat,
        ) && same_text(q.domain, p.domain),
        _ => false,
    }
}

/// A site, encoded and decoded again, is the same site, when each of its
/// category lists, and its publisher's, is kept by encoding.
pub proof fn lemma_site_round_trip(x: Site, v: RawValue, r: Result<Site, DecodeError>)
    requires
        keeps_categories(x.cat),
        keeps_categories(x.sectioncat),
        keeps_categories(x.pagecat),
        x.publisher matches Some(p) ==> keeps_categories(p.cat),
        site_encoded(x, v),
        site_decoded(v, r),
    ensures
        r matches Ok(y) && same_text(y.id, x.id) && same_text(y.name, x.name) && same_text(y.domain, x.domain) && same_text(y.page, x.page) && same_text(y.referrer, x.referrer) && same_text(y.search, x.search) && same_text(y.keywords, x.keywords) && same_categories(x.cat, y.cat) && same_categories(x.sectioncat, y.sectioncat) && same_categories(x.pagecat, y.pagecat) && y.mobile == x.mobile && y.privacypolicy == x.privacypolicy && same_publisher(x.publisher, y.publisher),
{
    if let RawValue::Object(es) = v {
        if let Some(p) = x.publisher {
            if let Some(pv) = field(es@, "publisher"@) {
                let rp = match publisher_error(pv) {
                    Some(e) => Err::<Publisher, DecodeError>(e),
                    None => match r {
                        Ok(y) => match y.publisher {
                            Some(q) => Ok(q),
                            None => Ok(p),
                        },
                        Err(_) => Ok(p),
                    },
                };
                lemma_publisher_round_trip(p, pv, rp);
            }
        }
        match r {
            Ok(y) => {
                lemma_category_entry_round_trip(field(es@, "cat"@), x.cat, y.cat);
                lemma_category_entry_round_trip(field(es@, "sectioncat"@), x.sectioncat, y.sectioncat);
                lemma_category_entry_round_trip(field(es@, "pagecat"@), x.pagecat, y.pagecat);
            },
            Err(_) => {
                lemma_category_entry_round_trip(field(es@, "cat"@), x.cat, None);
                lemma_category_entry_round_trip(field(es@, "sectioncat"@), x.sectioncat, None);
                lemma_category_entry_round_trip(field(es@, "pagecat"@), x.pagecat, None);
            },
        }
    }
}

} // verus!
