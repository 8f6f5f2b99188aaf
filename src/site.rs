use vstd::prelude::*;

use crate::category::Category;
use crate::coerce::{
    cats_entry, cats_match, category_list_to_value, decode_opt_cats, decode_opt_flex_int,
    i32_to_value, int_value, opt_categories, opt_flex_int,
};
use crate::fields::{
    decode_opt_text, field, keys_of, lookup, opt_text, opt_text_is, push_entry, text_entry,
};
use crate::publisher::{publisher_encoded, publisher_field_error, publisher_field_ok, Publisher};
use crate::value::{kind_of, DecodeError, Expected, RawValue};

verus! {

/// A website in which an ad is shown.
#[derive(Debug, Clone, PartialEq, Eq)]
pub struct Site {
    /// Exchange-specific site ID.
    pub id: Option<String>,
    /// Site name.
    pub name: Option<String>,
    /// Domain of the site.
    pub domain: Option<String>,
    /// Content categories of the site.
    pub cat: Option<Vec<Category>>,
    /// Content categories of the current section of the site.
    pub sectioncat: Option<Vec<Category>>,
    /// Content categories of the current page or view of the site.
    pub pagecat: Option<Vec<Category>>,
    /// URL of the page where the impression will be shown.
    pub page: Option<String>,
    /// Referrer URL that caused navigation to the current page; `ref` on the wire.
    pub referrer: Option<String>,
    /// Search string that caused navigation to the current page.
    pub search: Option<String>,
    /// Whether the layout is optimised for mobile devices: 1 is yes, 0 is no.
    pub mobile: Option<i32>,
    /// Whether the site has a privacy policy: 1 is yes, 0 is no.
    pub privacypolicy: Option<i32>,
    /// The publisher of the site.
    pub publisher: Option<Publisher>,
    /// Comma separated list of keywords about the site.
    pub keywords: Option<String>,
}

/// The first field of a site that fails to decode, in field order, or
/// `None` when every field decodes.
pub open spec fn site_error(v: RawValue) -> Option<DecodeError> {
    match v {
        RawValue::Object(es) => {
            if decode_opt_text(field(es@, "id"@)) is Err {
                Some(decode_opt_text(field(es@, "id"@))->Err_0)
            } else if decode_opt_text(field(es@, "name"@)) is Err {
                Some(decode_opt_text(field(es@, "name"@))->Err_0)
            } else if decode_opt_text(field(es@, "domain"@)) is Err {
                Some(decode_opt_text(field(es@, "domain"@))->Err_0)
            } else if decode_opt_cats(field(es@, "cat"@)) is Err {
                Some(decode_opt_cats(field(es@, "cat"@))->Err_0)
            } else if decode_opt_cats(field(es@, "sectioncat"@)) is Err {
                Some(decode_opt_cats(field(es@, "sectioncat"@))->Err_0)
            } else if decode_opt_cats(field(es@, "pagecat"@)) is Err {
                Some(decode_opt_cats(field(es@, "pagecat"@))->Err_0)
            } else if decode_opt_text(field(es@, "page"@)) is Err {
                Some(decode_opt_text(field(es@, "page"@))->Err_0)
            } else if decode_opt_text(field(es@, "ref"@)) is Err {
                Some(decode_opt_text(field(es@, "ref"@))->Err_0)
            } else if decode_opt_text(field(es@, "search"@)) is Err {
                Some(decode_opt_text(field(es@, "search"@))->Err_0)
            } else if decode_opt_flex_int(field(es@, "mobile"@)) is Err {
                Some(decode_opt_flex_int(field(es@, "mobile"@))->Err_0)
            } else if decode_opt_flex_int(field(es@, "privacypolicy"@)) is Err {
                Some(decode_opt_flex_int(field(es@, "privacypolicy"@))->Err_0)
            } else if publisher_field_error(field(es@, "publisher"@)) is Some {
                publisher_field_error(field(es@, "publisher"@))
            } else if decode_opt_text(field(es@, "keywords"@)) is Err {
                Some(decode_opt_text(field(es@, "keywords"@))->Err_0)
            } else {
                None
            }
        },
        _ => Some(DecodeError::UnsupportedShape(Expected::Object, kind_of(v))),
    }
}

/// Whether the fields of `x` are what the fields of the wire value `v`
/// decode to.
pub open spec fn site_fields_ok(v: RawValue, x: Site) -> bool {
    match v {
        RawValue::Object(es) => {
            &&& opt_text_is(x.id, decode_opt_text(field(es@, "id"@))->Ok_0)
            &&& opt_text_is(x.name, decode_opt_text(field(es@, "name"@))->Ok_0)
            &&& opt_text_is(x.domain, decode_opt_text(field(es@, "domain"@))->Ok_0)
            &&& cats_match(x.cat, decode_opt_cats(field(es@, "cat"@))->Ok_0)
            &&& cats_match(x.sectioncat, decode_opt_cats(field(es@, "sectioncat"@))->Ok_0)
            &&& cats_match(x.pagecat, decode_opt_cats(field(es@, "pagecat"@))->Ok_0)
            &&& opt_text_is(x.page, decode_opt_text(field(es@, "page"@))->Ok_0)
            &&& opt_text_is(x.referrer, decode_opt_text(field(es@, "ref"@))->Ok_0)
            &&& opt_text_is(x.search, decode_opt_text(field(es@, "search"@))->Ok_0)
            &&& x.mobile == decode_opt_flex_int(field(es@, "mobile"@))->Ok_0
            &&& x.privacypolicy == decode_opt_flex_int(field(es@, "privacypolicy"@))->Ok_0
            &&& publisher_field_ok(field(es@, "publisher"@), x.publisher)
            &&& opt_text_is(x.keywords, decode_opt_text(field(es@, "keywords"@))->Ok_0)
        },
        _ => false,
    }
}

/// Whether `r` is what the wire value `v` decodes to as a site.
pub open spec fn site_decoded(v: RawValue, r: Result<Site, DecodeError>) -> bool {
    match site_error(v) {
        Some(e) => r == Err::<Site, DecodeError>(e),
        None => r matches Ok(x) && site_fields_ok(v, x),
    }
}

/// The keys that a site is written with, in order: each optional field
/// only when present, a category list only when it is not empty.
pub open spec fn site_keys(x: Site) -> Seq<Seq<char>> {
    (if x.id is Some { seq!["id"@] } else { Seq::empty() })
        + (if x.name is Some { seq!["name"@] } else { Seq::empty() })
        + (if x.domain is Some { seq!["domain"@] } else { Seq::empty() })
        + (if x.cat matches Some(cs) && cs@.len() > 0 { seq!["cat"@] } else { Seq::empty() })
        + (if x.sectioncat matches Some(cs) && cs@.len() > 0 { seq!["sectioncat"@] } else { Seq::empty() })
        + (if x.pagecat matches Some(cs) && cs@.len() > 0 { seq!["pagecat"@] } else { Seq::empty() })
        + (if x.page is Some { seq!["page"@] } else { Seq::empty() })
        + (if x.referrer is Some { seq!["ref"@] } else { Seq::empty() })
        + (if x.search is Some { seq!["search"@] } else { Seq::empty() })
        + (if x.mobile is Some { seq!["mobile"@] } else { Seq::empty() })
        + (if x.privacypolicy is Some { seq!["privacypolicy"@] } else { Seq::empty() })
        + (if x.publisher is Some { seq!["publisher"@] } else { Seq::empty() })
        + (if x.keywords is Some { seq!["keywords"@] } else { Seq::empty() })
}

/// Whether `v` is the wire form of site `x`.
pub open spec fn site_encoded(x: Site, v: RawValue) -> bool
{
    match v {
        RawValue::Object(es) => {
            &&& keys_of(es@) == site_keys(x)
            &&& text_entry(field(es@, "id"@), x.id)
            &&& text_entry(field(es@, "name"@), x.name)
            &&& text_entry(field(es@, "domain"@), x.domain)
            &&& cats_entry(field(es@, "cat"@), x.cat)
            &&& cats_entry(field(es@, "sectioncat"@), x.sectioncat)
            &&& cats_entry(field(es@, "pagecat"@), x.pagecat)
            &&& text_entry(field(es@, "page"@), x.page)
            &&& text_entry(field(es@, "ref"@), x.referrer)
            &&& text_entry(field(es@, "search"@), x.search)
            &&& field(es@, "mobile"@) == match x.mobile {
                Some(n) => Some(int_value(n)),
                None => None,
            }
            &&& field(es@, "privacypolicy"@) == match x.privacypolicy {
                Some(n) => Some(int_value(n)),
                None => None,
            }
            &&& match x.publisher {
                Some(p) => field(es@, "publisher"@) matches Some(pv) && publisher_encoded(p, pv),
                None => field(es@, "publisher"@) is None,
            }
            &&& text_entry(field(es@, "keywords"@), x.keywords)
        },
        _ => false,
    }
}

/// The keys of a site's wire form are distinct.
proof fn lemma_site_keys_distinct()
    ensures
        "id"@ != "name"@,
        "id"@ != "domain"@,
        "id"@ != "cat"@,
        "id"@ != "sectioncat"@,
        "id"@ != "pagecat"@,
        "id"@ != "page"@,
        "id"@ != "ref"@,
        "id"@ != "search"@,
        "id"@ != "mobile"@,
        "id"@ != "privacypolicy"@,
        "id"@ != "publisher"@,
        "id"@ != "keywords"@,
        "name"@ != "domain"@,
        "name"@ != "cat"@,
        "name"@ != "sectioncat"@,
        "name"@ != "pagecat"@,
        "name"@ != "page"@,
        "name"@ != "ref"@,
        "name"@ != "search"@,
        "name"@ != "mobile"@,
        "name"@ != "privacypolicy"@,
        "name"@ != "publisher"@,
        "name"@ != "keywords"@,
        "domain"@ != "cat"@,
        "domain"@ != "sectioncat"@,
        "domain"@ != "pagecat"@,
        "domain"@ != "page"@,
        "domain"@ != "ref"@,
        "domain"@ != "search"@,
        "domain"@ != "mobile"@,
        "domain"@ != "privacypolicy"@,
        "domain"@ != "publisher"@,
        "domain"@ != "keywords"@,
        "cat"@ != "sectioncat"@,
        "cat"@ != "pagecat"@,
        "cat"@ != "page"@,
        "cat"@ != "ref"@,
        "cat"@ != "search"@,
        "cat"@ != "mobile"@,
        "cat"@ != "privacypolicy"@,
        "cat"@ != "publisher"@,
        "cat"@ != "keywords"@,
        "sectioncat"@ != "pagecat"@,
        "sectioncat"@ != "page"@,
        "sectioncat"@ != "ref"@,
        "sectioncat"@ != "search"@,
        "sectioncat"@ != "mobile"@,
        "sectioncat"@ != "privacypolicy"@,
        "sectioncat"@ != "publisher"@,
        "sectioncat"@ != "keywords"@,
        "pagecat"@ != "page"@,
        "pagecat"@ != "ref"@,
        "pagecat"@ != "search"@,
        "pagecat"@ != "mobile"@,
        "pagecat"@ != "privacypolicy"@,
        "pagecat"@ != "publisher"@,
        "pagecat"@ != "keywords"@,
        "page"@ != "ref"@,
        "page"@ != "search"@,
        "page"@ != "mobile"@,
        "page"@ != "privacypolicy"@,
        "page"@ != "publisher"@,
        "page"@ != "keywords"@,
        "ref"@ != "search"@,
        "ref"@ != "mobile"@,
        "ref"@ != "privacypolicy"@,
        "ref"@ != "publisher"@,
        "ref"@ != "keywords"@,
        "search"@ != "mobile"@,
        "search"@ != "privacypolicy"@,
        "search"@ != "publisher"@,
        "search"@ != "keywords"@,
        "mobile"@ != "privacypolicy"@,
        "mobile"@ != "publisher"@,
        "mobile"@ != "keywords"@,
        "privacypolicy"@ != "publisher"@,
        "privacypolicy"@ != "keywords"@,
        "publisher"@ != "keywords"@,
{
    reveal_strlit("id");
    reveal_strlit("name");
    reveal_strlit("domain");
    reveal_strlit("cat");
    reveal_strlit("sectioncat");
    reveal_strlit("pagecat");
    reveal_strlit("page");
    reveal_strlit("ref");
    reveal_strlit("search");
    reveal_strlit("mobile");
    reveal_strlit("privacypolicy");
    reveal_strlit("publisher");
    reveal_strlit("keywords");
    assert("id"@.len() != "name"@.len());
    assert("id"@.len() != "domain"@.len());
    assert("id"@.len() != "cat"@.len());
    assert("id"@.len() != "sectioncat"@.len());
    assert("id"@.len() != "pagecat"@.len());
    assert("id"@.len() != "page"@.len());
    assert("id"@.len() != "ref"@.len());
    assert("id"@.len() != "search"@.len());
    assert("id"@.len() != "mobile"@.len());
    assert("id"@.len() != "privacypolicy"@.len());
    assert("id"@.len() != "publisher"@.len());
    assert("id"@.len() != "keywords"@.len());
    assert("name"@.len() != "domain"@.len());
    assert("name"@.len() != "cat"@.len());
    assert("name"@.len() != "sectioncat"@.len());
    assert("name"@.len() != "pagecat"@.len());
    assert("name"@[0] != "page"@[0]);
    assert("name"@.len() != "ref"@.len());
    assert("name"@.len() != "search"@.len());
    assert("name"@.len() != "mobile"@.len());
    assert("name"@.len() != "privacypolicy"@.len());
    assert("name"@.len() != "publisher"@.len());
    assert("name"@.len() != "keywords"@.len());
    assert("domain"@.len() != "cat"@.len());
    assert("domain"@.len() != "sectioncat"@.len());
    assert("domain"@.len() != "pagecat"@.len());
    assert("domain"@.len() != "page"@.len());
    assert("domain"@.len() != "ref"@.len());
    assert("domain"@[0] != "search"@[0]);
    assert("domain"@[0] != "mobile"@[0]);
    assert("domain"@.len() != "privacypolicy"@.len());
    assert("domain"@.len() != "publisher"@.len());
    assert("domain"@.len() != "keywords"@.len());
    assert("cat"@.len() != "sectioncat"@.len());
    assert("cat"@.len() != "pagecat"@.len());
    assert("cat"@.len() != "page"@.len());
    assert("cat"@[0] != "ref"@[0]);
    assert("cat"@.len() != "search"@.len());
    assert("cat"@.len() != "mobile"@.len());
    assert("cat"@.len() != "privacypolicy"@.len());
    assert("cat"@.len() != "publisher"@.len());
    assert("cat"@.len() != "keywords"@.len());
    assert("sectioncat"@.len() != "pagecat"@.len());
    assert("sectioncat"@.len() != "page"@.len());
    assert("sectioncat"@.len() != "ref"@.len());
    assert("sectioncat"@.len() != "search"@.len());
    assert("sectioncat"@.len() != "mobile"@.len());
    assert("sectioncat"@.len() != "privacypolicy"@.len());
    assert("sectioncat"@.len() != "publisher"@.len());
    assert("sectioncat"@.len() != "keywords"@.len());
    assert("pagecat"@.len() != "page"@.len());
    assert("pagecat"@.len() != "ref"@.len());
    assert("pagecat"@.len() != "search"@.len());
    assert("pagecat"@.len() != "mobile"@.len());
    assert("pagecat"@.len() != "privacypolicy"@.len());
    assert("pagecat"@.len() != "publisher"@.len());
    assert("pagecat"@.len() != "keywords"@.len());
    assert("page"@.len() != "ref"@.len());
    assert("page"@.len() != "search"@.len());
    assert("page"@.len() != "mobile"@.len());
    assert("page"@.len() != "privacypolicy"@.len());
    assert("page"@.len() != "publisher"@.len());
    assert("page"@.len() != "keywords"@.len());
    assert("ref"@.len() != "search"@.len());
    assert("ref"@.len() != "mobile"@.len());
    assert("ref"@.len() != "privacypolicy"@.len());
    assert("ref"@.len() != "publisher"@.len());
    assert("ref"@.len() != "keywords"@.len());
    assert("search"@[0] != "mobile"@[0]);
    assert("search"@.len() != "privacypolicy"@.len());
    assert("search"@.len() != "publisher"@.len());
    assert("search"@.len() != "keywords"@.len());
    assert("mobile"@.len() != "privacypolicy"@.len());
    assert("mobile"@.len() != "publisher"@.len());
    assert("mobile"@.len() != "keywords"@.len());
    assert("privacypolicy"@.len() != "publisher"@.len());
    assert("privacypolicy"@.len() != "keywords"@.len());
    assert("publisher"@.len() != "keywords"@.len());
}

impl Default for Site {
    fn default() -> (r: Site)
        ensures
            r.id is None && r.name is None && r.domain is None && r.cat is None && r.sectioncat is None && r.pagecat is None && r.page is None && r.referrer is None && r.search is None && r.mobile is None && r.privacypolicy is None && r.publisher is None && r.keywords is None,
    {
        Site {
            id: None, name: None, domain: None, cat: None, sectioncat: None, pagecat: None, page: None, referrer: None, search: None, mobile: None, privacypolicy: None, publisher: None, keywords: None,
        }
    }
}

impl Site {
    /// Decodes a site from the wire. Missing optional fields are `None`.
    pub fn from_value(v: &RawValue) -> (r: Result<Site, DecodeError>)
        ensures
            site_decoded(*v, r),
    {
        match v {
            RawValue::Object(es) => {
                let id = match opt_text(lookup(es, "id")) {
                    Ok(x) => x,
                    Err(e) => return Err(e),
                };
                let name = match opt_text(lookup(es, "name")) {
                    Ok(x) => x,
                    Err(e) => return Err(e),
                };
                let domain = match opt_text(lookup(es, "domain")) {
                    Ok(x) => x,
                    Err(e) => return Err(e),
                };
                let cat = match opt_categories(lookup(es, "cat")) {
                    Ok(x) => x,
                    Err(e) => return Err(e),
                };
                let sectioncat = match opt_categories(lookup(es, "sectioncat")) {
                    Ok(x) => x,
                    Err(e) => return Err(e),
                };
                let pagecat = match opt_categories(lookup(es, "pagecat")) {
                    Ok(x) => x,
                    Err(e) => return Err(e),
                };
                let page = match opt_text(lookup(es, "page")) {
                    Ok(x) => x,
                    Err(e) => return Err(e),
                };
                let referrer = match opt_text(lookup(es, "ref")) {
                    Ok(x) => x,
                    Err(e) => return Err(e),
                };
                let search = match opt_text(lookup(es, "search")) {
                    Ok(x) => x,
                    Err(e) => return Err(e),
                };
                let mobile = match opt_flex_int(lookup(es, "mobile")) {
                    Ok(x) => x,
                    Err(e) => return Err(e),
                };
                let privacypolicy = match opt_flex_int(lookup(es, "privacypolicy")) {
                    Ok(x) => x,
                    Err(e) => return Err(e),
                };
                let publisher = match lookup(es, "publisher") {
                    None => None,
                    Some(RawValue::Null) => None,
                    Some(p) => match Publisher::from_value(p) {
                        Ok(p) => Some(p),
                        Err(e) => return Err(e),
                    },
                };
                let keywords = match opt_text(lookup(es, "keywords")) {
                    Ok(x) => x,
                    Err(e) => return Err(e),
                };
                Ok(Site { id, name, domain, cat, sectioncat, pagecat, page, referrer, search, mobile, privacypolicy, publisher, keywords })
            },
            _ => Err(DecodeError::UnsupportedShape(Expected::Object, v.kind())),
        }
    }

    /// Appends the `id` entry, if the site has one.
    fn put_id(&self, es: &mut Vec<(String, RawValue)>)
        requires
            field(old(es)@, "id"@) is None,
        ensures
            keys_of(final(es)@) == keys_of(old(es)@) + if self.id is Some {
                seq!["id"@]
            } else {
                Seq::empty()
            },
            text_entry(field(final(es)@, "id"@), self.id),
            forall|k: Seq<char>| k != "id"@ ==> #[trigger] field(final(es)@, k) == field(old(es)@, k),
    {
        if let Some(t) = &self.id {
            let val = RawValue::Str(t.clone());
            push_entry(es, "id", val);
        }
    }

    /// Appends the `name` entry, if the site has one.
    fn put_name(&self, es: &mut Vec<(String, RawValue)>)
        requires
            field(old(es)@, "name"@) is None,
        ensures
            keys_of(final(es)@) == keys_of(old(es)@) + if self.name is Some {
                seq!["name"@]
            } else {
                Seq::empty()
            },
            text_entry(field(final(es)@, "name"@), self.name),
            forall|k: Seq<char>| k != "name"@ ==> #[trigger] field(final(es)@, k) == field(old(es)@, k),
    {
        if let Some(t) = &self.name {
            let val = RawValue::Str(t.clone());
            push_entry(es, "name", val);
        }
    }

    /// Appends the `domain` entry, if the site has one.
    fn put_domain(&self, es: &mut Vec<(String, RawValue)>)
        requires
            field(old(es)@, "domain"@) is None,
        ensures
            keys_of(final(es)@) == keys_of(old(es)@) + if self.domain is Some {
                seq!["domain"@]
            } else {
                Seq::empty()
            },
            text_entry(field(final(es)@, "domain"@), self.domain),
            forall|k: Seq<char>| k != "domain"@ ==> #[trigger] field(final(es)@, k) == field(old(es)@, k),
    {
        if let Some(t) = &self.domain {
            let val = RawValue::Str(t.clone());
            push_entry(es, "domain", val);
        }
    }

    /// Appends the `cat` entry, if the site has one.
    fn put_cat(&self, es: &mut Vec<(String, RawValue)>)
        requires
            field(old(es)@, "cat"@) is None,
        ensures
            keys_of(final(es)@) == keys_of(old(es)@) + if (self.cat matches Some(cs) && cs@.len() > 0) {
                seq!["cat"@]
            } else {
                Seq::empty()
            },
            cats_entry(field(final(es)@, "cat"@), self.cat),
            forall|k: Seq<char>| k != "cat"@ ==> #[trigger] field(final(es)@, k) == field(old(es)@, k),
    {
        if let Some(cs) = &self.cat {
            if cs.len() > 0 {
                let val = category_list_to_value(cs);
                push_entry(es, "cat", val);
            }
        }
    }

    /// Appends the `sectioncat` entry, if the site has one.
    fn put_sectioncat(&self, es: &mut Vec<(String, RawValue)>)
        requires
            field(old(es)@, "sectioncat"@) is None,
        ensures
            keys_of(final(es)@) == keys_of(old(es)@) + if (self.sectioncat matches Some(cs) && cs@.len() > 0) {
                seq!["sectioncat"@]
            } else {
                Seq::empty()
            },
            cats_entry(field(final(es)@, "sectioncat"@), self.sectioncat),
            forall|k: Seq<char>| k != "sectioncat"@ ==> #[trigger] field(final(es)@, k) == field(old(es)@, k),
    {
        if let Some(cs) = &self.sectioncat {
            if cs.len() > 0 {
                let val = category_list_to_value(cs);
                push_entry(es, "sectioncat", val);
            }
        }
    }

    /// Appends the `pagecat` entry, if the site has one.
    fn put_pagecat(&self, es: &mut Vec<(String, RawValue)>)
        requires
            field(old(es)@, "pagecat"@) is None,
        ensures
            keys_of(final(es)@) == keys_of(old(es)@) + if (self.pagecat matches Some(cs) && cs@.len() > 0) {
                seq!["pagecat"@]
            } else {
                Seq::empty()
            },
            cats_entry(field(final(es)@, "pagecat"@), self.pagecat),
            forall|k: Seq<char>| k != "pagecat"@ ==> #[trigger] field(final(es)@, k) == field(old(es)@, k),
    {
        if let Some(cs) = &self.pagecat {
            if cs.len() > 0 {
                let val = category_list_to_value(cs);
                push_entry(es, "pagecat", val);
            }
        }
    }

    /// Appends the `page` entry, if the site has one.
    fn put_page(&self, es: &mut Vec<(String, RawValue)>)
        requires
            field(old(es)@, "page"@) is None,
        ensures
            keys_of(final(es)@) == keys_of(old(es)@) + if self.page is Some {
                seq!["page"@]
            } else {
                Seq::empty()
            },
            text_entry(field(final(es)@, "page"@), self.page),
            forall|k: Seq<char>| k != "page"@ ==> #[trigger] field(final(es)@, k) == field(old(es)@, k),
    {
        if let Some(t) = &self.page {
            let val = RawValue::Str(t.clone());
            push_entry(es, "page", val);
        }
    }

    /// Appends the `ref` entry, if the site has one.
    fn put_referrer(&self, es: &mut Vec<(String, RawValue)>)
        requires
            field(old(es)@, "ref"@) is None,
        ensures
            keys_of(final(es)@) == keys_of(old(es)@) + if self.referrer is Some {
                seq!["ref"@]
            } else {
                Seq::empty()
            },
            text_entry(field(final(es)@, "ref"@), self.referrer),
            forall|k: Seq<char>| k != "ref"@ ==> #[trigger] field(final(es)@, k) == field(old(es)@, k),
    {
        if let Some(t) = &self.referrer {
            let val = RawValue::Str(t.clone());
            push_entry(es, "ref", val);
        }
    }

    /// Appends the `search` entry, if the site has one.
    fn put_search(&self, es: &mut Vec<(String, RawValue)>)
        requires
            field(old(es)@, "search"@) is None,
        ensures
            keys_of(final(es)@) == keys_of(old(es)@) + if self.search is Some {
                seq!["search"@]
            } else {
                Seq::empty()
            },
            text_entry(field(final(es)@, "search"@), self.search),
            forall|k: Seq<char>| k != "search"@ ==> #[trigger] field(final(es)@, k) == field(old(es)@, k),
    {
        if let Some(t) = &self.search {
            let val = RawValue::Str(t.clone());
            push_entry(es, "search", val);
        }
    }

    /// Appends the `mobile` entry, if the site has one.
    fn put_mobile(&self, es: &mut Vec<(String, RawValue)>)
        requires
            field(old(es)@, "mobile"@) is None,
        ensures
            keys_of(final(es)@) == keys_of(old(es)@) + if self.mobile is Some {
                seq!["mobile"@]
            } else {
                Seq::empty()
            },
            field(final(es)@, "mobile"@) == match self.mobile {
                Some(n) => Some(int_value(n)),
                None => None,
            },
            forall|k: Seq<char>| k != "mobile"@ ==> #[trigger] field(final(es)@, k) == field(old(es)@, k),
    {
        if let Some(n) = self.mobile {
            let val = i32_to_value(n);
            push_entry(es, "mobile", val);
        }
    }

    /// Appends the `privacypolicy` entry, if the site has one.
    fn put_privacypolicy(&self, es: &mut Vec<(String, RawValue)>)
        requires
            field(old(es)@, "privacypolicy"@) is None,
        ensures
            keys_of(final(es)@) == keys_of(old(es)@) + if self.privacypolicy is Some {
                seq!["privacypolicy"@]
            } else {
                Seq::empty()
            },
            field(final(es)@, "privacypolicy"@) == match self.privacypolicy {
                Some(n) => Some(int_value(n)),
                None => None,
            },
            forall|k: Seq<char>| k != "privacypolicy"@ ==> #[trigger] field(final(es)@, k) == field(old(es)@, k),
    {
        if let Some(n) = self.privacypolicy {
            let val = i32_to_value(n);
            push_entry(es, "privacypolicy", val);
        }
    }

    /// Appends the `publisher` entry, if the site has one.
    fn put_publisher(&self, es: &mut Vec<(String, RawValue)>)
        requires
            field(old(es)@, "publisher"@) is None,
        ensures
            keys_of(final(es)@) == keys_of(old(es)@) + if self.publisher is Some {
                seq!["publisher"@]
            } else {
                Seq::empty()
            },
            match self.publisher {
                Some(p) => field(final(es)@, "publisher"@) matches Some(pv) && publisher_encoded(p, pv),
                None => field(final(es)@, "publisher"@) is None,
            },
            forall|k: Seq<char>| k != "publisher"@ ==> #[trigger] field(final(es)@, k) == field(old(es)@, k),
    {
        if let Some(p) = &self.publisher {
            let val = p.to_value();
            push_entry(es, "publisher", val);
        }
    }

    /// Appends the `keywords` entry, if the site has one.
    fn put_keywords(&self, es: &mut Vec<(String, RawValue)>)
        requires
            field(old(es)@, "keywords"@) is None,
        ensures
            keys_of(final(es)@) == keys_of(old(es)@) + if self.keywords is Some {
                seq!["keywords"@]
            } else {
                Seq::empty()
            },
            text_entry(field(final(es)@, "keywords"@), self.keywords),
            forall|k: Seq<char>| k != "keywords"@ ==> #[trigger] field(final(es)@, k) == field(old(es)@, k),
    {
        if let Some(t) = &self.keywords {
            let val = RawValue::Str(t.clone());
            push_entry(es, "keywords", val);
        }
    }

    /// Encodes a site; absent fields and empty category lists are left out.
    pub fn to_value(&self) -> (r: RawValue)
        ensures
            site_encoded(*self, r),
    {
        proof { lemma_site_keys_distinct(); }
        let mut es: Vec<(String, RawValue)> = Vec::new();
        assert(keys_of(es@) =~= Seq::<Seq<char>>::empty());
        self.put_id(&mut es);
        self.put_name(&mut es);
        self.put_domain(&mut es);
        self.put_cat(&mut es);
        self.put_sectioncat(&mut es);
        self.put_pagecat(&mut es);
        self.put_page(&mut es);
        self.put_referrer(&mut es);
        self.put_search(&mut es);
        self.put_mobile(&mut es);
        self.put_privacypolicy(&mut es);
        self.put_publisher(&mut es);
        self.put_keywords(&mut es);
        assert(keys_of(es@) =~= site_keys(*self));
        RawValue::Object(es)
    }
}

} // verus!
