use openrtb::banner::Banner;
use openrtb::category::Category;
use openrtb::publisher::Publisher;
use openrtb::site::Site;
use openrtb::{DecodeError, Expected, RawValue, ValueKind};
use serde_json::Value;

fn to_raw(v: &Value) -> RawValue {
    match v {
        Value::Null => RawValue::Null,
        Value::Bool(b) => RawValue::Bool(*b),
        Value::Number(n) => {
            if let Some(u) = n.as_u64() {
                RawValue::UInt(u)
            } else if let Some(i) = n.as_i64() {
                RawValue::Int(i)
            } else {
                RawValue::Float(n.to_string())
            }
        }
        Value::String(s) => RawValue::Str(s.clone()),
        Value::Array(items) => RawValue::Array(items.iter().map(to_raw).collect()),
        Value::Object(m) => RawValue::Object(m.iter().map(|(k, x)| (k.clone(), to_raw(x))).collect()),
    }
}

fn from_raw(v: &RawValue) -> Value {
    match v {
        RawValue::Null => Value::Null,
        RawValue::Bool(b) => Value::Bool(*b),
        RawValue::UInt(u) => Value::from(*u),
        RawValue::Int(i) => Value::from(*i),
        RawValue::Float(t) => serde_json::from_str(t).unwrap(),
        RawValue::Char(c) => Value::String(c.to_string()),
        RawValue::Str(s) => Value::String(s.clone()),
        RawValue::Array(items) => Value::Array(items.iter().map(from_raw).collect()),
        RawValue::Object(es) => {
            let mut m = serde_json::Map::new();
            for (k, x) in es {
                m.insert(k.clone(), from_raw(x));
            }
            Value::Object(m)
        }
    }
}

fn parse(json: &str) -> RawValue {
    to_raw(&serde_json::from_str::<Value>(json).unwrap())
}

fn print(v: &RawValue) -> String {
    serde_json::to_string(&from_raw(v)).unwrap()
}

#[test]
fn banner_serialization_skip_fields() {
    let banner = Banner { w: None, h: None, battr: vec![], topframe: None };
    let expected = r#"{}"#;
    let serialized = print(&banner.to_value());
    assert_eq!(expected, serialized)
}

#[test]
fn serialization_with_topframe() {
    let banner = Banner { w: Some(300), h: Some(250), battr: vec![], topframe: Some(true) };
    let serialized = print(&banner.to_value());
    let deserialized = Banner::from_value(&parse(&serialized)).unwrap();
    assert_eq!(banner, deserialized);
    assert_eq!(banner.topframe, Some(true));
    assert!(serialized.contains("\"topframe\":1"));
}

#[test]
fn deserialize_topframe_yes() {
    let json = r#"{"w":300,"h":250,"topframe":1}"#;
    let banner = Banner::from_value(&parse(json)).unwrap();
    assert_eq!(banner.w, Some(300));
    assert_eq!(banner.h, Some(250));
    assert_eq!(banner.topframe, Some(true));
}

#[test]
fn deserialize_topframe_no() {
    let json = r#"{"w":300,"h":250,"topframe":0}"#;
    let banner = Banner::from_value(&parse(json)).unwrap();
    assert_eq!(banner.w, Some(300));
    assert_eq!(banner.h, Some(250));
    assert_eq!(banner.topframe, Some(false));
}

#[test]
fn deserialize_without_topframe() {
    let json = r#"{"w":300,"h":250}"#;
    let banner = Banner::from_value(&parse(json)).unwrap();
    assert_eq!(banner.w, Some(300));
    assert_eq!(banner.h, Some(250));
    assert_eq!(banner.topframe, None);
}

#[test]
fn test_rubiconproject_compatibility() {
    let json = r#"{
            "w": 300,
            "h": 250,
            "pos": 1,
            "battr": [9, 1, 14014, 3, 13, 10, 8, 14],
            "topframe": 1
        }"#;
    let banner = Banner::from_value(&parse(json)).unwrap();
    assert_eq!(banner.w, Some(300));
    assert_eq!(banner.h, Some(250));
    assert_eq!(banner.topframe, Some(true));
    assert_eq!(banner.battr, vec![9, 1, 14014, 3, 13, 10, 8, 14]);
}

#[test]
fn topframe_reencodes_verbatim() {
    let json = r#"{"w":300,"h":250,"topframe":1}"#;
    let banner = Banner::from_value(&parse(json)).unwrap();
    assert_eq!(banner.topframe, Some(true));
    assert_eq!(print(&banner.to_value()), json);
}

#[test]
fn banner_malformed_topframe_is_absent() {
    let banner = Banner::from_value(&parse(r#"{"w":300,"topframe":2}"#)).unwrap();
    assert_eq!(banner.topframe, None);
    let banner = Banner::from_value(&parse(r#"{"topframe":"yes"}"#)).unwrap();
    assert_eq!(banner.topframe, None);
}

#[test]
fn banner_errors() {
    assert_eq!(
        Banner::from_value(&parse(r#"{"w":"300"}"#)),
        Err(DecodeError::UnsupportedShape(Expected::Unsigned32, ValueKind::Text))
    );
    assert_eq!(
        Banner::from_value(&parse(r#"{"h":4294967296}"#)),
        Err(DecodeError::UnsupportedShape(Expected::Unsigned32, ValueKind::Integer))
    );
    assert_eq!(
        Banner::from_value(&parse(r#"{"battr":[1,"x",null]}"#)),
        Err(DecodeError::UnsupportedShape(Expected::UnsignedList, ValueKind::Text))
    );
    assert_eq!(
        Banner::from_value(&parse("[]")),
        Err(DecodeError::UnsupportedShape(Expected::Object, ValueKind::Array))
    );
}

#[test]
fn site_serialization_skip_fields() {
    let site = Site {
        id: Some("site123".to_string()),
        domain: Some("example.com".to_string()),
        ..Default::default()
    };
    let serialized = print(&site.to_value());
    let deserialized = Site::from_value(&parse(&serialized)).unwrap();
    assert_eq!(site, deserialized);
}

#[test]
fn deserialize_minimal() {
    let json = r#"{"id":"site123"}"#;
    let site = Site::from_value(&parse(json)).unwrap();
    assert_eq!(site.id, Some("site123".to_string()));
    assert_eq!(site.name, None);
    assert_eq!(site.domain, None);
    assert_eq!(site.cat, None);
}

#[test]
fn absent_category_stays_absent() {
    let json = r#"{"id":"site123"}"#;
    let site = Site::from_value(&parse(json)).unwrap();
    assert_eq!(site.cat, None);
    assert_eq!(print(&site.to_value()), json);
}

#[test]
fn empty_category_list_left_out() {
    let site = Site::from_value(&parse(r#"{"id":"site123","cat":[]}"#)).unwrap();
    assert_eq!(site.cat, Some(vec![]));
    assert_eq!(print(&site.to_value()), r#"{"id":"site123"}"#);
}

#[test]
fn deserialize_full() {
    let json = r#"{
            "id": "site123",
            "name": "Example Site",
            "domain": "example.com",
            "cat": ["IAB1"],
            "sectioncat": ["IAB1-1"],
            "pagecat": ["IAB1-2"],
            "page": "https://example.com/page",
            "ref": "https://google.com",
            "search": "test query",
            "mobile": 1,
            "privacypolicy": 1,
            "keywords": "keyword1,keyword2"
        }"#;
    let site = Site::from_value(&parse(json)).unwrap();
    assert_eq!(site.id, Some("site123".to_string()));
    assert_eq!(site.name, Some("Example Site".to_string()));
    assert_eq!(site.domain, Some("example.com".to_string()));
    assert_eq!(site.page, Some("https://example.com/page".to_string()));
    assert_eq!(site.referrer, Some("https://google.com".to_string()));
    assert_eq!(site.search, Some("test query".to_string()));
    assert_eq!(site.mobile, Some(1));
    assert_eq!(site.privacypolicy, Some(1));
    assert_eq!(site.keywords, Some("keyword1,keyword2".to_string()));
    assert_eq!(site.cat, Some(vec![Category::IAB1]));
    assert_eq!(site.sectioncat, Some(vec![Category::IAB1_1]));
    assert_eq!(site.pagecat, Some(vec![Category::IAB1_2]));
}

#[test]
fn serialize_with_publisher_and_content() {
    let mut site = Site::default();
    site.id = Some("site123".to_string());
    site.publisher = Some(Publisher {
        id: "pub123".to_string(),
        name: Some("Example Publisher".to_string()),
        ..Default::default()
    });
    let serialized = print(&site.to_value());
    let deserialized = Site::from_value(&parse(&serialized)).unwrap();
    assert_eq!(site, deserialized);
    assert!(site.publisher.is_some());
}

#[test]
fn site_flexible_fields() {
    let json = r#"{"mobile":true,"privacypolicy":false,"cat":"IAB3","publisher":{"id":"p","cat":"XYZ999"}}"#;
    let site = Site::from_value(&parse(json)).unwrap();
    assert_eq!(site.mobile, Some(1));
    assert_eq!(site.privacypolicy, Some(0));
    assert_eq!(site.cat, Some(vec![Category::IAB3]));
    let publisher = site.publisher.clone().unwrap();
    assert_eq!(publisher.cat, Some(vec![Category::Unknown("XYZ999".to_string())]));
    assert_eq!(
        print(&site.to_value()),
        r#"{"cat":["IAB3"],"mobile":1,"privacypolicy":0,"publisher":{"id":"p","cat":["XYZ999"]}}"#
    );
}

#[test]
fn site_and_publisher_errors() {
    assert_eq!(
        Site::from_value(&parse(r#"{"cat":5}"#)),
        Err(DecodeError::MalformedCategoryRoot(ValueKind::Integer))
    );
    assert_eq!(
        Site::from_value(&parse(r#"{"mobile":"1"}"#)),
        Err(DecodeError::UnsupportedShape(Expected::BoolOrInteger, ValueKind::Text))
    );
    assert_eq!(
        Site::from_value(&parse(r#"{"publisher":{"name":"x"}}"#)),
        Err(DecodeError::MissingField)
    );
    assert_eq!(
        Publisher::from_value(&parse(r#"{"id":7}"#)),
        Err(DecodeError::UnsupportedShape(Expected::Text, ValueKind::Integer))
    );
}

#[test]
fn publisher_default_is_empty() {
    let p = Publisher::default();
    assert_eq!(p.id, "");
    assert_eq!(p.name, None);
    assert_eq!(p.cat, None);
    assert_eq!(p.domain, None);
    assert_eq!(print(&p.to_value()), r#"{"id":""}"#);
}
