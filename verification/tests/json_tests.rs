use torizon_cloud_cli::json::{set_field, Json};
use torizon_cloud_cli::strmap::StrMap;

#[test]
fn insert_then_lookup_scenario() {
    let mut fields: Vec<(String, Json)> = vec![
        ("a".to_string(), Json::string("1")),
        ("b".to_string(), Json::string("2")),
    ];
    set_field(&mut fields, "b".to_string(), Json::string("3"));
    set_field(&mut fields, "c".to_string(), Json::boolean(true));
    let o = Json::object(fields);
    assert_eq!(o.get("b").unwrap().as_str().unwrap(), "3");
    assert_eq!(o.get("a").unwrap().as_str().unwrap(), "1");
    assert_eq!(o.get("c").unwrap().as_bool(), Some(true));
    assert!(o.get("d").is_none());
    match &o {
        Json::Object(fs) => assert_eq!(fs.len(), 3),
        _ => panic!("expected an object"),
    }
    // a non-object has no members
    assert!(Json::string("x").get("a").is_none());
}

#[test]
fn copies_are_equal() {
    let v = Json::Array(vec![Json::string("x"), Json::integer(5), Json::Null]);
    let c = v.copy();
    assert_eq!(
        torizon_cloud_cli::json::compact_text(&v),
        torizon_cloud_cli::json::compact_text(&c)
    );
    let l = Json::strings(&vec!["a".to_string(), "b".to_string()]);
    assert_eq!(torizon_cloud_cli::json::compact_text(&l), "[\"a\",\"b\"]");
}

#[test]
fn string_map_keeps_first_insertion_order() {
    let mut m: StrMap<u32> = StrMap::new();
    m.insert("z".to_string(), 1);
    m.insert("a".to_string(), 2);
    m.insert("z".to_string(), 3);
    assert_eq!(m.len(), 2);
    assert_eq!(m.key_at(0), "z");
    assert_eq!(m.key_at(1), "a");
    assert_eq!(m.get("z"), Some(&3));
    assert_eq!(m.get("a"), Some(&2));
    assert_eq!(m.get("q"), None);
}
