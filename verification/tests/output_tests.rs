use torizon_cloud_cli::json::{compact_text, Json};
use torizon_cloud_cli::output::{
    cell_to_string, paginated_values, render_list, render_object, render_table, report_data,
    report_status, Format, Out,
};

fn s(v: &str) -> Json {
    Json::string(v)
}

fn obj(fields: Vec<(&str, Json)>) -> Json {
    Json::object(fields.into_iter().map(|(k, v)| (k.to_string(), v)).collect())
}

#[test]
fn cell_renders_scalars_and_arrays() {
    assert_eq!(cell_to_string(None), "-");
    assert_eq!(cell_to_string(Some(&Json::Null)), "-");
    assert_eq!(cell_to_string(Some(&s(""))), "-");
    assert_eq!(cell_to_string(Some(&s("hi"))), "hi");
    assert_eq!(cell_to_string(Some(&Json::boolean(true))), "true");
    assert_eq!(cell_to_string(Some(&Json::integer(42))), "42");
    assert_eq!(cell_to_string(Some(&Json::Array(vec![s("a"), s("b")]))), "a,b");
}

#[test]
fn paginated_handles_wrapper_and_bare_array() {
    let wrapped = obj(vec![
        ("values", Json::Array(vec![Json::integer(1), Json::integer(2)])),
        ("total", Json::integer(2)),
    ]);
    assert_eq!(paginated_values(&wrapped).len(), 2);
    let bare = Json::Array(vec![Json::integer(1), Json::integer(2), Json::integer(3)]);
    assert_eq!(paginated_values(&bare).len(), 3);
    let neither = obj(vec![("foo", s("bar"))]);
    assert!(paginated_values(&neither).is_empty());
}

#[test]
fn cell_of_nested_values() {
    // nested arrays flatten with commas, empty strings inside show as '-'
    let v = Json::Array(vec![s("a"), Json::Array(vec![s(""), Json::Null]), Json::boolean(false)]);
    assert_eq!(cell_to_string(Some(&v)), "a,-,-,false");
    // objects print as compact JSON text
    let o = obj(vec![("k", s("v\"q")), ("n", Json::integer(-7))]);
    assert_eq!(cell_to_string(Some(&o)), "{\"k\":\"v\\\"q\",\"n\":-7}");
    assert_eq!(compact_text(&Json::Array(vec![])), "[]");
}

#[test]
fn table_pads_and_trims() {
    let rows = vec![
        obj(vec![("id", s("1")), ("name", s("alpha"))]),
        obj(vec![("id", s("22")), ("name", Json::Null)]),
    ];
    let lines = render_table(&rows, &[("id", "ID"), ("name", "NAME")]);
    assert_eq!(
        lines,
        vec![
            "ID  NAME".to_string(),
            "--  -----".to_string(),
            "1   alpha".to_string(),
            "22  -".to_string(),
        ]
    );
    let none: Vec<Json> = vec![];
    assert_eq!(render_table(&none, &[("id", "ID")]), vec!["(no results)".to_string()]);
}

#[test]
fn table_counts_characters_for_width() {
    let rows = vec![obj(vec![("n", s("héllo"))])];
    let lines = render_table(&rows, &[("n", "N")]);
    assert_eq!(lines, vec!["N".to_string(), "-----".to_string(), "héllo".to_string()]);
}

fn lines(outs: &[Out]) -> Vec<String> {
    outs.iter()
        .map(|o| match o {
            Out::Line(l) => l.clone(),
            Out::Pretty(j) => format!("PRETTY {}", compact_text(j)),
        })
        .collect()
}

#[test]
fn object_lines_are_aligned() {
    let v = obj(vec![("a", s("x")), ("long", Json::Null), ("n", Json::integer(3))]);
    assert_eq!(
        lines(&render_object(Format::Human, &v)),
        vec!["a     x".to_string(), "long  -".to_string(), "n     3".to_string()]
    );
    assert_eq!(lines(&render_object(Format::Json, &v)), vec!["PRETTY {\"a\":\"x\",\"long\":null,\"n\":3}".to_string()]);
    // a non-object falls back to pretty JSON
    assert_eq!(lines(&render_object(Format::Human, &s("x"))), vec!["PRETTY \"x\"".to_string()]);
}

#[test]
fn reports_follow_the_format() {
    let data = obj(vec![("id", s("1"))]);
    assert_eq!(
        lines(&report_data(Format::Human, "Created.", &data)),
        vec!["Created.".to_string(), "PRETTY {\"id\":\"1\"}".to_string()]
    );
    assert_eq!(lines(&report_data(Format::Json, "Created.", &data)), vec!["PRETTY {\"id\":\"1\"}".to_string()]);
    let st = obj(vec![("status", s("deleted"))]);
    assert_eq!(lines(&report_status(Format::Human, "Deleted.", &st)), vec!["Deleted.".to_string()]);
    assert_eq!(
        lines(&report_status(Format::Json, "Deleted.", &st)),
        vec!["PRETTY {\"status\":\"deleted\"}".to_string()]
    );
}

#[test]
fn list_prints_one_cell_per_line() {
    let resp = obj(vec![("values", Json::Array(vec![s("a"), Json::integer(2)]))]);
    let human = lines(&render_list(Format::Human, &resp));
    assert_eq!(human.len(), 2);
    assert_eq!(lines(&render_list(Format::Json, &resp)).len(), 1);
}
