use torizon_cloud_cli::client::Method;
use torizon_cloud_cli::commands::devices::{parse_kv, run, CreateArgs, DevicesCmd, ListArgs};
use torizon_cloud_cli::commands::{Body, CliError, Plan, Render};
use torizon_cloud_cli::json::compact_text;

#[test]
fn parse_kv_splits_on_first_equals() {
    assert_eq!(parse_kv("env=prod").unwrap(), ("env".into(), "prod".into()));
    // value may itself contain '='
    assert_eq!(parse_kv("k=a=b").unwrap(), ("k".into(), "a=b".into()));
}

#[test]
fn parse_kv_rejects_missing_equals() {
    assert!(parse_kv("noequals").is_err());
}

#[test]
fn parse_kv_edge_cases() {
    assert_eq!(parse_kv("=v").unwrap(), ("".into(), "v".into()));
    assert_eq!(parse_kv("k=").unwrap(), ("k".into(), "".into()));
    assert_eq!(parse_kv("noequals").unwrap_err(), "expected key=value, got `noequals`");
    assert_eq!(parse_kv("").unwrap_err(), "expected key=value, got ``");
}

#[test]
fn parse_kv_round_trip_scenario() {
    for s in ["a=b", "key=va=lue", "=", "x==y"] {
        let (k, v) = parse_kv(s).unwrap();
        assert!(!k.contains('='));
        assert_eq!(format!("{}={}", k, v), s);
    }
}

fn call(plan: Plan) -> torizon_cloud_cli::commands::Call {
    match plan {
        Plan::Call(c) => c,
        Plan::Watch(_) => panic!("expected a call"),
    }
}

fn query(c: &torizon_cloud_cli::commands::Call) -> Vec<(String, String)> {
    c.request.query.clone()
}

#[test]
fn devices_list_builds_query() {
    let cmd = DevicesCmd::List(ListArgs {
        limit: Some(10),
        offset: None,
        name_contains: Some("verdin".to_string()),
        tags: vec!["a".to_string(), "b".to_string()],
        hibernated: Some(false),
    });
    let c = call(run(cmd).unwrap());
    assert_eq!(c.request.method, Method::Get);
    assert_eq!(c.request.path, "/devices");
    assert_eq!(
        query(&c),
        vec![
            ("limit".to_string(), "10".to_string()),
            ("nameContains".to_string(), "verdin".to_string()),
            ("hibernated".to_string(), "false".to_string()),
            ("tags".to_string(), "a".to_string()),
            ("tags".to_string(), "b".to_string()),
        ]
    );
    assert!(c.confirm.is_none());
    assert!(matches!(c.render, Render::Table(_)));
}

#[test]
fn devices_hibernate_needs_a_direction() {
    let cmd = DevicesCmd::Hibernate { device_uuid: "d1".to_string(), on: false, off: false };
    assert_eq!(run(cmd).err(), Some(CliError::HibernateNeedsOnOrOff));
    let cmd = DevicesCmd::Hibernate { device_uuid: "d1".to_string(), on: true, off: false };
    let c = call(run(cmd).unwrap());
    assert_eq!(c.request.method, Method::Put);
    assert_eq!(c.request.path, "/devices/hibernation/d1");
    match &c.request.body {
        Body::Json(j) => assert_eq!(compact_text(j), "{\"status\":true}"),
        _ => panic!("expected a JSON body"),
    }
}

#[test]
fn devices_delete_asks_unless_yes() {
    let c = call(run(DevicesCmd::Delete { device_uuid: "d1".to_string(), yes: false }).unwrap());
    assert_eq!(c.request.method, Method::Delete);
    assert_eq!(c.request.path, "/devices/d1");
    assert_eq!(c.confirm.as_deref(), Some("Delete device d1?"));
    let c = call(run(DevicesCmd::Delete { device_uuid: "d1".to_string(), yes: true }).unwrap());
    assert!(c.confirm.is_none());
}

#[test]
fn devices_create_body() {
    let cmd = DevicesCmd::Create(CreateArgs {
        device_id: "dev-1".to_string(),
        name: Some("kitchen".to_string()),
        fleets: vec!["f1".to_string()],
        tags: vec![("env".to_string(), "prod".to_string())],
    });
    let c = call(run(cmd).unwrap());
    assert_eq!(c.request.method, Method::Post);
    assert_eq!(c.request.path, "/devices");
    match &c.request.body {
        Body::Json(j) => {
            assert_eq!(j.get("deviceId").and_then(|v| v.as_str()).map(|s| s.as_str()), Some("dev-1"));
            assert_eq!(j.get("deviceName").and_then(|v| v.as_str()).map(|s| s.as_str()), Some("kitchen"));
        }
        _ => panic!("expected a JSON body"),
    }
}
