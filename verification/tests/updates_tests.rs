use torizon_cloud_cli::commands::updates::{
    flatten_update, latest_update, run, watch_step, LaunchArgs, UpdatesCmd, Verdict, WatchArgs,
};
use torizon_cloud_cli::commands::{CliError, Plan};
use torizon_cloud_cli::json::Json;

fn s(v: &str) -> Json {
    Json::string(v)
}

fn obj(fields: Vec<(&str, Json)>) -> Json {
    Json::object(fields.into_iter().map(|(k, v)| (k.to_string(), v)).collect())
}

fn member<'a>(j: &'a Json, k: &str) -> &'a Json {
    j.get(k).expect("member present")
}

fn text<'a>(j: &'a Json, k: &str) -> &'a str {
    member(j, k).as_str().expect("a string").as_str()
}

#[test]
fn flatten_marks_success() {
    let raw = obj(vec![
        ("updateId", s("u1")),
        ("status", s("Completed")),
        ("createdAt", s("2026-06-15T12:00:00Z")),
        ("completedAt", s("2026-06-15T12:05:00Z")),
        ("deviceResult", obj(vec![("resultCode", s("OK")), ("success", Json::boolean(true))])),
        ("packages", obj(vec![("verdin-imx8mp", s("astra-os-04")), ("docker-compose", s("astra-demo-04"))])),
    ]);
    let f = flatten_update(&raw);
    assert_eq!(text(&f, "updateId"), "u1");
    assert_eq!(text(&f, "result"), "OK OK");
    let pkgs = text(&f, "packages");
    assert!(pkgs.contains("astra-os-04") && pkgs.contains("astra-demo-04"));
}

#[test]
fn flatten_marks_failure() {
    let raw = obj(vec![
        ("updateId", s("u2")),
        ("status", s("Completed")),
        (
            "deviceResult",
            obj(vec![("resultCode", s("verdin-imx8mp:INSTALL_FAILED")), ("success", Json::boolean(false))]),
        ),
    ]);
    let f = flatten_update(&raw);
    assert_eq!(text(&f, "result"), "FAIL verdin-imx8mp:INSTALL_FAILED");
}

#[test]
fn flatten_handles_pending_without_result() {
    let raw = obj(vec![("updateId", s("u3")), ("status", s("Seen")), ("deviceResult", Json::Null)]);
    let f = flatten_update(&raw);
    assert_eq!(text(&f, "result"), "");
    assert_eq!(text(&f, "status"), "Seen");
}

#[test]
fn flatten_fills_missing_members_with_null() {
    let f = flatten_update(&obj(vec![]));
    assert!(member(&f, "updateId").is_null());
    assert!(member(&f, "createdAt").is_null());
    assert_eq!(text(&f, "packages"), "");
    assert_eq!(text(&f, "result"), "");
    // packages are joined in order, non-string members skipped
    let raw = obj(vec![(
        "packages",
        obj(vec![("a", s("p1")), ("b", Json::integer(3)), ("c", s("p2"))]),
    )]);
    assert_eq!(text(&flatten_update(&raw), "packages"), "p1, p2");
}

fn history(items: Vec<Json>) -> Json {
    obj(vec![("values", Json::Array(items))])
}

#[test]
fn latest_update_picks_newest_created() {
    let h = history(vec![
        obj(vec![("updateId", s("old")), ("createdAt", s("2026-01-01T00:00:00Z"))]),
        obj(vec![("updateId", s("new")), ("createdAt", s("2026-03-01T00:00:00Z"))]),
        obj(vec![("updateId", s("mid")), ("createdAt", s("2026-02-01T00:00:00Z"))]),
    ]);
    let l = latest_update(&h).expect("an update");
    assert_eq!(text(&l, "updateId"), "new");
    assert!(latest_update(&history(vec![])).is_none());
    // among equal creation times the last one listed wins (stable sort, then last)
    let h = history(vec![
        obj(vec![("updateId", s("first")), ("createdAt", s("x"))]),
        obj(vec![("updateId", s("second")), ("createdAt", s("x"))]),
    ]);
    assert_eq!(text(&latest_update(&h).unwrap(), "updateId"), "second");
}

#[test]
fn watch_step_reports_and_decides() {
    let dev = obj(vec![("deviceStatus", s("UpToDate")), ("lastSeen", s("now"))]);
    let r = watch_step(&dev, None, 5, 5, 600);
    assert_eq!(r.line, "[   5s] device=UpToDate update=(none) result= lastSeen=now");
    assert!(matches!(r.verdict, Verdict::Done(ref m) if m == "Done: device is UpToDate."));

    let dev = obj(vec![("deviceStatus", s("Outdated"))]);
    let upd = obj(vec![
        ("status", s("Completed")),
        ("deviceResult", obj(vec![("resultCode", s("X")), ("success", Json::boolean(false))])),
    ]);
    let r = watch_step(&dev, Some(&upd), 12345, 12345, 600);
    assert_eq!(r.line, "[12345s] device=Outdated update=Completed result=FAIL X lastSeen=?");
    assert!(matches!(r.verdict, Verdict::Failed(ref m) if m == "update failed: FAIL X"));

    let upd = obj(vec![
        ("status", s("Completed")),
        ("deviceResult", obj(vec![("resultCode", s("OK")), ("success", Json::boolean(true))])),
    ]);
    let r = watch_step(&dev, Some(&upd), 0, 0, 600);
    assert!(matches!(r.verdict, Verdict::Done(ref m) if m == "Done: update succeeded (OK OK)."));

    let pending = obj(vec![("status", s("Seen"))]);
    let r = watch_step(&dev, Some(&pending), 10, 10, 600);
    assert!(matches!(r.verdict, Verdict::Wait));
}

#[test]
fn watch_stops_at_timeout_scenario() {
    let dev = obj(vec![("deviceStatus", s("Pending"))]);
    let r = watch_step(&dev, None, 600, 600, 600);
    assert!(matches!(r.verdict, Verdict::Failed(ref m)
        if m == "timed out after 600s; last device status: Pending"));
    let r = watch_step(&dev, None, 599, 599, 600);
    assert!(matches!(r.verdict, Verdict::Wait));
}

#[test]
fn launch_needs_a_target() {
    let cmd = UpdatesCmd::Launch(LaunchArgs { packages: vec!["p".to_string()], devices: vec![], fleets: vec![] });
    assert_eq!(run(cmd).err(), Some(CliError::NoUpdateTarget));
    let cmd = UpdatesCmd::Launch(LaunchArgs {
        packages: vec!["p".to_string()],
        devices: vec!["d".to_string()],
        fleets: vec![],
    });
    assert!(matches!(run(cmd), Ok(Plan::Call(_))));
}

#[test]
fn watch_plans_polling() {
    let cmd = UpdatesCmd::Watch(WatchArgs { device_uuid: "d".to_string(), interval: 5, timeout: 60 });
    match run(cmd) {
        Ok(Plan::Watch(w)) => {
            assert_eq!(w.device_uuid, "d");
            assert_eq!(w.interval, 5);
            assert_eq!(w.timeout, 60);
        }
        _ => panic!("expected a watch plan"),
    }
}

#[test]
fn latest_exists_exactly_when_there_are_records() {
    assert!(latest_update(&Json::Array(vec![])).is_none());
    assert!(latest_update(&obj(vec![("foo", s("bar"))])).is_none());
    let l = latest_update(&Json::Array(vec![obj(vec![("updateId", s("only"))])])).unwrap();
    assert_eq!(text(&l, "updateId"), "only");
}
