use torizon_cloud_cli::commands::{aborted, prompt_stream, Stream};
use torizon_cloud_cli::client::Method;
use torizon_cloud_cli::commands::fleets::{self, CreateArgs, FleetType, FleetsCmd};
use torizon_cloud_cli::commands::lockboxes::{self, LockboxesCmd, SetArgs};
use torizon_cloud_cli::commands::metrics::{self, MetricsCmd, RangeArgs};
use torizon_cloud_cli::commands::packages::{
    self, DeleteArgs, EditArgs, PackagesCmd, SortBy, SortDir, UploadArgs,
};
use torizon_cloud_cli::commands::remote_access::{self, RemoteAccessCmd};
use torizon_cloud_cli::commands::{
    confirm_answer, confirm_prompt, render, Body, Call, CliError, Columns, Plan, Render,
};
use torizon_cloud_cli::json::{compact_text, Json};
use torizon_cloud_cli::output::{Format, Out};

fn call(plan: Plan) -> Call {
    match plan {
        Plan::Call(c) => c,
        Plan::Watch(_) => panic!("expected a call"),
    }
}

fn pairs(v: &[(&str, &str)]) -> Vec<(String, String)> {
    v.iter().map(|(a, b)| (a.to_string(), b.to_string())).collect()
}

fn body_text(c: &Call) -> String {
    match &c.request.body {
        Body::Json(j) => compact_text(j),
        _ => panic!("expected a JSON body"),
    }
}

#[test]
fn fleet_type_and_sort_names() {
    assert_eq!(FleetType::Static.as_str(), "static");
    assert_eq!(FleetType::Dynamic.as_str(), "dynamic");
    assert_eq!(SortBy::Filename.api(), "Filename");
    assert_eq!(SortBy::CreatedAt.api(), "CreatedAt");
    assert_eq!(SortDir::Asc.api(), "Asc");
    assert_eq!(SortDir::Desc.api(), "Desc");
}

#[test]
fn dynamic_fleets_need_an_expression() {
    let cmd = FleetsCmd::Create(CreateArgs { name: "f".to_string(), fleet_type: FleetType::Dynamic, expression: None });
    assert_eq!(fleets::run(cmd).err(), Some(CliError::DynamicFleetNeedsExpression));
    let cmd = FleetsCmd::Create(CreateArgs { name: "f".to_string(), fleet_type: FleetType::Static, expression: None });
    let c = call(fleets::run(cmd).unwrap());
    assert_eq!(c.request.method, Method::Post);
    assert_eq!(c.request.path, "/fleets");
    assert_eq!(body_text(&c), "{\"name\":\"f\",\"fleetType\":\"static\"}");
    let cmd = FleetsCmd::Create(CreateArgs {
        name: "d".to_string(),
        fleet_type: FleetType::Dynamic,
        expression: Some("tag=x".to_string()),
    });
    assert!(fleets::run(cmd).is_ok());
}

#[test]
fn fleets_delete_asks() {
    let c = call(fleets::run(FleetsCmd::Delete { fleet_id: "f1".to_string(), yes: false }).unwrap());
    assert_eq!(c.confirm.as_deref(), Some("Delete fleet f1?"));
    assert_eq!(c.request.method, Method::Delete);
}

#[test]
fn packages_edit_needs_something() {
    let cmd = PackagesCmd::Edit(EditArgs { package_id: "p".to_string(), comment: None, hardware_ids: vec![] });
    assert_eq!(packages::run(cmd).err(), Some(CliError::NothingToEdit));
    let cmd = PackagesCmd::Edit(EditArgs {
        package_id: "p".to_string(),
        comment: Some("c".to_string()),
        hardware_ids: vec!["h1".to_string()],
    });
    let c = call(packages::run(cmd).unwrap());
    assert_eq!(c.request.method, Method::Patch);
    assert_eq!(c.request.path, "/packages/p");
    assert_eq!(body_text(&c), "{\"comment\":\"c\",\"hardwareIds\":[\"h1\"]}");
}

#[test]
fn packages_upload_sends_the_file() {
    let cmd = PackagesCmd::Upload(UploadArgs {
        name: "n".to_string(),
        version: "1.0".to_string(),
        hardware_id: vec!["verdin".to_string(), "apalis".to_string()],
        format: "BINARY".to_string(),
        file: "/tmp/pkg.bin".to_string(),
    });
    let c = call(packages::run(cmd).unwrap());
    assert_eq!(c.request.method, Method::Post);
    assert_eq!(c.request.path, "/packages");
    assert_eq!(
        c.request.query,
        pairs(&[
            ("name", "n"),
            ("version", "1.0"),
            ("targetFormat", "BINARY"),
            ("hardwareId", "verdin"),
            ("hardwareId", "apalis"),
        ])
    );
    assert!(matches!(&c.request.body, Body::File(p) if p == "/tmp/pkg.bin"));
}

#[test]
fn packages_list_query() {
    let cmd = PackagesCmd::List(packages::ListArgs {
        limit: None,
        offset: Some(20),
        name_contains: None,
        id_contains: Some("abc".to_string()),
        version: None,
        hardware_ids: vec!["h".to_string()],
        sort_by: Some(SortBy::CreatedAt),
        sort_direction: Some(SortDir::Desc),
    });
    let c = call(packages::run(cmd).unwrap());
    assert_eq!(
        c.request.query,
        pairs(&[
            ("offset", "20"),
            ("idContains", "abc"),
            ("hardwareIds", "h"),
            ("sortBy", "CreatedAt"),
            ("sortDirection", "Desc"),
        ])
    );
    let c = call(packages::run(PackagesCmd::Delete(DeleteArgs { package_id: "p".to_string(), yes: true })).unwrap());
    assert!(c.confirm.is_none());
    assert_eq!(c.request.method, Method::Delete);
}

#[test]
fn lockbox_define_body() {
    let cmd = LockboxesCmd::Define(SetArgs {
        name: "lb".to_string(),
        packages: vec!["p1".to_string()],
        expires_at: Some("2026-12-31T00:00:00Z".to_string()),
    });
    let c = call(lockboxes::run(cmd).unwrap());
    assert_eq!(c.request.method, Method::Post);
    assert_eq!(c.request.path, "/lockboxes/lb");
    assert_eq!(body_text(&c), "{\"packageIds\":[\"p1\"],\"expiresAt\":\"2026-12-31T00:00:00Z\"}");
    assert!(matches!(&c.render, Render::Data(m) if m == "Lockbox `lb` saved."));
}

#[test]
fn metrics_queries_and_paths() {
    let range = RangeArgs { metrics: vec!["cpu".to_string(), "mem".to_string()], from: -5, to: 100, resolution: Some(60) };
    assert_eq!(
        range.to_query(),
        pairs(&[("from", "-5"), ("to", "100"), ("resolution", "60"), ("metric", "cpu"), ("metric", "mem")])
    );
    let c = call(metrics::run(MetricsCmd::Device { device_uuid: "a b".to_string(), range }).unwrap());
    assert_eq!(c.request.path, "/device-data/devices/a%20b/metrics");
    let range = RangeArgs { metrics: vec!["cpu".to_string()], from: 1, to: 2, resolution: None };
    let c = call(metrics::run(MetricsCmd::Outliers { fleet_id: "f".to_string(), range }).unwrap());
    assert_eq!(c.request.method, Method::Post);
    assert_eq!(body_text(&c), "{\"metrics\":[\"cpu\"],\"from\":1,\"to\":2}");
}

#[test]
fn remote_access_plans() {
    let c = call(remote_access::run(RemoteAccessCmd::Device { device_uuid: "d/1".to_string() }).unwrap());
    assert_eq!(c.request.method, Method::Get);
    assert_eq!(c.request.path, "/remote-access/device/d%2F1");
    let c = call(remote_access::run(RemoteAccessCmd::Sessions { device_uuid: "d".to_string() }).unwrap());
    assert_eq!(c.request.path, "/remote-access/device/d/sessions");
}

#[test]
fn confirmations() {
    assert!(confirm_answer("y\n"));
    assert!(confirm_answer("  YES "));
    assert!(confirm_answer("Yes"));
    assert!(!confirm_answer("n"));
    assert!(!confirm_answer(""));
    assert!(!confirm_answer("yess"));
    assert_eq!(confirm_prompt("Delete fleet f1?"), "Delete fleet f1? [y/N] ");
}

fn lines(outs: &[Out]) -> Vec<String> {
    outs.iter()
        .map(|o| match o {
            Out::Line(l) => l.clone(),
            Out::Pretty(j) => format!("PRETTY {}", compact_text(j)),
        })
        .collect()
}

#[test]
fn json_mode_prints_one_document_scenario() {
    let resp = Json::object(vec![("values".to_string(), Json::Array(vec![]))]);
    for how in [Render::Json, Render::Object, Render::Table(Columns::Devices), Render::List, Render::UpdateHistory] {
        let out = render(Format::Json, &how, &resp);
        assert_eq!(out.len(), 1);
        assert!(matches!(out[0], Out::Pretty(_)));
    }
    let out = render(Format::Json, &Render::Data("msg".to_string()), &resp);
    assert_eq!(lines(&out), vec!["PRETTY {\"values\":[]}".to_string()]);
    let out = render(Format::Json, &Render::LatestUpdate, &resp);
    assert_eq!(lines(&out), vec!["PRETTY null".to_string()]);
    let out = render(Format::Human, &Render::LatestUpdate, &resp);
    assert_eq!(lines(&out), vec!["(no updates for this device)".to_string()]);
}

#[test]
fn human_table_rendering() {
    let resp = Json::Array(vec![Json::object(vec![
        ("deviceUuid".to_string(), Json::string("u")),
        ("deviceName".to_string(), Json::string("n")),
    ])]);
    let out = lines(&render(Format::Human, &Render::Table(Columns::FleetDevices), &resp));
    assert_eq!(out[0], "UUID  NAME  DEVICE-ID  STATUS  LAST-SEEN");
    assert_eq!(out[1], "----  ----  ---------  ------  ---------");
    assert_eq!(out[2], "u     n     -          -       -");
}

#[test]
fn declined_confirmation_output() {
    assert_eq!(lines(&aborted(Format::Human)), vec!["Aborted.".to_string()]);
    assert_eq!(lines(&aborted(Format::Json)), vec!["PRETTY {\"status\":\"aborted\"}".to_string()]);
    assert_eq!(prompt_stream(Format::Json), Stream::Stderr);
    assert_eq!(prompt_stream(Format::Human), Stream::Stdout);
}
