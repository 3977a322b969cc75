use vidsave_core::json::{JsonNumber, JsonValue};
use vidsave_core::update_check::{
    check_release_body, check_release_json, evaluate_release, installed_components, installer_args, is_newer,
    parse_version, platform_asset_name_for, release_from_json, InstalledComponents, Release,
    ReleaseAsset, UpdateError,
};

#[test]
fn is_newer_compares_major_minor_patch() {
    assert!(is_newer("3.0.1", "3.0.0"));
    assert!(is_newer("3.1.0", "3.0.9"));
    assert!(is_newer("4.0.0", "3.9.9"));
    assert!(!is_newer("3.0.0", "3.0.0"));
    assert!(!is_newer("2.9.9", "3.0.0"));
}

#[test]
fn parse_version_defaults_missing_parts_to_zero() {
    assert_eq!(parse_version("3.0"), (3, 0, 0));
    assert_eq!(parse_version("3"), (3, 0, 0));
    assert_eq!(parse_version("not-a-version"), (0, 0, 0));
}

#[test]
fn parse_version_reads_each_part_on_its_own() {
    assert_eq!(parse_version("1.x.7"), (1, 0, 7));
    assert_eq!(parse_version("10.20.30.40"), (10, 20, 30));
    assert_eq!(parse_version("99999999999.1.2"), (0, 1, 2));
    assert_eq!(parse_version("+2.0.1"), (2, 0, 1));
}

fn asset(name: &str) -> ReleaseAsset {
    ReleaseAsset {
        name: name.to_string(),
        browser_download_url: format!("https://example.com/{name}"),
    }
}

fn release(tag: &str) -> Release {
    Release {
        tag_name: tag.to_string(),
        body: "notes".to_string(),
        assets: vec![
            asset("ytb-dl-tui-install-windows-x86_64.exe"),
            asset("ytb-dl-tui-install-linux-x86_64"),
        ],
    }
}

#[test]
fn newer_release_picks_the_platform_asset() {
    let info = evaluate_release(&release("v3.1.0"), "3.0.0", false).unwrap().unwrap();
    assert_eq!(info.version, "3.1.0");
    assert_eq!(info.notes, "notes");
    assert_eq!(info.asset_name, "ytb-dl-tui-install-linux-x86_64");
    assert_eq!(info.asset_url, "https://example.com/ytb-dl-tui-install-linux-x86_64");
    let win = evaluate_release(&release("3.1.0"), "3.0.0", true).unwrap().unwrap();
    assert_eq!(win.asset_name, "ytb-dl-tui-install-windows-x86_64.exe");
}

#[test]
fn same_or_older_release_is_no_update() {
    assert!(evaluate_release(&release("v3.0.0"), "3.0.0", false).unwrap().is_none());
    assert!(evaluate_release(&release("vv2.0.0"), "3.0.0", false).unwrap().is_none());
}

#[test]
fn newer_release_without_platform_asset_is_an_error() {
    let mut rel = release("v9.0.0");
    rel.assets.retain(|a| a.name.contains("windows"));
    let err = evaluate_release(&rel, "3.0.0", false).unwrap_err();
    assert_eq!(err, UpdateError::NoAsset("ytb-dl-tui-install-linux-x86_64".to_string()));
    assert_eq!(
        err.message(),
        "the latest release has no ytb-dl-tui-install-linux-x86_64 asset"
    );
}

fn s(v: &str) -> JsonValue {
    JsonValue::Str(v.to_string())
}

fn obj(entries: Vec<(&str, JsonValue)>) -> JsonValue {
    JsonValue::Object(entries.into_iter().map(|(k, v)| (k.to_string(), v)).collect())
}

#[test]
fn release_description_is_read_from_json() {
    let v = obj(vec![
        ("tag_name", s("v3.2.0")),
        ("html_url", s("https://example.com")),
        (
            "assets",
            JsonValue::Array(vec![obj(vec![
                ("name", s("ytb-dl-tui-install-linux-x86_64")),
                ("size", JsonValue::Number(JsonNumber { as_u64: Some(5), text: "5".to_string() })),
                ("browser_download_url", s("https://example.com/dl")),
            ])]),
        ),
    ]);
    let rel = release_from_json(&v).unwrap();
    assert_eq!(rel.tag_name, "v3.2.0");
    assert_eq!(rel.body, "");
    assert_eq!(rel.assets.len(), 1);
    assert_eq!(rel.assets[0].browser_download_url, "https://example.com/dl");
    let info = check_release_json(&v, "3.1.9", false).unwrap().unwrap();
    assert_eq!(info.asset_url, "https://example.com/dl");
}

#[test]
fn malformed_release_description_is_refused() {
    let no_assets = obj(vec![("tag_name", s("v1.0.0"))]);
    assert!(release_from_json(&no_assets).is_none());
    assert_eq!(
        check_release_json(&no_assets, "0.1.0", false).unwrap_err(),
        UpdateError::MalformedRelease
    );
    let null_body = obj(vec![
        ("tag_name", s("v1.0.0")),
        ("body", JsonValue::Null),
        ("assets", JsonValue::Array(vec![])),
    ]);
    assert!(release_from_json(&null_body).is_none());
    let bad_asset = obj(vec![
        ("tag_name", s("v1.0.0")),
        ("assets", JsonValue::Array(vec![obj(vec![("name", s("x"))])])),
    ]);
    assert!(release_from_json(&bad_asset).is_none());
}

#[test]
fn installer_is_relaunched_with_the_installed_components() {
    assert_eq!(
        installer_args(InstalledComponents { tui: true, gui: true }),
        vec!["--silent".to_string()]
    );
    assert_eq!(
        installer_args(InstalledComponents { tui: false, gui: true }),
        vec!["--silent".to_string(), "--no-tui".to_string()]
    );
    assert_eq!(
        installer_args(InstalledComponents { tui: false, gui: false }),
        vec!["--silent".to_string(), "--no-tui".to_string(), "--no-gui".to_string()]
    );
}

#[test]
fn unknown_executable_directory_reinstalls_both() {
    assert_eq!(
        installed_components(false, false, false),
        InstalledComponents { tui: true, gui: true }
    );
    assert_eq!(
        installed_components(true, true, false),
        InstalledComponents { tui: true, gui: false }
    );
}

#[test]
fn platform_asset_names() {
    assert_eq!(platform_asset_name_for(true), "ytb-dl-tui-install-windows-x86_64.exe");
    assert_eq!(platform_asset_name_for(false), "ytb-dl-tui-install-linux-x86_64");
}

#[test]
fn release_text_is_parsed_before_it_is_checked() {
    let body = r#"{"tag_name":"v9.0.0","body":"notes","assets":[
        {"name":"ytb-dl-tui-install-linux-x86_64","browser_download_url":"https://example.com/l"}]}"#;
    let info = check_release_body(body.as_bytes(), "1.0.0", false).unwrap().unwrap();
    assert_eq!(info.version, "9.0.0");
    assert_eq!(info.notes, "notes");
    assert_eq!(info.asset_url, "https://example.com/l");
    assert!(check_release_body(body.as_bytes(), "9.0.0", false).unwrap().is_none());
    assert_eq!(
        check_release_body(br#"{"tag_name":"v1.0.0"}"#, "0.1.0", false).unwrap_err(),
        UpdateError::MalformedRelease
    );
    match check_release_body(b"<html>rate limited</html>", "1.0.0", false).unwrap_err() {
        UpdateError::NotJson(e) => assert!(!e.is_empty()),
        other => panic!("expected a parse failure, got {other:?}"),
    }
    let e = UpdateError::NotJson("expected value at line 1 column 1".to_string());
    assert_eq!(e.message(), "parsing release info: expected value at line 1 column 1");
}
