use energyflag::release::{assess_release, find_exe_asset, json_string, latest_release_url, ReleaseCheck};
use energyflag::version::{ver_tuple, version_at_most};

#[test]
fn version_tags() {
    assert_eq!(ver_tuple("v1.2.3"), (1, 2, 3));
    assert_eq!(ver_tuple("1.2.3"), (1, 2, 3));
    assert_eq!(ver_tuple("  v1.10.0-beta+5 "), (1, 10, 0));
    assert_eq!(ver_tuple("1.2"), (1, 2, 0));
    assert_eq!(ver_tuple(""), (0, 0, 0));
    assert_eq!(ver_tuple("v"), (0, 0, 0));
    assert_eq!(ver_tuple("vv2.x.3"), (2, 0, 3));
    assert_eq!(ver_tuple("1. 2 .3"), (1, 2, 3));
    assert_eq!(ver_tuple("4294967296.1"), (0, 1, 0));
    assert_eq!(ver_tuple("1.2.3.4"), (1, 2, 3));
    assert_eq!(ver_tuple(" v 1"), (1, 0, 0));
    assert_eq!(ver_tuple("1-2+3"), (1, 2, 3));
    assert_eq!(ver_tuple("1..3"), (1, 0, 3));
    assert_eq!(ver_tuple("V1.2.3"), (0, 2, 3));
}

#[test]
fn version_order_is_tuple_order() {
    let pairs = [((1, 2, 3), (1, 2, 3)), ((1, 2, 3), (1, 3, 0)), ((2, 0, 0), (1, 9, 9)), ((0, 0, 1), (0, 0, 0)), ((1, 2, 3), (1, 2, 4))];
    for (a, b) in pairs {
        assert_eq!(version_at_most(a, b), a <= b);
        assert_eq!(version_at_most(b, a), b <= a);
    }
}

const RELEASE: &str = r#"{"url":"x","tag_name": "v0.3.0","assets":[
 {"name":"notes.zip","browser_download_url":"https://example.com/notes.zip"},
 {"name":"setup","browser_download_url" : "https://example.com/EnergyFlag-Setup.EXE"},
 {"name":"other","browser_download_url":"https://example.com/second.exe"}]}"#;

#[test]
fn json_values() {
    assert_eq!(json_string(RELEASE, "tag_name"), Some("v0.3.0".to_string()));
    assert_eq!(json_string(RELEASE, "url"), Some("x".to_string()));
    assert_eq!(json_string(RELEASE, "missing"), None);
    assert_eq!(json_string(r#"{"tag_name": 5}"#, "tag_name"), None);
    assert_eq!(json_string(r#"{"tag_name": "unterminated}"#, "tag_name"), None);
    assert_eq!(json_string(r#"{"a":"","b":"é"}"#, "a"), Some(String::new()));
    assert_eq!(json_string(r#"{"a":"","b":"é"}"#, "b"), Some("é".to_string()));
}

#[test]
fn first_exe_asset_in_any_case() {
    assert_eq!(find_exe_asset(RELEASE), Some("https://example.com/EnergyFlag-Setup.EXE".to_string()));
    assert_eq!(find_exe_asset(r#"{"browser_download_url":"a.zip"}"#), None);
    assert_eq!(find_exe_asset(""), None);
    assert_eq!(find_exe_asset(r#"{"browser_download_url":"exe"}"#), None);
    assert_eq!(find_exe_asset(r#"{"browser_download_url":".ExE"}"#), Some(".ExE".to_string()));
}

#[test]
fn release_verdicts() {
    assert!(matches!(assess_release("{}", "0.2.0"), ReleaseCheck::Unreadable));
    assert!(matches!(assess_release(r#"{"tag_name":""}"#, "0.2.0"), ReleaseCheck::Unreadable));
    match assess_release(RELEASE, "0.3.0") {
        ReleaseCheck::UpToDate { latest } => assert_eq!(latest, "v0.3.0"),
        _ => panic!("expected up to date"),
    }
    match assess_release(RELEASE, "0.4.1") {
        ReleaseCheck::UpToDate { latest } => assert_eq!(latest, "v0.3.0"),
        _ => panic!("expected up to date"),
    }
    match assess_release(RELEASE, "0.2.9") {
        ReleaseCheck::Available { latest, installer_url } => {
            assert_eq!(latest, "v0.3.0");
            assert_eq!(installer_url, "https://example.com/EnergyFlag-Setup.EXE");
        }
        _ => panic!("expected an offer"),
    }
    match assess_release(r#"{"tag_name":"v9.0.0","browser_download_url":"a.msi"}"#, "0.2.9") {
        ReleaseCheck::NoInstaller { latest } => assert_eq!(latest, "v9.0.0"),
        _ => panic!("expected no installer"),
    }
}

#[test]
fn release_api_address() {
    assert_eq!(
        latest_release_url(1700000000),
        "https://api.github.com/repos/gabrielchaves6/energyflag/releases/latest?_=1700000000"
    );
    assert_eq!(
        latest_release_url(0),
        "https://api.github.com/repos/gabrielchaves6/energyflag/releases/latest?_=0"
    );
}

#[test]
fn a_leading_v_changes_nothing() {
    for tag in ["1.2.3", "0.10.7-rc1", "", "12", "x.y", "1.2.3.4", "4294967296.1"] {
        assert_eq!(ver_tuple(&format!("v{tag}")), ver_tuple(tag), "tag {:?}", tag);
    }
}

#[test]
fn versions_order_numerically() {
    assert!(!version_at_most(ver_tuple("1.10.0"), ver_tuple("1.9.0")));
    assert!(version_at_most(ver_tuple("1.9.0"), ver_tuple("1.10.0")));
    assert!(!version_at_most(ver_tuple("v2"), ver_tuple("1.99.99")));
}
