use driven::dx_config::DrivenDxConfig;
use driven::json::{json_number, json_signed, json_string, member, render_array, render_object};
use driven::strategy::artifacts::parent_path;
use driven::strategy::{LaneClaim, LaneId, PassNumber, WorkerId};
use driven::text::push_signed_decimal;

#[test]
fn json_strings_escape_as_serde_json_does() {
    for text in [
        "plain",
        "quote \" and backslash \\",
        "line\nbreak\ttab\r",
        "control \u{1} \u{1f} \u{7f}",
        "unicode é ü 漢字 🦀",
        "",
    ] {
        assert_eq!(json_string(text), serde_json::to_string(text).unwrap(), "{:?}", text);
    }
}

#[test]
fn json_numbers_render_as_serde_json_does() {
    assert_eq!(json_number(u64::MAX), serde_json::to_string(&u64::MAX).unwrap());
    assert_eq!(json_signed(i32::MIN), serde_json::to_string(&i32::MIN).unwrap());
    assert_eq!(json_signed(-7), "-7");
}

#[test]
fn json_objects_lay_out_as_serde_json_does() {
    let inner = render_array(&vec![json_number(1), json_number(2)], true, 1);
    let entries = vec![
        member("a", json_string("x")),
        member("b", inner),
        member("c", render_array(&Vec::new(), true, 1)),
        member("d", render_object(&Vec::new(), true, 1)),
    ];
    let mut expected = serde_json::Map::new();
    expected.insert("a".to_string(), serde_json::Value::from("x"));
    expected.insert("b".to_string(), serde_json::Value::from(vec![1u64, 2]));
    expected.insert("c".to_string(), serde_json::Value::Array(Vec::new()));
    expected.insert("d".to_string(), serde_json::Value::Object(serde_json::Map::new()));
    let expected = serde_json::Value::Object(expected);

    assert_eq!(render_object(&entries, true, 0), serde_json::to_string_pretty(&expected).unwrap());

    let compact = vec![
        member("a", json_string("x")),
        member("b", render_array(&vec![json_number(1), json_number(2)], false, 0)),
        member("c", render_array(&Vec::new(), false, 0)),
        member("d", render_object(&Vec::new(), false, 0)),
    ];
    assert_eq!(render_object(&compact, false, 0), serde_json::to_string(&expected).unwrap());
}

#[test]
fn claim_json_is_valid_json_with_its_fields() {
    let claim = LaneClaim::new(
        LaneId::new(3).unwrap(),
        PassNumber::new(2).unwrap(),
        WorkerId::new("worker-json").unwrap(),
        "json \"scope\"",
    );
    let parsed: serde_json::Value = serde_json::from_str(&claim.to_json(true, 0)).unwrap();
    assert_eq!(parsed["lane"], 3);
    assert_eq!(parsed["pass"], 2);
    assert_eq!(parsed["worker_id"], "worker-json");
    assert_eq!(parsed["scope"], "json \"scope\"");
    assert_eq!(parsed["status"], "claimed");
    assert_eq!(parsed["worker"]["kind"], "automation");
    assert!(parsed.get("claim_id").is_none());
    let compact: serde_json::Value = serde_json::from_str(&claim.to_json(false, 0)).unwrap();
    assert_eq!(compact, parsed);
}

#[test]
fn signed_decimals_cover_the_whole_range() {
    let mut s = String::from("n=");
    push_signed_decimal(&mut s, i64::MIN);
    assert_eq!(s, "n=-9223372036854775808");
    let mut t = String::new();
    push_signed_decimal(&mut t, i64::MAX);
    assert_eq!(t, "9223372036854775807");
}

#[test]
fn parents_follow_std_path_parent() {
    for path in ["/", "/a", "/a/b", "/a/b/", "/a/./b/.", "a", "a/b", "a/b/", "./a", ".", "./", "", "a/./b", "a//b", "../a"] {
        let expected = std::path::Path::new(path)
            .parent()
            .map(|p| p.to_string_lossy().into_owned());
        assert_eq!(parent_path(path), expected, "{:?}", path);
    }
}

#[test]
fn dx_directories_derive_from_the_workspace_and_cache() {
    let config = DrivenDxConfig::from_roots("/work", "/work/.dx/cache");
    assert_eq!(config.workspace_root, "/work");
    assert_eq!(config.cache_dir, "/work/.dx/cache");
    assert_eq!(config.sr_dir, "/work/.dx/serializer");
    assert_eq!(config.receipts_dir, "/work/.dx/receipts/driven");
    assert_eq!(config.sr_path("status"), "/work/.dx/serializer/status.sr");

    let rootless = DrivenDxConfig::from_roots("/work", "/");
    assert_eq!(rootless.sr_dir, "/work/.dx/serializer");
}
