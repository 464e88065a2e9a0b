use rufish::json::quote;
use rufish::text::{decimal_string, starts_with_scheme, trim_end_slashes};
use rufish::{BootOverride, BootOverrideInner, ResetRequest, SessionCreate};

#[test]
fn quoting_matches_serde_json() {
    for s in ["", "plain", "q\"uote", "back\\slash", "tab\tnl\ncr\r", "\u{8}\u{c}", "\u{0}\u{1f}\u{7f}", "é ü 日本", "/slash"] {
        assert_eq!(quote(s), serde_json::to_string(s).unwrap(), "for {:?}", s);
    }
}

#[test]
fn control_characters_use_lower_case_hex() {
    assert_eq!(quote("\u{1b}"), "\"\\u001b\"");
    assert_eq!(quote("\u{0}"), "\"\\u0000\"");
}

#[test]
fn request_bodies() {
    let s = SessionCreate { user_name: "root".to_string(), password: "p\\w".to_string() };
    assert_eq!(s.to_json(), r#"{"UserName":"root","Password":"p\\w"}"#);
    let r = ResetRequest { reset_type: "On".to_string() };
    assert_eq!(r.to_json(), r#"{"ResetType":"On"}"#);
    let inner = BootOverrideInner { boot_source_override_target: "Usb".to_string(), boot_source_override_enabled: None };
    assert_eq!(inner.to_json(), r#"{"BootSourceOverrideEnabled":null,"BootSourceOverrideTarget":"Usb"}"#);
    let b = BootOverride { boot: inner };
    assert_eq!(b.to_json(), r#"{"Boot":{"BootSourceOverrideEnabled":null,"BootSourceOverrideTarget":"Usb"}}"#);
}

#[test]
fn decimal_numbers() {
    assert_eq!(decimal_string(0), "0");
    assert_eq!(decimal_string(404), "404");
    assert_eq!(decimal_string(65535), "65535");
}

#[test]
fn url_prefix_and_slashes() {
    assert!(starts_with_scheme("http://x"));
    assert!(starts_with_scheme("https://x"));
    assert!(!starts_with_scheme("http"));
    assert!(!starts_with_scheme("httpbmc"));
    assert!(!starts_with_scheme("https:/x"));
    assert!(!starts_with_scheme("htt"));
    assert!(!starts_with_scheme("/redfish"));
    assert_eq!(trim_end_slashes("a//"), "a");
    assert_eq!(trim_end_slashes("///"), "");
    assert_eq!(trim_end_slashes("a/b"), "a/b");
}

#[test]
fn distinct_strings_have_distinct_literals() {
    let xs = ["a\"", "a\\\"", "a\\", "\n", "\\n", "u000a", "\u{1}", "\\u0001"];
    for (i, a) in xs.iter().enumerate() {
        for (j, b) in xs.iter().enumerate() {
            assert_eq!(i == j, quote(a) == quote(b), "{:?} {:?}", a, b);
        }
    }
}
