use pin_relay::pin_client::{pin_endpoint, pin_request_body};

#[test]
fn pin_endpoint_is_the_fixed_pinata_address() {
    assert_eq!(pin_endpoint(), "https://api.pinata.cloud/pinning/pinByHash");
}

#[test]
fn body_names_the_cid_under_hash_to_pin() {
    assert_eq!(
        pin_request_body("QmYwAPJzv5CZsnA625s3Xf2nemtYgPpHdWEz79ojWnPbdG"),
        "{\"hashToPin\":\"QmYwAPJzv5CZsnA625s3Xf2nemtYgPpHdWEz79ojWnPbdG\"}"
    );
}

#[test]
fn body_of_empty_cid() {
    assert_eq!(pin_request_body(""), "{\"hashToPin\":\"\"}");
}

#[test]
fn body_escapes_quote_and_backslash() {
    assert_eq!(pin_request_body("a\"b\\c"), "{\"hashToPin\":\"a\\\"b\\\\c\"}");
}

#[test]
fn body_escapes_short_form_controls() {
    assert_eq!(
        pin_request_body("\u{8}\t\n\u{c}\r"),
        "{\"hashToPin\":\"\\b\\t\\n\\f\\r\"}"
    );
}

#[test]
fn body_escapes_other_controls_as_u00_hex() {
    assert_eq!(pin_request_body("\u{1}"), "{\"hashToPin\":\"\\u0001\"}");
    assert_eq!(pin_request_body("\u{1f}"), "{\"hashToPin\":\"\\u001f\"}");
}

#[test]
fn body_keeps_non_ascii_text_raw() {
    assert_eq!(pin_request_body("héllo✓"), "{\"hashToPin\":\"héllo✓\"}");
}

#[test]
fn body_matches_a_json_printer_on_awkward_text() {
    let cases = [
        "QmYwAPJzv5CZsnA625s3Xf2nemtYgPpHdWEz79ojWnPbdG",
        "",
        "a\"b\\c",
        "\u{8}\t\n\u{c}\r\u{0}\u{1f}\u{7f}",
        "héllo✓ — ∂u/∂t",
    ];
    for cid in cases {
        let mut object = serde_json::Map::new();
        object.insert(
            "hashToPin".to_string(),
            serde_json::Value::String(cid.to_string()),
        );
        let printed = serde_json::Value::Object(object).to_string();
        assert_eq!(pin_request_body(cid), printed);
    }
}
