// Unit tests of the JSON parser, the signature checks, and the small
// text utilities.

use hmac::{Hmac, Mac};
use sha2::Sha256;

use rcom_core::hexcode::hex_decode;
use rcom_core::jsonparse::parse_json;
use rcom_core::jsonval::Json;
use rcom_core::order_types::OrderStatus;
use rcom_core::product_types::ProductSortOrder;
use rcom_core::str_eq;
use rcom_core::stripe_sig::stripe_verify;
use rcom_core::square::verify_square_signature;
use rcom_core::textbelt_sms::format_phone_number;
use rcom_core::utils::truncate;

#[test]
fn parses_scalars() {
    assert!(matches!(parse_json("null"), Some(Json::Null)));
    assert!(matches!(parse_json("true"), Some(Json::Bool(true))));
    assert!(matches!(parse_json("false"), Some(Json::Bool(false))));
    assert!(matches!(parse_json("42"), Some(Json::Int(42))));
    assert!(matches!(parse_json("-7"), Some(Json::Int(-7))));
    assert!(matches!(parse_json("  1999 "), Some(Json::Int(1999))));
    match parse_json(r#""hello""#) {
        Some(Json::Str(s)) => assert_eq!(s, "hello"),
        other => panic!("unexpected: {:?}", fmt(&other)),
    }
}

fn fmt(j: &Option<Json>) -> &'static str {
    match j {
        None => "parse failure",
        Some(Json::Null) => "null",
        Some(Json::Bool(_)) => "bool",
        Some(Json::Int(_)) => "int",
        Some(Json::NumOther) => "num-other",
        Some(Json::Str(_)) => "string",
        Some(Json::Arr(_)) => "array",
        Some(Json::Obj(_)) => "object",
    }
}

#[test]
fn parses_numbers_with_fraction_or_exponent_as_opaque() {
    assert!(matches!(parse_json("19.99"), Some(Json::NumOther)));
    assert!(matches!(parse_json("-0.5"), Some(Json::NumOther)));
    assert!(matches!(parse_json("1e9"), Some(Json::NumOther)));
    assert!(matches!(parse_json("2E-3"), Some(Json::NumOther)));
    // Nineteen digits exceed the exact-integer range the parser keeps.
    assert!(matches!(
        parse_json("1234567890123456789"),
        Some(Json::NumOther)
    ));
    assert!(matches!(
        parse_json("123456789012345678"),
        Some(Json::Int(123456789012345678))
    ));
}

#[test]
fn parses_strings_with_escapes() {
    match parse_json(r#""a\"b\\c\nd""#) {
        Some(Json::Str(s)) => assert_eq!(s, "a\"b\\c\nd"),
        other => panic!("unexpected: {}", fmt(&other)),
    }
    match parse_json(r#""A\u000aé€""#) {
        Some(Json::Str(s)) => assert_eq!(s, "A\n\u{e9}\u{20ac}"),
        other => panic!("unexpected: {}", fmt(&other)),
    }
    // A surrogate pair combines into one character; a lone surrogate is
    // not a scalar value, and a malformed escape is not part of the
    // grammar either.
    match parse_json(r#""\ud834\udd1e!""#) {
        Some(Json::Str(s)) => assert_eq!(s, "\u{1d11e}!"),
        other => panic!("unexpected: {}", fmt(&other)),
    }
    assert!(parse_json(r#""\ud800""#).is_none());
    assert!(parse_json(r#""\ud834\u0041""#).is_none());
    assert!(parse_json(r#""\udd1e""#).is_none());
    assert!(parse_json(r#""\uZZZZ""#).is_none());
    assert!(parse_json(r#""\u00""#).is_none());
    assert!(parse_json(r#""\q""#).is_none());
}

#[test]
fn parses_nested_structures() {
    let text = r#"{ "a": [1, 2, {"b": null}], "c": {"d": "e"}, "a": 9 }"#;
    let j = parse_json(text).expect("should parse");
    match j.field("a") {
        Some(Json::Arr(items)) => assert_eq!(items.len(), 3),
        _ => panic!("expected array at a"),
    }
    match j.field("c") {
        Some(c) => assert_eq!(c.str_field("d").map(|s| s.as_str()), Some("e")),
        None => panic!("expected object at c"),
    }
}

#[test]
fn rejects_malformed_texts() {
    assert!(parse_json("").is_none());
    assert!(parse_json("{").is_none());
    assert!(parse_json("{}extra").is_none());
    assert!(parse_json(r#"{"a" 1}"#).is_none());
    assert!(parse_json(r#"{"a":1,}"#).is_none());
    assert!(parse_json("[1,]").is_none());
    assert!(parse_json("nul").is_none());
    assert!(parse_json("'single'").is_none());
    assert!(parse_json("-").is_none());
    assert!(parse_json("1.").is_none());
}

#[test]
fn field_lookup_takes_the_first_binding() {
    let j = parse_json(r#"{"k": 1, "k": 2}"#).expect("should parse");
    assert_eq!(j.int_field("k"), Some(1));
    assert_eq!(j.int_field("missing"), None);
    assert!(j.str_field("k").is_none());
}

#[test]
fn hex_decoding() {
    assert_eq!(hex_decode("deadbeef"), Some(vec![0xde, 0xad, 0xbe, 0xef]));
    assert_eq!(hex_decode("DEADBEEF"), Some(vec![0xde, 0xad, 0xbe, 0xef]));
    assert_eq!(hex_decode(""), Some(vec![]));
    assert_eq!(hex_decode("abc"), None);
    assert_eq!(hex_decode("zz"), None);
}

fn stripe_header(secret: &str, t: &str, body: &str) -> String {
    let mut mac = Hmac::<Sha256>::new_from_slice(secret.as_bytes()).unwrap();
    mac.update(t.as_bytes());
    mac.update(b".");
    mac.update(body.as_bytes());
    let tag = mac.finalize().into_bytes();
    let mut hex = String::new();
    for b in tag.iter() {
        hex.push_str(&format!("{:02x}", b));
    }
    format!("t={},v1={}", t, hex)
}

#[test]
fn stripe_signature_accepts_the_documented_scheme() {
    let body = r#"{"id":"evt_x"}"#;
    let header = stripe_header("sec", "1700000000", body);
    assert!(stripe_verify("sec", &header, body));
    // A second candidate signature is enough when one matches.
    let with_extra = format!("{},v1=0000", header);
    assert!(stripe_verify("sec", &with_extra, body));
    let reordered = {
        let pos = header.find(",").unwrap();
        format!("{},{}", &header[pos + 1..], &header[..pos])
    };
    assert!(stripe_verify("sec", &reordered, body));
}

#[test]
fn stripe_signature_rejects_everything_else() {
    let body = r#"{"id":"evt_x"}"#;
    let header = stripe_header("sec", "1700000000", body);
    assert!(!stripe_verify("other", &header, body));
    assert!(!stripe_verify("sec", &header, r#"{"id":"evt_y"}"#));
    assert!(!stripe_verify("sec", "v1=abcd", body));
    assert!(!stripe_verify("sec", "t=1700000000", body));
    assert!(!stripe_verify("sec", "", body));
    // The timestamp is part of the signed bytes.
    let wrong_t = {
        let rest = &header[header.find(",").unwrap()..];
        format!("t=1700000001{}", rest)
    };
    assert!(!stripe_verify("sec", &wrong_t, body));
}

#[test]
fn square_signature_is_base64_hmac_of_url_and_body() {
    let body = r#"{"event_id":"e"}"#;
    let url = "https://shop.example.com/api/webhooks/square";
    let mut mac = Hmac::<Sha256>::new_from_slice(b"key").unwrap();
    mac.update(url.as_bytes());
    mac.update(body.as_bytes());
    let sig = base64::Engine::encode(
        &base64::engine::general_purpose::STANDARD,
        mac.finalize().into_bytes(),
    );
    assert!(verify_square_signature(body, &sig, "key", url));
    assert!(!verify_square_signature(body, &sig, "other", url));
    assert!(!verify_square_signature(body, &sig, "key", "https://elsewhere.example.com"));
    assert!(!verify_square_signature(body, "bogus", "key", url));
}

#[test]
fn str_eq_compares_content() {
    assert!(str_eq("abc", "abc"));
    assert!(!str_eq("abc", "abd"));
    assert!(!str_eq("abc", "ab"));
    assert!(str_eq("", ""));
}

#[test]
fn truncate_keeps_short_text_and_cuts_long_text() {
    assert_eq!(truncate("short", 10), "short");
    assert_eq!(truncate("exactly", 7), "exactly");
    assert_eq!(truncate("a longer sentence", 8), "a longer...");
}

#[test]
fn format_phone_number_normalizes_to_e164() {
    assert_eq!(format_phone_number("(555) 123-4567").unwrap(), "+15551234567");
    assert_eq!(format_phone_number("1-555-123-4567").unwrap(), "+15551234567");
    assert_eq!(format_phone_number("44 20 7946 0958 99").unwrap(), "+442079460958 99".replace(" ", ""));
    assert!(format_phone_number("12345").is_err());
}

#[test]
fn status_labels() {
    assert_eq!(OrderStatus::Pending.label(), "Pending");
    assert_eq!(OrderStatus::Cancelled.badge_class(), "badge-error");
    assert_eq!(ProductSortOrder::PriceAsc.label(), "Price (Low to High)");
}

#[test]
fn storage_tags_are_lowercase() {
    assert_eq!(rcom_core::webhooks::PaymentProvider::Stripe.text(), "stripe");
    assert_eq!(rcom_core::webhooks::PaymentProvider::Square.text(), "square");
    assert_eq!(rcom_core::webhooks::OrderStatus::Completed.text(), "completed");
    assert_eq!(rcom_core::webhooks::OrderStatus::Refunded.text(), "refunded");
}
