use issuer_core::error::StoreError;
use issuer_core::handlers::HandlerError;
use issuer_core::serialization::{
    deserialize_hex, deserialize_hex_try_from, parse_from_string, serialize_hex,
};
use issuer_core::settings::{SettingRow, Settings};
use issuer_core::template_address::TemplateAddress;

fn row(name: &str, value: Option<&str>) -> SettingRow {
    SettingRow { name: name.to_string(), value: value.map(|v| v.to_string()) }
}

#[test]
fn defaults_are_the_documented_ones() {
    let s = Settings::new();
    assert_eq!(s.indexer_json_rpc_url, "http://localhost:18300");
    assert!(s.issuer_template.is_none());
}

#[test]
fn load_of_no_rows_yields_defaults() {
    let s = Settings::load(&Vec::new()).unwrap();
    assert_eq!(s.indexer_json_rpc_url, "http://localhost:18300");
    assert!(s.issuer_template.is_none());
}

#[test]
fn load_reads_the_url_row() {
    let rows = vec![row("indexer.json_rpc_url", Some("http://x"))];
    let s = Settings::load(&rows).unwrap();
    assert_eq!(s.indexer_json_rpc_url, "http://x");
    assert!(s.issuer_template.is_none());
}

#[test]
fn load_skips_null_and_unknown_rows() {
    let rows = vec![
        row("indexer.json_rpc_url", None),
        row("something.else", Some("ignored")),
    ];
    let s = Settings::load(&rows).unwrap();
    assert_eq!(s.indexer_json_rpc_url, "http://localhost:18300");
    assert!(s.issuer_template.is_none());
}

#[test]
fn load_decodes_the_template_row() {
    let hex = "11".repeat(32);
    let rows = vec![row("issuer.template", Some(&hex))];
    let s = Settings::load(&rows).unwrap();
    let t = s.issuer_template.expect("expected a template");
    assert_eq!(t.as_bytes(), &[0x11u8; 32][..]);
}

#[test]
fn load_rejects_a_bad_template_row() {
    let rows = vec![row("issuer.template", Some("zz"))];
    let e = Settings::load(&rows).unwrap_err();
    assert!(matches!(e, StoreError::Decode { .. }));
}

#[test]
fn load_rejects_a_template_of_wrong_length() {
    let rows = vec![row("issuer.template", Some("1122"))];
    let e = Settings::load(&rows).unwrap_err();
    assert!(matches!(e, StoreError::Decode { .. }));
}

#[test]
fn later_rows_override_earlier_ones() {
    let rows = vec![
        row("indexer.json_rpc_url", Some("http://first")),
        row("indexer.json_rpc_url", Some("http://second")),
    ];
    let s = Settings::load(&rows).unwrap();
    assert_eq!(s.indexer_json_rpc_url, "http://second");
}

#[test]
fn save_writes_one_row_per_field() {
    let s = Settings {
        indexer_json_rpc_url: "http://x".to_string(),
        issuer_template: TemplateAddress::try_from_vec(vec![0xabu8; 32]),
    };
    let rows = s.save();
    assert_eq!(rows.len(), 2);
    assert_eq!(rows[0].name, "indexer.json_rpc_url");
    assert_eq!(rows[0].value.as_deref(), Some("http://x"));
    assert_eq!(rows[1].name, "issuer.template");
    assert_eq!(rows[1].value.as_deref(), Some("ab".repeat(32).as_str()));
}

#[test]
fn save_writes_null_for_an_absent_template() {
    let s = Settings { indexer_json_rpc_url: "http://x".to_string(), issuer_template: None };
    let rows = s.save();
    assert_eq!(rows.len(), 2);
    assert_eq!(rows[1].name, "issuer.template");
    assert!(rows[1].value.is_none());
}

#[test]
fn save_then_load_round_trips() {
    let s = Settings {
        indexer_json_rpc_url: "http://x".to_string(),
        issuer_template: TemplateAddress::try_from_vec((0u8..32).collect()),
    };
    let back = Settings::load(&s.save()).unwrap();
    assert_eq!(back.indexer_json_rpc_url, "http://x");
    assert_eq!(back.issuer_template.unwrap().as_bytes(), &(0u8..32).collect::<Vec<u8>>()[..]);
}

#[test]
fn load_reads_saved_rows_in_any_order() {
    let hex = "ab".repeat(32);
    let rows = vec![
        row("issuer.template", Some(&hex)),
        row("unrelated.key", Some("noise")),
        row("indexer.json_rpc_url", Some("http://x")),
    ];
    let s = Settings::load(&rows).unwrap();
    assert_eq!(s.indexer_json_rpc_url, "http://x");
    assert_eq!(s.issuer_template.unwrap().as_bytes(), &[0xabu8; 32][..]);
}

#[test]
fn hex_encodes_lowercase_two_digits_per_byte() {
    assert_eq!(serialize_hex(&[0xbe, 0xef]), "beef");
    assert_eq!(serialize_hex(&[]), "");
    assert_eq!(serialize_hex(&[0x00, 0x0f, 0xf0]), "000ff0");
}

#[test]
fn hex_decodes_either_case() {
    assert_eq!(deserialize_hex("beef").unwrap(), vec![0xbe, 0xef]);
    assert_eq!(deserialize_hex("BEEF").unwrap(), vec![0xbe, 0xef]);
    assert_eq!(deserialize_hex("").unwrap(), Vec::<u8>::new());
}

#[test]
fn hex_rejects_odd_length_and_bad_digits() {
    assert!(matches!(deserialize_hex("abc"), Err(StoreError::Decode { .. })));
    assert!(matches!(deserialize_hex("zz"), Err(StoreError::Decode { .. })));
}

#[test]
fn template_address_accepts_exactly_32_bytes() {
    assert!(TemplateAddress::try_from_vec(vec![7u8; 32]).is_some());
    assert!(TemplateAddress::try_from_vec(vec![7u8; 31]).is_none());
    assert!(TemplateAddress::try_from_vec(vec![7u8; 33]).is_none());
}

#[test]
fn template_address_hex_round_trips() {
    let hex = "00112233445566778899aabbccddeeff00112233445566778899aabbccddeeff";
    let t = deserialize_hex_try_from(hex).unwrap();
    assert_eq!(t.to_hex(), hex);
}

#[test]
fn template_address_rejects_wrong_length_hex() {
    let e = deserialize_hex_try_from("112233").unwrap_err();
    assert!(matches!(e, StoreError::Decode { .. }));
}

#[test]
fn template_address_equality_compares_bytes() {
    let a = TemplateAddress::try_from_vec(vec![1u8; 32]).unwrap();
    let b = TemplateAddress::try_from_vec(vec![1u8; 32]).unwrap();
    let c = TemplateAddress::try_from_vec(vec![2u8; 32]).unwrap();
    assert!(a == b);
    assert!(a != c);
    assert!(a == a.clone());
}

#[test]
fn parse_from_string_reads_decimal_numbers() {
    assert_eq!(parse_from_string("0").unwrap(), 0);
    assert_eq!(parse_from_string("42").unwrap(), 42);
    assert_eq!(parse_from_string("18446744073709551615").unwrap(), u64::MAX);
}

#[test]
fn parse_from_string_accepts_one_leading_plus() {
    // The same strings the standard library's u64 parsing accepts.
    assert_eq!(parse_from_string("+5").unwrap(), 5);
    assert_eq!(parse_from_string("+0").unwrap(), 0);
    assert_eq!(parse_from_string("+18446744073709551615").unwrap(), u64::MAX);
    assert!(matches!(parse_from_string("+"), Err(StoreError::Decode { .. })));
    assert!(matches!(parse_from_string("++1"), Err(StoreError::Decode { .. })));
}

#[test]
fn parse_from_string_rejects_non_numbers() {
    assert!(matches!(parse_from_string(""), Err(StoreError::Decode { .. })));
    assert!(matches!(parse_from_string("x1"), Err(StoreError::Decode { .. })));
    assert!(matches!(parse_from_string("1 2"), Err(StoreError::Decode { .. })));
    assert!(matches!(parse_from_string("-5"), Err(StoreError::Decode { .. })));
}

#[test]
fn parse_from_string_reports_the_failing_string() {
    let e = parse_from_string("x1").unwrap_err();
    assert_eq!(
        e.message(),
        "Failed to decode parse_from_string u64: Cannot parse string 'x1'"
    );
}

#[test]
fn decode_errors_name_the_failing_step() {
    let e = deserialize_hex("zz").unwrap_err();
    assert!(matches!(
        e,
        StoreError::Decode { ref operation, ref item, .. }
            if operation == "deserialize_hex" && item == "Vec<u8>"
    ));
    let e = deserialize_hex_try_from("1122").unwrap_err();
    assert!(matches!(
        e,
        StoreError::Decode { ref operation, ref item, .. }
            if operation == "deserialize_hex_try_from" && item == "TemplateAddress"
    ));
    let e = deserialize_hex_try_from("zz").unwrap_err();
    assert!(matches!(
        e,
        StoreError::Decode { ref operation, .. } if operation == "deserialize_hex"
    ));
}

#[test]
fn parse_from_string_rejects_overflow() {
    assert!(matches!(
        parse_from_string("18446744073709551616"),
        Err(StoreError::Decode { .. })
    ));
}

#[test]
fn store_error_messages() {
    let db = StoreError::Db { details: "boom".to_string() };
    assert_eq!(db.message(), "DB error: boom");
    let dec = StoreError::Decode {
        operation: "deserialize_hex".to_string(),
        item: "Vec<u8>".to_string(),
        details: "odd length".to_string(),
    };
    assert_eq!(dec.message(), "Failed to decode deserialize_hex Vec<u8>: odd length");
}

#[test]
fn handler_error_messages() {
    assert_eq!(HandlerError::NotFound.message(), "Not found");
    let e = HandlerError::Internal { details: "boom".to_string() };
    assert_eq!(e.message(), "Error: boom");
    let db = StoreError::Db { details: "boom".to_string() };
    let mapped = HandlerError::from_store_error(&db);
    assert!(matches!(mapped, HandlerError::Internal { ref details } if details == "DB error: boom"));
}
