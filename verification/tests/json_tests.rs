use pumpfun::utils::json::JsonValue;
use pumpfun::utils::json::is_location_like;
use pumpfun::utils::response::parse_image_response;
use pumpfun::utils::response::parse_metadata_response;
use pumpfun::utils::response::token_metadata_from_json;

fn text(s: &str) -> JsonValue {
    JsonValue::Text(String::from(s))
}

fn obj(fields: Vec<(&str, JsonValue)>) -> JsonValue {
    JsonValue::Object(
        fields
            .into_iter()
            .map(|(k, v)| (String::from(k), v))
            .collect(),
    )
}

fn metadata_fields() -> Vec<(&'static str, JsonValue)> {
    vec![
        ("name", text("My Token")),
        ("symbol", text("MT")),
        ("description", text("A token")),
        ("image", text("ipfs://img")),
        ("showName", JsonValue::Bool(true)),
        ("createdOn", text("https://pump.fun")),
    ]
}

#[test]
fn image_location_from_primary_field() {
    let j = obj(vec![("imageUri", text("https://ipfs.io/ipfs/abc"))]);
    let r = parse_image_response(&j, "{}").unwrap();
    assert_eq!(r.image_uri, "https://ipfs.io/ipfs/abc");
}

#[test]
fn image_location_from_alternate_field_name() {
    let j = obj(vec![
        ("status", text("ok")),
        ("image_uri", text("https://ipfs.io/ipfs/xyz")),
    ]);
    let r = parse_image_response(&j, "{}").unwrap();
    assert_eq!(r.image_uri, "https://ipfs.io/ipfs/xyz");
}

#[test]
fn image_location_priority_order_is_fixed() {
    let j = obj(vec![
        ("url", text("https://low-priority")),
        ("imageUri", text("https://high-priority")),
    ]);
    let r = parse_image_response(&j, "{}").unwrap();
    assert_eq!(r.image_uri, "https://high-priority");
}

#[test]
fn image_location_found_by_recursive_scan() {
    let j = obj(vec![
        ("status", text("ok")),
        (
            "result",
            obj(vec![("files", JsonValue::Array(vec![text("ipfs://deep")]))]),
        ),
    ]);
    let r = parse_image_response(&j, "{}").unwrap();
    assert_eq!(r.image_uri, "ipfs://deep");
}

#[test]
fn image_location_scan_is_case_insensitive() {
    let j = obj(vec![("x", text("IPFS://LOUD"))]);
    let r = parse_image_response(&j, "{}").unwrap();
    assert_eq!(r.image_uri, "IPFS://LOUD");
}

#[test]
fn image_parse_failure_carries_raw_body() {
    let raw = "{\"status\":\"error\"}";
    let j = obj(vec![("status", text("error!")), ("code", JsonValue::Number)]);
    let e = parse_image_response(&j, raw).unwrap_err();
    assert_eq!(e.body, raw);
}

#[test]
fn location_likeness() {
    assert!(is_location_like("https://example.com"));
    assert!(is_location_like("http://x"));
    assert!(is_location_like("see ipfs here"));
    assert!(is_location_like("QmIpFsHash"));
    assert!(!is_location_like("hello"));
    assert!(!is_location_like("htt"));
    assert!(!is_location_like("error!"));
}

#[test]
fn token_metadata_reads_required_and_optional_fields() {
    let mut fields = metadata_fields();
    fields.push(("twitter", text("@tok")));
    fields.push(("website", JsonValue::Null));
    let m = token_metadata_from_json(&obj(fields)).unwrap();
    assert_eq!(m.name, "My Token");
    assert_eq!(m.symbol, "MT");
    assert_eq!(m.image, "ipfs://img");
    assert!(m.show_name);
    assert_eq!(m.twitter.as_deref(), Some("@tok"));
    assert_eq!(m.telegram, None);
    assert_eq!(m.website, None);
}

#[test]
fn token_metadata_rejects_missing_required_field() {
    let mut fields = metadata_fields();
    fields.retain(|(k, _)| *k != "symbol");
    assert!(token_metadata_from_json(&obj(fields)).is_none());
}

#[test]
fn metadata_response_under_metadata_key() {
    let j = obj(vec![
        ("metadata", obj(metadata_fields())),
        ("metadataUri", text("https://ipfs.io/ipfs/meta")),
    ]);
    let r = parse_metadata_response(&j, "{}").unwrap();
    assert_eq!(r.metadata.name, "My Token");
    assert_eq!(r.metadata_uri, "https://ipfs.io/ipfs/meta");
}

#[test]
fn metadata_response_under_data_key_with_alternate_uri_name() {
    let j = obj(vec![
        ("data", obj(metadata_fields())),
        ("uri", text("ipfs://meta2")),
    ]);
    let r = parse_metadata_response(&j, "{}").unwrap();
    assert_eq!(r.metadata.symbol, "MT");
    assert_eq!(r.metadata_uri, "ipfs://meta2");
}

#[test]
fn metadata_response_flat_with_scanned_uri() {
    // The response itself is the record; the location is only found
    // by the recursive scan (the image field holds one).
    let j = obj(metadata_fields());
    let r = parse_metadata_response(&j, "{}").unwrap();
    assert_eq!(r.metadata_uri, "ipfs://img");
}

#[test]
fn metadata_parse_failure_carries_raw_body() {
    let raw = "plain words";
    let j = obj(vec![("answer", JsonValue::Number)]);
    let e = parse_metadata_response(&j, raw).unwrap_err();
    assert_eq!(e.body, raw);
}
