use pumpfun::utils::CreateTokenMetadata;
use pumpfun::utils::multipart::build_image_upload_body;
use pumpfun::utils::multipart::build_metadata_form_body;
use pumpfun::utils::multipart::content_type_for_path;

const BOUNDARY: &str = "------------------------f4d9c2e8b7a5310f";

fn field(name: &str, value: &str) -> String {
    format!(
        "--{}\r\nContent-Disposition: form-data; name=\"{}\"\r\n\r\n{}\r\n",
        BOUNDARY, name, value
    )
}

#[test]
fn image_body_wraps_the_raw_file_bytes() {
    let file = vec![0x89u8, 0x50, 0x4e, 0x47];
    let body = build_image_upload_body(&file, "application/octet-stream");
    let mut expected = format!(
        "--{}\r\nContent-Disposition: form-data; name=\"file\"; filename=\"file\"\r\nContent-Type: application/octet-stream\r\n\r\n",
        BOUNDARY
    )
    .into_bytes();
    expected.extend_from_slice(&file);
    expected.extend_from_slice(format!("\r\n--{}--\r\n", BOUNDARY).as_bytes());
    assert_eq!(body, expected);
}

#[test]
fn metadata_body_without_optional_fields() {
    let m = CreateTokenMetadata {
        name: String::from("My Token"),
        symbol: String::from("MT"),
        description: String::from("A token"),
        file: String::from("unused.png"),
        twitter: None,
        telegram: None,
        website: None,
    };
    let body = build_metadata_form_body(&m, "ipfs://img");
    let mut expected = String::new();
    expected.push_str(&field("name", "My Token"));
    expected.push_str(&field("symbol", "MT"));
    expected.push_str(&field("description", "A token"));
    expected.push_str(&field("image", "ipfs://img"));
    expected.push_str(&field("imageUri", "ipfs://img"));
    expected.push_str(&field("showName", "true"));
    expected.push_str(&field("createdOn", "https://pump.fun"));
    expected.push_str(&format!("--{}--\r\n", BOUNDARY));
    assert_eq!(body, expected.into_bytes());
}

#[test]
fn metadata_body_includes_set_optional_fields_in_order() {
    let m = CreateTokenMetadata {
        name: String::from("N"),
        symbol: String::from("S"),
        description: String::from("D"),
        file: String::from("f"),
        twitter: Some(String::from("@t")),
        telegram: None,
        website: Some(String::from("https://w")),
    };
    let body = build_metadata_form_body(&m, "u");
    let mut expected = String::new();
    expected.push_str(&field("name", "N"));
    expected.push_str(&field("symbol", "S"));
    expected.push_str(&field("description", "D"));
    expected.push_str(&field("image", "u"));
    expected.push_str(&field("imageUri", "u"));
    expected.push_str(&field("twitter", "@t"));
    expected.push_str(&field("website", "https://w"));
    expected.push_str(&field("showName", "true"));
    expected.push_str(&field("createdOn", "https://pump.fun"));
    expected.push_str(&format!("--{}--\r\n", BOUNDARY));
    assert_eq!(body, expected.into_bytes());
}

#[test]
fn image_body_carries_the_declared_content_type() {
    let file = vec![1u8, 2];
    let body = build_image_upload_body(&file, "image/png");
    let text = String::from_utf8_lossy(&body).into_owned();
    assert!(text.contains("Content-Type: image/png\r\n\r\n"));
}

#[test]
fn content_types_for_recognized_extensions() {
    assert_eq!(content_type_for_path("a/b/token.png"), "image/png");
    assert_eq!(content_type_for_path("token.JPG"), "image/jpeg");
    assert_eq!(content_type_for_path("token.jpeg"), "image/jpeg");
    assert_eq!(content_type_for_path("token.GIF"), "image/gif");
}

#[test]
fn content_type_falls_back_to_binary() {
    assert_eq!(content_type_for_path("token.webp"), "application/octet-stream");
    assert_eq!(content_type_for_path("no_extension"), "application/octet-stream");
    assert_eq!(content_type_for_path("dir.v2/file"), "application/octet-stream");
    assert_eq!(content_type_for_path("trailing."), "application/octet-stream");
}

#[test]
fn metadata_body_omits_empty_optional_fields() {
    let m = CreateTokenMetadata {
        name: String::from("N"),
        symbol: String::from("S"),
        description: String::from("D"),
        file: String::from("f"),
        twitter: Some(String::new()),
        telegram: Some(String::new()),
        website: None,
    };
    let body = build_metadata_form_body(&m, "u");
    let text = String::from_utf8_lossy(&body).into_owned();
    assert!(!text.contains("name=\"twitter\""));
    assert!(!text.contains("name=\"telegram\""));
    assert!(!text.contains("name=\"website\""));
}
