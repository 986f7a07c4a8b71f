//! Tolerant extraction of upload results from a response value: an
//! exact typed match first, then known alternate field names in a
//! fixed priority order, then a scan for any location-like string.
//! When every strategy fails, the raw response body is carried in the
//! error for diagnosis.

use crate::error::ParseError;
use crate::utils::ImageUploadResponse;
use crate::utils::TokenMetadata;
use crate::utils::TokenMetadataResponse;
use crate::utils::json::JsonValue;
use crate::utils::json::first_location_in;
use crate::utils::json::get_bool;
use crate::utils::json::get_field;
use crate::utils::json::get_text;
use vstd::prelude::*;
use vstd::string::StringExecFns;

verus! {

/// The stored-image location an upload response designates: the exact
/// field first, then the alternate names in fixed priority order,
/// then the first location-like string anywhere in the value.
pub open spec fn image_location_of(j: JsonValue) -> Option<Seq<char>> {
    if get_text(j, "imageUri"@) is Some {
        get_text(j, "imageUri"@)
    } else if get_text(j, "image_uri"@) is Some {
        get_text(j, "image_uri"@)
    } else if get_text(j, "uri"@) is Some {
        get_text(j, "uri"@)
    } else if get_text(j, "url"@) is Some {
        get_text(j, "url"@)
    } else {
        first_location_in(j)
    }
}

/// Extracts the stored-image location from an upload response.  On
/// failure the raw body comes back in the error, untouched.
pub fn parse_image_response(j: &JsonValue, raw: &str) -> (r: Result<ImageUploadResponse, ParseError>)
    ensures
        match r {
            Ok(resp) => image_location_of(*j) == Some(resp.image_uri@),
            Err(e) => image_location_of(*j) is None && e.body@ == raw@,
        },
{
    match j.text_field("imageUri") {
        Some(s) => {
            return Ok(ImageUploadResponse { image_uri: s });
        },
        None => (),
    }
    match j.text_field("image_uri") {
        Some(s) => {
            return Ok(ImageUploadResponse { image_uri: s });
        },
        None => (),
    }
    match j.text_field("uri") {
        Some(s) => {
            return Ok(ImageUploadResponse { image_uri: s });
        },
        None => (),
    }
    match j.text_field("url") {
        Some(s) => {
            return Ok(ImageUploadResponse { image_uri: s });
        },
        None => (),
    }
    match j.first_location() {
        Some(s) => {
            return Ok(ImageUploadResponse { image_uri: s });
        },
        None => (),
    }
    Err(ParseError { body: String::from_str(raw) })
}

/// Whether an optional text field is acceptable: absent, null, or a
/// string.
pub open spec fn opt_text_ok(j: JsonValue, name: Seq<char>) -> bool {
    match get_field(j, name) {
        None => true,
        Some(JsonValue::Null) => true,
        Some(JsonValue::Text(s)) => true,
        Some(_) => false,
    }
}

/// The value of an optional text field: nothing when absent or null.
pub open spec fn opt_text_of(j: JsonValue, name: Seq<char>) -> Option<Seq<char>> {
    match get_field(j, name) {
        Some(JsonValue::Text(s)) => Some(s@),
        _ => None,
    }
}

/// Whether a value carries every required metadata field with the
/// right kind, and no ill-kinded optional field.
pub open spec fn token_metadata_parses(j: JsonValue) -> bool {
    &&& get_text(j, "name"@) is Some
    &&& get_text(j, "symbol"@) is Some
    &&& get_text(j, "description"@) is Some
    &&& get_text(j, "image"@) is Some
    &&& get_bool(j, "showName"@) is Some
    &&& get_text(j, "createdOn"@) is Some
    &&& opt_text_ok(j, "twitter"@)
    &&& opt_text_ok(j, "telegram"@)
    &&& opt_text_ok(j, "website"@)
}

/// The record a value parses to, field for field.
pub open spec fn is_token_metadata_of(j: JsonValue, m: TokenMetadata) -> bool {
    &&& get_text(j, "name"@) == Some(m.name@)
    &&& get_text(j, "symbol"@) == Some(m.symbol@)
    &&& get_text(j, "description"@) == Some(m.description@)
    &&& get_text(j, "image"@) == Some(m.image@)
    &&& get_bool(j, "showName"@) == Some(m.show_name)
    &&& get_text(j, "createdOn"@) == Some(m.created_on@)
    &&& match m.twitter {
        Some(t) => opt_text_of(j, "twitter"@) == Some(t@),
        None => opt_text_of(j, "twitter"@) is None,
    }
    &&& match m.telegram {
        Some(t) => opt_text_of(j, "telegram"@) == Some(t@),
        None => opt_text_of(j, "telegram"@) is None,
    }
    &&& match m.website {
        Some(w) => opt_text_of(j, "website"@) == Some(w@),
        None => opt_text_of(j, "website"@) is None,
    }
}

/// Reads one optional text field: absent and null both count as not
/// set; any other kind of value is refused.
fn opt_text_field(j: &JsonValue, name: &str) -> (r: Option<Option<String>>)
    ensures
        match r {
            Some(opt) => opt_text_ok(*j, name@) && (match opt {
                Some(s) => opt_text_of(*j, name@) == Some(s@),
                None => opt_text_of(*j, name@) is None,
            }),
            None => !opt_text_ok(*j, name@),
        },
{
    match j.field(name) {
        None => Some(None),
        Some(v) => match v {
            JsonValue::Null => Some(None),
            JsonValue::Text(s) => Some(Some(s.clone())),
            _ => None,
        },
    }
}

/// Reads a metadata record out of a value by field name, tolerating
/// the optional social fields absent or null.  Nothing comes back
/// exactly when a required field is missing or ill-kinded.
pub fn token_metadata_from_json(j: &JsonValue) -> (r: Option<TokenMetadata>)
    ensures
        match r {
            Some(m) => token_metadata_parses(*j) && is_token_metadata_of(*j, m),
            None => !token_metadata_parses(*j),
        },
{
    let name = match j.text_field("name") {
        Some(s) => s,
        None => {
            return None;
        },
    };
    let symbol = match j.text_field("symbol") {
        Some(s) => s,
        None => {
            return None;
        },
    };
    let description = match j.text_field("description") {
        Some(s) => s,
        None => {
            return None;
        },
    };
    let image = match j.text_field("image") {
        Some(s) => s,
        None => {
            return None;
        },
    };
    let show_name = match j.bool_field("showName") {
        Some(b) => b,
        None => {
            return None;
        },
    };
    let created_on = match j.text_field("createdOn") {
        Some(s) => s,
        None => {
            return None;
        },
    };
    let twitter = match opt_text_field(j, "twitter") {
        Some(o) => o,
        None => {
            return None;
        },
    };
    let telegram = match opt_text_field(j, "telegram") {
        Some(o) => o,
        None => {
            return None;
        },
    };
    let website = match opt_text_field(j, "website") {
        Some(o) => o,
        None => {
            return None;
        },
    };
    Some(
        TokenMetadata {
            name,
            symbol,
            description,
            image,
            show_name,
            created_on,
            twitter,
            telegram,
            website,
        },
    )
}

/// Where the metadata record lives in a response: under "metadata",
/// else under "data", else the response is the record itself.
pub open spec fn metadata_source(j: JsonValue) -> JsonValue {
    if get_field(j, "metadata"@) is Some {
        get_field(j, "metadata"@)->0
    } else if get_field(j, "data"@) is Some {
        get_field(j, "data"@)->0
    } else {
        j
    }
}

/// The stored-metadata location an upload response designates: the
/// exact field first, then the alternate names in fixed priority
/// order, then the first location-like string anywhere in the value.
pub open spec fn metadata_location_of(j: JsonValue) -> Option<Seq<char>> {
    if get_text(j, "metadataUri"@) is Some {
        get_text(j, "metadataUri"@)
    } else if get_text(j, "metadata_uri"@) is Some {
        get_text(j, "metadata_uri"@)
    } else if get_text(j, "uri"@) is Some {
        get_text(j, "uri"@)
    } else if get_text(j, "url"@) is Some {
        get_text(j, "url"@)
    } else {
        first_location_in(j)
    }
}

/// Extracts the echoed metadata record and its stored location from
/// an upload response.  Either both come back, or the call fails with
/// the raw body in the error: no partial result is ever returned.
pub fn parse_metadata_response(j: &JsonValue, raw: &str) -> (r: Result<
    TokenMetadataResponse,
    ParseError,
>)
    ensures
        match r {
            Ok(resp) => {
                &&& token_metadata_parses(metadata_source(*j))
                &&& is_token_metadata_of(metadata_source(*j), resp.metadata)
                &&& metadata_location_of(*j) == Some(resp.metadata_uri@)
            },
            Err(e) => (!token_metadata_parses(metadata_source(*j)) || metadata_location_of(*j)
                is None) && e.body@ == raw@,
        },
{
    let source = match j.field("metadata") {
        Some(v) => v,
        None => match j.field("data") {
            Some(v) => v,
            None => j,
        },
    };
    let metadata = match token_metadata_from_json(source) {
        Some(m) => m,
        None => {
            return Err(ParseError { body: String::from_str(raw) });
        },
    };
    let metadata_uri = match j.text_field("metadataUri") {
        Some(s) => Some(s),
        None => match j.text_field("metadata_uri") {
            Some(s) => Some(s),
            None => match j.text_field("uri") {
                Some(s) => Some(s),
                None => match j.text_field("url") {
                    Some(s) => Some(s),
                    None => j.first_location(),
                },
            },
        },
    };
    match metadata_uri {
        Some(u) => Ok(TokenMetadataResponse { metadata, metadata_uri: u }),
        None => Err(ParseError { body: String::from_str(raw) }),
    }
}

} // verus!
