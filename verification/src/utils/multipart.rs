//! Multipart form bodies for the two upload calls, built byte for
//! byte with a fixed boundary token.  Construction is pure: what goes
//! over the wire is exactly what these functions state.

use crate::utils::CreateTokenMetadata;
use crate::utils::json::ascii_lower;
use crate::utils::json::ascii_lower_seq;
use crate::utils::json::chars_of;
use crate::utils::json::folds_to;
use vstd::prelude::*;
use vstd::string::StrSliceExecFns;
use vstd::string::StringSliceAdditionalSpecFns;
use vstd::utf8::encode_utf8;

verus! {

/// The opening of the single file part, up to the content type:
/// boundary line and the disposition header naming the file field.
pub open spec fn image_part_opening() -> Seq<char> {
    "--------------------------f4d9c2e8b7a5310f\r\nContent-Disposition: form-data; name=\"file\"; filename=\"file\"\r\nContent-Type: "@
}

/// The closing boundary line of the file-upload body.
pub open spec fn image_body_close() -> Seq<char> {
    "\r\n--------------------------f4d9c2e8b7a5310f--\r\n"@
}

/// The whole file-upload body: boundary and headers with the declared
/// content type, a blank line, the raw file bytes, and the closing
/// boundary.
pub open spec fn image_upload_body_spec(file: Seq<u8>, content_type: Seq<char>) -> Seq<u8> {
    encode_utf8(image_part_opening()) + encode_utf8(content_type) + encode_utf8("\r\n\r\n"@)
        + file + encode_utf8(image_body_close())
}

/// Builds the multipart body that carries one file's raw bytes under
/// the given content type.
pub fn build_image_upload_body(file_contents: &Vec<u8>, content_type: &str) -> (r: Vec<u8>)
    ensures
        r@ == image_upload_body_spec(file_contents@, content_type@),
{
    let mut out =
        "--------------------------f4d9c2e8b7a5310f\r\nContent-Disposition: form-data; name=\"file\"; filename=\"file\"\r\nContent-Type: ".as_bytes_vec();
    let mut content_type_bytes = content_type.as_bytes_vec();
    out.append(&mut content_type_bytes);
    let mut blank_line = "\r\n\r\n".as_bytes_vec();
    out.append(&mut blank_line);
    let mut file_copy = vstd::slice::slice_to_vec(file_contents.as_slice());
    out.append(&mut file_copy);
    let mut close = "\r\n--------------------------f4d9c2e8b7a5310f--\r\n".as_bytes_vec();
    out.append(&mut close);
    out
}

/// One text field of the form body: boundary line, disposition header
/// carrying the field name, blank line, the value, line break.
pub open spec fn text_field_part(name: Seq<char>, value: Seq<char>) -> Seq<u8> {
    encode_utf8(
        "--------------------------f4d9c2e8b7a5310f\r\nContent-Disposition: form-data; name=\""@,
    ) + encode_utf8(name) + encode_utf8("\"\r\n\r\n"@) + encode_utf8(value) + encode_utf8("\r\n"@)
}

/// An optional text field: present exactly when the value is present
/// and non-empty; an absent or empty value adds nothing.
pub open spec fn opt_text_field_part(name: Seq<char>, value: Option<String>) -> Seq<u8> {
    match value {
        Some(v) => if v@.len() > 0 {
            text_field_part(name, v@)
        } else {
            Seq::<u8>::empty()
        },
        None => Seq::<u8>::empty(),
    }
}

/// The whole metadata form body: the required fields in declared
/// order, the image location under both of its accepted names, each
/// social field only when present and non-empty, the two fixed
/// trailing fields, then the closing boundary.
pub open spec fn metadata_form_body_spec(m: CreateTokenMetadata, image_uri: Seq<char>) -> Seq<u8> {
    text_field_part("name"@, m.name@) + text_field_part("symbol"@, m.symbol@) + text_field_part(
        "description"@,
        m.description@,
    ) + text_field_part("image"@, image_uri) + text_field_part("imageUri"@, image_uri)
        + opt_text_field_part("twitter"@, m.twitter) + opt_text_field_part("telegram"@, m.telegram)
        + opt_text_field_part("website"@, m.website) + text_field_part("showName"@, "true"@)
        + text_field_part("createdOn"@, "https://pump.fun"@) + encode_utf8(
        "--------------------------f4d9c2e8b7a5310f--\r\n"@,
    )
}

/// Appends one text field part to the body being built.
fn push_text_field(out: &mut Vec<u8>, name: &str, value: &str)
    ensures
        final(out)@ == old(out)@ + text_field_part(name@, value@),
{
    let mut opening =
        "--------------------------f4d9c2e8b7a5310f\r\nContent-Disposition: form-data; name=\"".as_bytes_vec();
    out.append(&mut opening);
    let mut name_bytes = name.as_bytes_vec();
    out.append(&mut name_bytes);
    let mut separator = "\"\r\n\r\n".as_bytes_vec();
    out.append(&mut separator);
    let mut value_bytes = value.as_bytes_vec();
    out.append(&mut value_bytes);
    let mut line_break = "\r\n".as_bytes_vec();
    out.append(&mut line_break);
}

/// Builds the multipart body that carries the metadata fields, with
/// the image location filled in under both of its accepted names and
/// each optional social field included only when set and non-empty.
pub fn build_metadata_form_body(m: &CreateTokenMetadata, image_uri: &str) -> (r: Vec<u8>)
    ensures
        r@ == metadata_form_body_spec(*m, image_uri@),
{
    let mut out: Vec<u8> = Vec::new();
    push_text_field(&mut out, "name", m.name.as_str());
    push_text_field(&mut out, "symbol", m.symbol.as_str());
    push_text_field(&mut out, "description", m.description.as_str());
    push_text_field(&mut out, "image", image_uri);
    push_text_field(&mut out, "imageUri", image_uri);
    match &m.twitter {
        Some(t) => {
            if !t.as_str().is_empty() {
                push_text_field(&mut out, "twitter", t.as_str());
            }
        },
        None => (),
    }
    match &m.telegram {
        Some(t) => {
            if !t.as_str().is_empty() {
                push_text_field(&mut out, "telegram", t.as_str());
            }
        },
        None => (),
    }
    match &m.website {
        Some(w) => {
            if !w.as_str().is_empty() {
                push_text_field(&mut out, "website", w.as_str());
            }
        },
        None => (),
    }
    push_text_field(&mut out, "showName", "true");
    push_text_field(&mut out, "createdOn", "https://pump.fun");
    let mut close = "--------------------------f4d9c2e8b7a5310f--\r\n".as_bytes_vec();
    out.append(&mut close);
    proof {
        assert(out@ =~= metadata_form_body_spec(*m, image_uri@));
    }
    out
}


/// The index of the last dot of the path, unless a path separator
/// comes after it; nothing when the path has no usable dot.
pub open spec fn last_dot(path: Seq<char>) -> Option<int>
    decreases path.len(),
{
    if path.len() == 0 {
        None
    } else {
        let i = (path.len() - 1) as int;
        if path[i] == '/' || path[i] == '\\' {
            None
        } else if path[i] == '.' {
            Some(i)
        } else {
            last_dot(path.take(i))
        }
    }
}

/// The extension of a file path: the characters after its last dot,
/// empty when there is none.
pub open spec fn extension_of(path: Seq<char>) -> Seq<char> {
    match last_dot(path) {
        Some(i) => path.subrange(i + 1, path.len() as int),
        None => Seq::<char>::empty(),
    }
}

/// The three letters of "png".
pub open spec fn png_ext() -> Seq<char> {
    seq!['p', 'n', 'g']
}

/// The three letters of "jpg".
pub open spec fn jpg_ext() -> Seq<char> {
    seq!['j', 'p', 'g']
}

/// The four letters of "jpeg".
pub open spec fn jpeg_ext() -> Seq<char> {
    seq!['j', 'p', 'e', 'g']
}

/// The three letters of "gif".
pub open spec fn gif_ext() -> Seq<char> {
    seq!['g', 'i', 'f']
}

/// The declared content type for an extension: the png, jpeg and gif
/// image types are recognized, case-insensitively; anything else is
/// sent as a generic binary type.
pub open spec fn content_type_of(ext: Seq<char>) -> Seq<char> {
    let e = ascii_lower_seq(ext);
    if e == png_ext() {
        "image/png"@
    } else if e == jpg_ext() || e == jpeg_ext() {
        "image/jpeg"@
    } else if e == gif_ext() {
        "image/gif"@
    } else {
        "application/octet-stream"@
    }
}

/// The declared content type for a file path, inferred from its
/// extension.
pub open spec fn content_type_of_path(path: Seq<char>) -> Seq<char> {
    content_type_of(extension_of(path))
}

/// Finds the last dot of the path, walking backward until a dot, a
/// path separator, or the start.
fn last_dot_index(cs: &Vec<char>) -> (r: Option<usize>)
    ensures
        match r {
            Some(i) => i < cs@.len() && last_dot(cs@) == Some(i as int),
            None => last_dot(cs@) is None,
        },
{
    let mut i: usize = cs.len();
    proof {
        assert(cs@.take(i as int) =~= cs@);
    }
    #[verifier::loop_isolation(false)]
    while i > 0
        invariant
            i <= cs@.len(),
            last_dot(cs@) == last_dot(cs@.take(i as int)),
        decreases i,
    {
        let c = cs[i - 1];
        proof {
            assert(cs@.take(i as int)[i - 1] == cs@[i - 1]);
            assert(cs@.take(i as int).take(i - 1) =~= cs@.take(i - 1));
        }
        if c == '/' || c == '\\' {
            return None;
        }
        if c == '.' {
            return Some(i - 1);
        }
        i -= 1;
    }
    None
}

/// The declared content type for a file path: the png, jpeg and gif
/// image types are recognized by extension, case-insensitively;
/// anything else is sent as a generic binary type.
pub fn content_type_for_path(path: &str) -> (r: String)
    ensures
        r@ == content_type_of_path(path@),
{
    let cs = chars_of(path);
    let ghost ext = extension_of(path@);
    let ghost low = ascii_lower_seq(ext);
    let n = cs.len();
    let start: usize = match last_dot_index(&cs) {
        Some(i) => {
            proof {
                assert(i < n);
            }
            i + 1
        },
        None => {
            proof {
                assert(low =~= Seq::<char>::empty());
            }
            return String::from_str("application/octet-stream");
        },
    };
    proof {
        assert(ext =~= cs@.subrange(start as int, n as int));
        assert forall|k: int| 0 <= k < ext.len() implies low[k] == ascii_lower(
            cs@[start + k],
        ) by {
            assert(low[k] == ascii_lower(ext[k]));
            assert(ext[k] == cs@[start + k]);
        }
    }
    let is_png = n - start == 3 && folds_to(cs[start], 'p', 'P') && folds_to(cs[start + 1], 'n', 'N')
        && folds_to(cs[start + 2], 'g', 'G');
    proof {
        if is_png {
            assert(low =~= png_ext());
        } else if low == png_ext() {
            assert(low.len() == ext.len());
            assert(ext.len() == n - start);
            assert(low[0] == ascii_lower(cs@[start + 0]));
            assert(low[1] == ascii_lower(cs@[start + 1]));
            assert(low[2] == ascii_lower(cs@[start + 2]));
            assert(false);
        }
    }
    if is_png {
        return String::from_str("image/png");
    }
    let is_jpg = n - start == 3 && folds_to(cs[start], 'j', 'J') && folds_to(cs[start + 1], 'p', 'P')
        && folds_to(cs[start + 2], 'g', 'G');
    proof {
        if is_jpg {
            assert(low =~= jpg_ext());
        } else if low == jpg_ext() {
            assert(low.len() == ext.len());
            assert(ext.len() == n - start);
            assert(low[0] == ascii_lower(cs@[start + 0]));
            assert(low[1] == ascii_lower(cs@[start + 1]));
            assert(low[2] == ascii_lower(cs@[start + 2]));
            assert(false);
        }
    }
    if is_jpg {
        return String::from_str("image/jpeg");
    }
    let is_jpeg = n - start == 4 && folds_to(cs[start], 'j', 'J') && folds_to(
        cs[start + 1],
        'p',
        'P',
    ) && folds_to(cs[start + 2], 'e', 'E') && folds_to(cs[start + 3], 'g', 'G');
    proof {
        if is_jpeg {
            assert(low =~= jpeg_ext());
        } else if low == jpeg_ext() {
            assert(low.len() == ext.len());
            assert(ext.len() == n - start);
            assert(low[0] == ascii_lower(cs@[start + 0]));
            assert(low[1] == ascii_lower(cs@[start + 1]));
            assert(low[2] == ascii_lower(cs@[start + 2]));
            assert(low[3] == ascii_lower(cs@[start + 3]));
            assert(false);
        }
    }
    if is_jpeg {
        return String::from_str("image/jpeg");
    }
    let is_gif = n - start == 3 && folds_to(cs[start], 'g', 'G') && folds_to(cs[start + 1], 'i', 'I')
        && folds_to(cs[start + 2], 'f', 'F');
    proof {
        if is_gif {
            assert(low =~= gif_ext());
        } else if low == gif_ext() {
            assert(low.len() == ext.len());
            assert(ext.len() == n - start);
            assert(low[0] == ascii_lower(cs@[start + 0]));
            assert(low[1] == ascii_lower(cs@[start + 1]));
            assert(low[2] == ascii_lower(cs@[start + 2]));
            assert(false);
        }
    }
    if is_gif {
        return String::from_str("image/gif");
    }
    String::from_str("application/octet-stream")
}

} // verus!
