use vstd::prelude::*;
use vstd::string::StringExecFns;

verus! {

/// The MIME type used when the content is not recognised.
pub const FALLBACK_MIME: &'static str = "application/octet-stream";

/// The file name used when the content is not recognised; it has no
/// extension.
pub const FALLBACK_NAME: &'static str = "owo";

/// What `infer::get` recognises in a byte prefix: its MIME type and its
/// file extension, or nothing.
pub uninterp spec fn detected_type(b: Seq<u8>) -> Option<(Seq<char>, Seq<char>)>;

/// The detected type as character sequences.
pub open spec fn detection_view(d: Option<(String, String)>) -> Option<(Seq<char>, Seq<char>)> {
    match d {
        Some(t) => Some((t.0@, t.1@)),
        None => None,
    }
}

/// The MIME type and the upload file name for a detected type: the name
/// is `owo` with the type's extension, and an unrecognised content gets the
/// fallback type and name.
pub open spec fn kind_of(d: Option<(Seq<char>, Seq<char>)>) -> (Seq<char>, Seq<char>) {
    match d {
        Some(t) => (t.0, "owo."@ + t.1),
        None => (FALLBACK_MIME@, FALLBACK_NAME@),
    }
}

/// Relies on `infer::get` with `Type::mime_type` and `Type::extension`:
/// the built-in matchers are tried in a fixed order on the bytes alone, so
/// the answer depends on the bytes alone.
#[verifier::external_body]
fn detect(buf: &[u8]) -> (r: Option<(String, String)>)
    ensures
        detection_view(r) == detected_type(buf@),
{
    match infer::get(buf) {
        Some(t) => Some((t.mime_type().to_string(), t.extension().to_string())),
        None => None,
    }
}

/// The MIME type and upload file name for what content detection found
/// (a MIME type and an extension), or for nothing found.
pub fn content_kind(detected: Option<(String, String)>) -> (r: (String, String))
    ensures
        (r.0@, r.1@) == kind_of(detection_view(detected)),
{
    match detected {
        Some((mime, ext)) => {
            let mut name = String::from_str("owo.");
            name.append(ext.as_str());
            (mime, name)
        },
        None => (String::from_str(FALLBACK_MIME), String::from_str(FALLBACK_NAME)),
    }
}

/// The MIME type and upload file name for content that starts with
/// `prefix`.
pub fn sniff(prefix: &[u8]) -> (r: (String, String))
    ensures
        (r.0@, r.1@) == kind_of(detected_type(prefix@)),
{
    content_kind(detect(prefix))
}

} // verus!
