//! Naming rules for uploaded files: a fresh random stem, an extension
//! derived from the declared MIME type (first known extension wins, unknown
//! types get none), and the storage path under the media directory.
//!
//! Reading the multipart stream and writing the bytes are I/O and stay with
//! the caller; this module owns the decisions.

use vstd::prelude::*;

use crate::text::str_eq;

verus! {

/// The first filesystem extension that the MIME-type table of the
/// mime_guess crate lists for `mime`, if the type is known: a lookup in a
/// fixed table, so a function of the argument alone.
pub uninterp spec fn mime_ext_of(mime: Seq<char>) -> Option<Seq<char>>;

/// Relies on mime_guess::get_mime_extensions_str: the extensions registered
/// for a MIME type, in a fixed order.
#[verifier::external_body]
fn first_extension(content_type: &str) -> (r: Option<String>)
    ensures
        r matches Some(e) ==> mime_ext_of(content_type@) == Some(e@),
        r is None ==> mime_ext_of(content_type@) is None,
{
    mime_guess::get_mime_extensions_str(content_type)
        .and_then(|exts| exts.first())
        .map(|e| (*e).to_owned())
}

/// Relies on uuid::Uuid::new_v4 and its display form: 36 characters in the
/// hyphenated format, lowercase hex digits and hyphens, so never a dot.
#[verifier::external_body]
pub fn fresh_stem() -> (r: String)
    ensures
        r@.len() == 36,
        !r@.contains('.'),
{
    uuid::Uuid::new_v4().to_string()
}

/// The stored filename for an upload: the stem with the first known
/// extension for the declared content type appended after a dot, or the
/// bare stem when the type is unknown.
pub open spec fn stored_filename_spec(stem: Seq<char>, content_type: Seq<char>) -> Seq<char> {
    match mime_ext_of(content_type) {
        Some(ext) => stem + seq!['.'] + ext,
        None => stem,
    }
}

/// Appends the extension chosen for `content_type` to `stem`.
pub fn stored_filename(stem: &str, content_type: &str) -> (r: String)
    ensures
        r@ == stored_filename_spec(stem@, content_type@),
{
    match first_extension(content_type) {
        Some(ext) => {
            let mut r = stem.to_owned();
            r.append(".");
            r.append(ext.as_str());
            proof {
                reveal_strlit(".");
                assert("."@ =~= seq!['.']);
            }
            r
        },
        None => stem.to_owned(),
    }
}

/// Whether a multipart part is the one the upload handler stores: the part
/// named "image".
pub fn is_image_part(field_name: &str) -> (r: bool)
    ensures
        r == (field_name@ == "image"@),
{
    str_eq(field_name, "image")
}

/// The filename a multipart part is stored under: parts other than the one
/// named "image" are skipped.
pub fn image_part_filename(field_name: &str, content_type: &str, stem: &str) -> (r: Option<String>)
    ensures
        field_name@ == "image"@ ==> (r matches Some(f) && f@ == stored_filename_spec(
            stem@,
            content_type@,
        )),
        field_name@ != "image"@ ==> r is None,
{
    if is_image_part(field_name) {
        Some(stored_filename(stem, content_type))
    } else {
        None
    }
}

/// The path an upload is stored under: `./media/images/<category>/<file>`.
pub open spec fn image_path_spec(category: Seq<char>, filename: Seq<char>) -> Seq<char> {
    "./media/images/"@ + category + "/"@ + filename
}

pub fn image_path(category: &str, filename: &str) -> (r: String)
    ensures
        r@ == image_path_spec(category@, filename@),
{
    let mut r = String::from_str("./media/images/");
    r.append(category);
    r.append("/");
    r.append(filename);
    r
}

} // verus!
