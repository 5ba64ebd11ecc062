//! File extensions for MIME types, as the MIME tables of outside crates give
//! them.
use vstd::prelude::*;

verus! {

/// The extensions that mime_guess lists for a MIME type, in its order.
pub uninterp spec fn guessed_extensions(content_type: Seq<char>) -> Option<Seq<Seq<char>>>;

/// The extension that mime2ext gives for a MIME type.
pub uninterp spec fn mime2ext_extension(content_type: Seq<char>) -> Option<Seq<char>>;

pub open spec fn string_views(v: Seq<String>) -> Seq<Seq<char>> {
    v.map_values(|s: String| s@)
}

/// Relies on mime_guess::get_mime_extensions_str: the known extensions of a
/// MIME type (parameters ignored), or `None` for an unknown type.
#[verifier::external_body]
pub(crate) fn known_extensions(content_type: &str) -> (r: Option<Vec<String>>)
    ensures
        match r {
            Some(v) => guessed_extensions(content_type@) == Some(string_views(v@)),
            None => guessed_extensions(content_type@) is None,
        },
{
    mime_guess::get_mime_extensions_str(content_type).map(
        |exts| exts.iter().map(|e| e.to_string()).collect(),
    )
}

/// Relies on mime2ext::mime2ext: the usual extension of a MIME type, or
/// `None` for an unknown or malformed one.
#[verifier::external_body]
pub(crate) fn mime_extension(content_type: &str) -> (r: Option<String>)
    ensures
        match r {
            Some(e) => mime2ext_extension(content_type@) == Some(e@),
            None => mime2ext_extension(content_type@) is None,
        },
{
    mime2ext::mime2ext(content_type).map(|e| e.to_string())
}

} // verus!
