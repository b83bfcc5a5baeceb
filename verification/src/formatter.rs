//! The external formatter and the standard type catalogue, as the two
//! trusted calls this library makes into the `leap_lang` crate. Everything
//! else this library does with a spec file's text is stated over the named
//! result of the formatter.

use vstd::prelude::*;

verus! {

/// What `leap_lang::formatter::format` returns for a given text: `Some` of
/// the reformatted text when the text parses as a Leap spec, `None` when it
/// does not. The result depends on the text alone.
pub uninterp spec fn leap_format(text: Seq<char>) -> Option<Seq<char>>;

/// The text `text` parses and reformats to `formatted`.
pub open spec fn formats_to(text: Seq<char>, formatted: Seq<char>) -> bool {
    leap_format(text) == Some(formatted)
}

/// Relies on `leap_lang::formatter::format`: a pure function of the text,
/// returning the reformatted spec, or `None` for text it cannot parse.
#[verifier::external_body]
pub(crate) fn format_text(text: &str) -> (r: Option<String>)
    ensures
        (match r {
            Some(f) => leap_format(text@) == Some(f@),
            None => leap_format(text@) is None,
        }),
{
    leap_lang::formatter::format(text)
}

/// The text of `leap_lang::stdtypes::STD_TYPES`, the external library's
/// fixed catalogue of standard type definitions. The constant takes no
/// input; the parameter only gives the name a place to stand, and every
/// application passes zero.
pub uninterp spec fn std_catalogue(sel: int) -> Seq<char>;

/// Relies on `leap_lang::stdtypes::STD_TYPES`: a fixed catalogue of the
/// standard type definitions, owned by the external library.
#[verifier::external_body]
fn std_types_text() -> (r: String)
    ensures
        r@ == std_catalogue(0),
{
    leap_lang::stdtypes::STD_TYPES.to_owned()
}

/// The standard type catalogue: exactly the external library's constant
/// text. Obtaining it never fails; printing is the caller's.
pub fn catalogue_text() -> (r: String)
    ensures
        r@ == std_catalogue(0),
{
    std_types_text()
}

} // verus!
