use vstd::prelude::*;

verus! {

/// Whether `syn` parses the text as a single identifier (keywords and `_`
/// are not identifiers).
pub uninterp spec fn parses_as_ident(text: Seq<char>) -> bool;

/// Relies on `syn::parse_str::<syn::Ident>`: it succeeds exactly when the
/// whole text is one identifier, and its outcome depends on the text alone.
#[verifier::external_body]
pub(crate) fn is_identifier(text: &str) -> (r: bool)
    ensures
        r == parses_as_ident(text@),
{
    syn::parse_str::<syn::Ident>(text).is_ok()
}

} // verus!
