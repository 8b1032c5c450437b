use vstd::prelude::*;

verus! {

/// The characters of `s` with leading and trailing whitespace removed,
/// as `str::trim` defines it. Named only: the contracts of this library
/// never say which characters count as whitespace.
pub uninterp spec fn trim_of(s: Seq<char>) -> Seq<char>;

/// Relies on `str::trim`: returns the input without leading and trailing
/// whitespace; the result depends on the characters alone.
#[verifier::external_body]
pub(crate) fn trimmed(s: &str) -> (r: String)
    ensures
        r@ == trim_of(s@),
{
    s.trim().to_string()
}

} // verus!
