use convert_case::{Case, Casing};
use vstd::prelude::*;

verus! {

/// The text that `convert_case` gives for an identifier in Pascal case.
pub uninterp spec fn pascal_of(s: Seq<char>) -> Seq<char>;

/// Relies on convert_case's `Casing::to_case` with `Case::Pascal`: the result
/// depends on the characters of the input alone.
#[verifier::external_body]
fn to_pascal(s: &str) -> (r: String)
    ensures
        r@ == pascal_of(s@),
{
    s.to_case(Case::Pascal)
}

/// The identifier in Pascal case, followed by `suffix`.
pub open spec fn pascal_ident_spec(item: Seq<char>, suffix: Seq<char>) -> Seq<char> {
    pascal_of(item) + suffix
}

/// The name of a generated type: the type's own name put in Pascal case twice
/// over (once for the type, once for the generated identifier), then `suffix`.
pub open spec fn impl_ident_spec(self_ty: Seq<char>, suffix: Seq<char>) -> Seq<char> {
    pascal_ident_spec(pascal_of(self_ty), suffix)
}

/// Puts `item` in Pascal case and appends `suffix`.
pub fn pascal_ident(item: &str, suffix: &str) -> (r: String)
    ensures
        r@ == pascal_ident_spec(item@, suffix@),
{
    let mut name = to_pascal(item);
    name.append(suffix);
    name
}

/// The name of a generated type for the implementing type `self_ty`.
pub fn impl_to_ident(self_ty: &str, suffix: &str) -> (r: String)
    ensures
        r@ == impl_ident_spec(self_ty@, suffix@),
{
    let impl_name = to_pascal(self_ty);
    pascal_ident(impl_name.as_str(), suffix)
}

} // verus!
