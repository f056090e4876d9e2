use vstd::prelude::*;

verus! {

/// `s` with every underscore turned into a dash.
pub open spec fn dashes_of(s: Seq<char>) -> Seq<char> {
    s.map_values(|c: char| if c == '_' { '-' } else { c })
}

/// What `str::to_lowercase` returns for the characters `s`.
pub uninterp spec fn lower_of(s: Seq<char>) -> Seq<char>;

/// The name of the argument that a generated setter reads for a property.
pub open spec fn arg_name_of(ident: Seq<char>) -> Seq<char> {
    lower_of(dashes_of(ident))
}

/// The namespace that holds everything generated for a target type.
pub open spec fn module_of(self_name: Seq<char>) -> Seq<char> {
    self_name + "_types"@
}

/// The display name of a property, such as `TextNode::STRONG`.
pub open spec fn display_of(self_name: Seq<char>, ident: Seq<char>) -> Seq<char> {
    self_name + "::"@ + ident
}

/// Relies on `str::replace` with a one-character pattern: every `_` becomes
/// `-` and every other character stays.
#[verifier::external_body]
fn replace_underscores(s: &str) -> (r: String)
    ensures
        r@ == dashes_of(s@),
{
    s.replace("_", "-")
}

/// Relies on `str::to_lowercase`: the result depends on the characters alone.
#[verifier::external_body]
fn lowercase(s: &str) -> (r: String)
    ensures
        r@ == lower_of(s@),
{
    s.to_lowercase()
}

/// The argument name for a property identifier: underscores become dashes,
/// then the text is lowercased.
pub fn arg_name(ident: &String) -> (r: String)
    ensures
        r@ == arg_name_of(ident@),
{
    let dashed = replace_underscores(ident.as_str());
    lowercase(dashed.as_str())
}

/// The module name derived from the target type's name.
pub fn module_name(self_name: &String) -> (r: String)
    ensures
        r@ == module_of(self_name@),
{
    self_name.clone().concat("_types")
}

/// The display name of property `ident` of the type `self_name`.
pub fn display_name(self_name: &String, ident: &String) -> (r: String)
    ensures
        r@ == display_of(self_name@, ident@),
{
    self_name.clone().concat("::").concat(ident.as_str())
}

/// Whether the text `s` is exactly `lit`.
pub fn is_text(s: &String, lit: &str) -> (r: bool)
    ensures
        r == (s@ == lit@),
{
    *s == String::from_str(lit)
}

} // verus!
