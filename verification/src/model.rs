//! The derive input, held as plain values: the enum's name, its attributes
//! and its variants, as the item parser read them.

use vstd::prelude::*;

verus! {

/// One entry inside an attribute's parentheses, such as `name = "net"` in
/// `#[yesno(name = "net")]`.
pub struct NestedMeta {
    /// The entry's path (`name` above); a path of several segments is written
    /// with `::` between them, and one with a leading `::` starts with it.
    pub path: String,
    /// The string literal after `=`, unescaped; or the parser's message where
    /// the entry has no `=` followed by a string literal.
    pub value: Result<String, String>,
}

/// An outer attribute of the enum or of a variant.
pub struct Attribute {
    /// The attribute's path (`yesno` above), written as `NestedMeta::path` is.
    pub path: String,
    /// The entries of its argument list, in order, up to the first place where
    /// the list stops being well-formed.
    pub items: Vec<NestedMeta>,
    /// The parser's message where the argument list stops being well-formed
    /// right after `items` (or has no parentheses at all).
    pub trailing_error: Option<String>,
}

/// A variant of the enum.
pub struct Variant {
    pub ident: String,
    pub attrs: Vec<Attribute>,
    /// Whether the variant is a unit variant (no fields at all).
    pub is_unit: bool,
}

/// What kind of item the derive was applied to.
pub enum Data {
    Enum(Vec<Variant>),
    /// A struct or a union.
    Other,
}

/// The item that `#[derive(YesNoArg)]` was applied to.
pub struct DeriveInput {
    pub ident: String,
    pub attrs: Vec<Attribute>,
    pub data: Data,
}

} // verus!
