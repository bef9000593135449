use vstd::prelude::*;

verus! {

/// A type as written in a field declaration, in the structured form the host hands over.
pub enum TypeExpr {
    /// A path type such as `Vec<String>` or `std::option::Option<u8>`.
    Path {
        /// The type written out in full.
        text: String,
        /// The identifier of the path's first segment.
        head: String,
        /// The arguments attached to that first segment.
        args: PathArgs,
    },
    /// Any other form of type (a reference, a tuple, an array, ...).
    Other {
        /// The type written out in full.
        text: String,
    },
}

/// The arguments of a path segment.
pub enum PathArgs {
    /// No arguments: `String`.
    Plain,
    /// Angle-bracketed arguments: `Vec<u8>`, `HashMap<K, V>`.
    Angle(Vec<GenericArg>),
    /// Parenthesized arguments: `Fn(u8) -> u8`.
    Paren,
}

/// One angle-bracketed argument.
pub enum GenericArg {
    /// A type argument.
    Type(TypeExpr),
    /// A lifetime, a constant, or an associated-type binding.
    Other,
}

/// The value on the right of `key = value` in an annotation.
pub enum AttrValue {
    /// A string literal, with its contents.
    Str(String),
    /// Anything else: another literal, or a bare identifier.
    Other,
}

/// One entry inside the parentheses of an annotation.
pub enum NestedMeta {
    /// `key = value`; `key` is the identifier of the key path's first segment.
    NameValue { key: String, value: AttrValue },
    /// Any other entry: a bare path, a literal, a nested list.
    Other,
}

/// An annotation attached to a field, such as `#[builder(each = "arg")]`.
pub enum Annotation {
    /// `name(entry, ...)`: a parenthesized list of entries.
    List(Vec<NestedMeta>),
    /// A bare path, a `name = value` form, or tokens that do not parse as an annotation.
    Other,
}

/// One declared field of a record.
pub struct FieldSchema {
    pub name: String,
    pub ty: TypeExpr,
    /// The field's annotations, in the order written.
    pub annotations: Vec<Annotation>,
}

/// A record type with named fields.
pub struct RecordSchema {
    pub name: String,
    /// The fields, in declaration order.
    pub fields: Vec<FieldSchema>,
}

} // verus!
