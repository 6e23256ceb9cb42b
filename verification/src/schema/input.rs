//! The declaration of a structure, as the analysis reads it.
//!
//! Whoever describes a declaration numbers the places of its source that a
//! mistake may be reported at. The description carries these numbers as
//! `span`, and the analysis hands them back with the mistakes.
use vstd::prelude::*;

verus! {

/// A literal in an option list.
pub enum Lit {
    /// A string literal, with the string it denotes.
    Str { value: String, span: usize },
    /// A literal of any other kind.
    Other { span: usize },
}

impl Lit {
    /// The place of the literal in the source.
    pub open spec fn span(self) -> usize {
        match self {
            Lit::Str { span, .. } => span,
            Lit::Other { span } => span,
        }
    }
}

/// One option of an option list. `path` is the option's name as written.
pub enum Meta {
    /// A bare word, as in `cypher(skip)`.
    Path { path: String, span: usize },
    /// A name with a value, as in `cypher(rename = "name")`.
    NameValue { path: String, lit: Lit, span: usize },
    /// A name with a list of its own, as in `cypher(bound(a, b))`.
    List { path: String, span: usize },
}

impl Meta {
    /// The option's name as written.
    pub open spec fn path(self) -> Seq<char> {
        match self {
            Meta::Path { path, .. } => path@,
            Meta::NameValue { path, .. } => path@,
            Meta::List { path, .. } => path@,
        }
    }

    /// The place of the option in the source.
    pub open spec fn span(self) -> usize {
        match self {
            Meta::Path { span, .. } => span,
            Meta::NameValue { span, .. } => span,
            Meta::List { span, .. } => span,
        }
    }
}

/// One item of an option list: an option, or a literal that stands alone.
pub enum NestedMeta {
    Meta(Meta),
    Lit(Lit),
}

/// One attribute of a structure or of a field.
pub enum AttrInput {
    /// An attribute with a list of items, as `cypher(...)` is.
    List { nested: Vec<NestedMeta> },
    /// A well-formed attribute of another shape.
    Other { span: usize },
    /// An attribute that could not be read, with the reason.
    Invalid { message: String, span: usize },
}

/// A generic argument of a path segment.
pub enum GenericArg {
    Type(TypeExpr),
    /// A lifetime, a constant, a binding or a constraint.
    Other,
}

/// What follows the name in a path segment.
pub enum PathArgs {
    /// Nothing, as in `String`.
    Empty,
    /// The arguments between `<` and `>`.
    AngleBracketed { args: Vec<GenericArg> },
    /// The arguments of a function-like path, as in `Fn(A) -> B`.
    Parenthesized,
}

/// One segment of a type path.
pub struct PathSegment {
    pub ident: String,
    pub arguments: PathArgs,
}

/// A declared type: its source text and, where it is a path such as
/// `Option<String>`, the segments of the path.
pub struct TypeExpr {
    pub text: String,
    pub path: Option<Vec<PathSegment>>,
}

/// A field of a structure.
pub struct FieldInput {
    /// The field's name; a field of a tuple structure has none.
    pub ident: Option<String>,
    pub ty: TypeExpr,
    pub attrs: Vec<AttrInput>,
}

/// A variant of an enumeration.
pub struct VariantInput {
    pub ident: String,
    pub attrs: Vec<AttrInput>,
}

/// A structure with named fields, as it is declared.
pub struct DeriveInput {
    pub ident: String,
    pub attrs: Vec<AttrInput>,
    pub fields: Vec<FieldInput>,
}

} // verus!
