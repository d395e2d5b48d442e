//! The input data model: a structured description of a type declaration,
//! as handed over by the host type-definition parser.

use vstd::prelude::*;

verus! {

/// How one tag of an enumerated type is declared: with no payload, with
/// named fields, or with positional fields. Only unit tags are eligible
/// for numeric conversion, since a bare integer cannot disambiguate
/// payload-bearing tags.
#[derive(Clone, Copy, PartialEq, Eq, Structural, Debug)]
pub enum PayloadKind {
    Unit,
    NamedFields,
    PositionalFields,
}

/// One member of an enumerated type declaration.
///
/// `explicit_discriminant` is present when the source declaration assigns
/// the tag a literal value; the literal is carried as a 128-bit signed
/// integer. `location` is an opaque handle onto the tag's source location,
/// carried through into diagnostics for the caller to render.
#[derive(Clone, Debug)]
pub struct TagDeclaration {
    pub identifier: String,
    pub payload_kind: PayloadKind,
    pub explicit_discriminant: Option<i128>,
    pub location: u64,
}

/// An enumerated type declaration: its name, its tags in declaration
/// order (the order determines default discriminant values), and an
/// optional annotation naming the integer type that stores discriminants.
#[derive(Clone, Debug)]
pub struct EnumDeclaration {
    pub name: String,
    pub tags: Vec<TagDeclaration>,
    pub representation_annotation: Option<String>,
}

/// The declaration handed to the generator. Conversion functions are
/// generated for enumerated (sum) types only; a structure or an untagged
/// union is reported as the wrong kind of input.
#[derive(Clone, Debug)]
pub enum InputDeclaration {
    Enumeration(EnumDeclaration),
    Structure,
    Union,
}

} // verus!
