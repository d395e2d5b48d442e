//! The generator: the last stage of the pipeline, and the whole pipeline
//! itself. From a validated enumeration and its discriminant table it
//! builds the abstract description of the conversion function: a dispatch
//! table over the resolved representation, with every unmatched input
//! falling through to "no match".

use vstd::prelude::*;

use crate::decl::InputDeclaration;
use crate::repr::{resolve_representation, spec_resolve, ResolvedRepresentation};
use crate::table::{compute_table, discriminant_at, DiscriminantTable};
use crate::validate::{all_unit, spec_diagnostics, validate, Diagnostic};

verus! {

/// One row of the generated dispatch: inputs whose bit pattern equals
/// `value` convert to the tag named `identifier`. Dispatch is by exact
/// equality, so arms need not be contiguous or sorted.
#[derive(Clone, Debug)]
pub struct DispatchArm {
    pub value: u128,
    pub identifier: String,
}

/// The generated conversion: a function over the resolved representation
/// that returns the matching tag of `enum_name` when the input equals
/// some arm's discriminant, and "no match" otherwise. Arms stand in
/// declaration order; emission order follows them.
#[derive(Clone, Debug)]
pub struct GeneratedConversion {
    pub enum_name: String,
    pub repr: ResolvedRepresentation,
    pub arms: Vec<DispatchArm>,
}

impl GeneratedConversion {
    /// The fixed identifier of the generated function.
    pub fn function_name() -> (m: &'static str)
        ensures
            m@ == "n"@,
    {
        "n"
    }
}

/// Why generation failed. Failures are returned as data; no partial
/// conversion is ever produced for an invalid declaration.
#[derive(Clone, Debug)]
pub enum GenerateError {
    /// The declaration is not a sum type, so there is nothing to number.
    WrongInputKind,
    /// Some tags carry associated data: one diagnostic per such tag.
    UnsupportedVariantPayload(Vec<Diagnostic>),
}

/// Build the conversion description from a discriminant table: one
/// dispatch arm per table entry, in table order.
pub fn emit_conversion(name: &String, t: &DiscriminantTable) -> (c: GeneratedConversion)
    ensures
        c.enum_name == *name,
        c.repr == t.repr,
        c.arms@.len() == t.entries@.len(),
        forall|i: int|
            0 <= i < t.entries@.len() ==> (#[trigger] c.arms@[i]).value == t.entries@[i].value
                && c.arms@[i].identifier == t.entries@[i].identifier,
{
    let mut arms: Vec<DispatchArm> = Vec::new();
    let mut i: usize = 0;
    while i < t.entries.len()
        invariant
            i <= t.entries@.len(),
            arms@.len() == i,
            forall|j: int|
                0 <= j < i ==> (#[trigger] arms@[j]).value == t.entries@[j].value
                    && arms@[j].identifier == t.entries@[j].identifier,
        decreases t.entries@.len() - i,
    {
        let entry = &t.entries[i];
        arms.push(DispatchArm { value: entry.value, identifier: entry.identifier.clone() });
        i = i + 1;
    }
    GeneratedConversion { enum_name: name.clone(), repr: t.repr, arms }
}

/// Run the whole pipeline on one declaration: validate it, resolve the
/// representation, compute the discriminants, and emit the conversion.
///
/// A declaration that is not a sum type fails with `WrongInputKind`; one
/// whose tags carry payloads fails with `UnsupportedVariantPayload`,
/// naming every such tag. For every other declaration the result is the
/// conversion: its representation is the one the annotation resolves to,
/// and it has one arm per tag in declaration order, carrying that tag's
/// identifier and discriminant.
pub fn generate(input: &InputDeclaration) -> (r: Result<GeneratedConversion, GenerateError>)
    ensures
        r matches Err(GenerateError::WrongInputKind) <==> (input is Structure || input is Union),
        r is Ok <==> (input matches InputDeclaration::Enumeration(e) && all_unit(e.tags@)),
        input matches InputDeclaration::Enumeration(e) ==> {
            &&& !all_unit(e.tags@) ==> (r matches Err(GenerateError::UnsupportedVariantPayload(ds))
                && ds@ == spec_diagnostics(e.tags@) && ds@.len() > 0)
            &&& all_unit(e.tags@) ==> (r matches Ok(c) && {
                let repr = spec_resolve(e.representation_annotation.deep_view());
                &&& c.enum_name == e.name
                &&& c.repr == repr
                &&& c.arms@.len() == e.tags@.len()
                &&& forall|i: int|
                    0 <= i < e.tags@.len() ==> (#[trigger] c.arms@[i]).value as int
                        == discriminant_at(e.tags@, repr, i)
                &&& forall|i: int|
                    0 <= i < e.tags@.len() ==> (#[trigger] c.arms@[i]).identifier
                        == e.tags@[i].identifier
            })
        },
{
    match input {
        InputDeclaration::Structure | InputDeclaration::Union => Err(
            GenerateError::WrongInputKind,
        ),
        InputDeclaration::Enumeration(e) => {
            match validate(e) {
                Err(ds) => Err(GenerateError::UnsupportedVariantPayload(ds)),
                Ok(()) => {
                    let repr = resolve_representation(&e.representation_annotation);
                    let t = compute_table(&e.tags, repr);
                    Ok(emit_conversion(&e.name, &t))
                },
            }
        },
    }
}

} // verus!
