//! A code generator for variant-indexed container types.
//!
//! Given a descriptor of a closed, fieldless enumerated type, the crate
//! validates the descriptor, derives a snake-case storage field name for
//! each retained variant, assembles a member table of correlated code
//! fragments, and emits the declaration of a generic container type with
//! one storage slot per retained variant.  A runtime companion,
//! [`variant_map::VariantMap`], models the generated container itself:
//! a total, collision-free map keyed by variant ordinals.

pub mod descriptor;
pub mod emitter;
pub mod ident;
pub mod table;
pub mod variant_map;

use vstd::prelude::*;

use crate::descriptor::{EnumDescriptor, GenerationError, has_lifetime, retained_unit_to,
    spec_valid, validate};
use crate::emitter::{emit, emitted_text};
use crate::table::{build, built_map};

verus! {

/// Runs the whole generation pipeline on one input descriptor: validation,
/// identifier derivation, member-table construction, and emission of the
/// generated container type's declaration.  On a valid descriptor the
/// result is exactly the emitted declaration text; on an invalid one it is
/// the validator's diagnostic, and nothing is emitted.
pub fn enum_map_inner(ast: &EnumDescriptor) -> (r: Result<String, GenerationError>)
    ensures
        r is Ok <==> spec_valid(ast@),
        match r {
            Ok(out) => out@ == emitted_text(built_map(ast@)),
            Err(GenerationError::UnsupportedLifetime) => has_lifetime(ast@.generics),
            Err(GenerationError::NotAnEnum) => !has_lifetime(ast@.generics) && !ast@.is_enum,
            Err(GenerationError::NonUnitVariant { variant }) => {
                &&& !has_lifetime(ast@.generics)
                &&& ast@.is_enum
                &&& variant < ast@.variants.len()
                &&& !ast@.variants[variant as int].disabled
                &&& !(ast@.variants[variant as int].fields is Unit)
                &&& retained_unit_to(ast@.variants, variant as int)
            },
        },
{
    match validate(ast) {
        Ok(()) => {
            let table = build(ast);
            Ok(emit(&table))
        },
        Err(e) => Err(e),
    }
}

} // verus!
