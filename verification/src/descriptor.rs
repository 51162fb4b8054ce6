//! The input descriptor and its validator.
//!
//! The generator consumes a structural description of a type declaration:
//! name, visibility, generic-parameter list and ordered variant list, each
//! variant carrying its identifier, a disabled marker and its field kind.
//! The validator rejects unsupported shapes early, before any fragment is
//! built: a lifetime-parameterized input, a non-enum input, and any retained
//! (non-disabled) variant that carries fields.

use vstd::prelude::*;

verus! {

/// One entry of the input type's generic-parameter list.
#[derive(Clone, Copy, Debug, PartialEq, Eq, Structural)]
pub enum GenericParam {
    Lifetime,
    Type,
    Const,
}

/// The field kind of one variant: only `Unit` (payload-free) variants may be
/// retained.
#[derive(Clone, Copy, Debug, PartialEq, Eq, Structural)]
pub enum FieldKind {
    Unit,
    Named,
    Unnamed,
}

/// One variant of the input type.
#[derive(Clone, Debug)]
pub struct VariantDescriptor {
    /// The variant's identifier, in PascalCase.
    pub ident: String,
    /// True when the variant is explicitly excluded from generated storage
    /// and dispatch.
    pub disabled: bool,
    /// The kind of payload the variant carries.
    pub fields: FieldKind,
}

/// The shape of the input type's body.
#[derive(Clone, Debug)]
pub enum DataShape {
    Enum(Vec<VariantDescriptor>),
    Struct,
    Union,
}

/// The structural descriptor of one annotated type declaration, built once
/// per invocation and read-only thereafter.
#[derive(Clone, Debug)]
pub struct EnumDescriptor {
    /// The type's identifier, in PascalCase.
    pub name: String,
    /// The type's visibility, as source text (empty for inherited
    /// visibility).
    pub vis: String,
    /// The type's generic-parameter list.
    pub generics: Vec<GenericParam>,
    /// The type's body.
    pub data: DataShape,
}

/// The mathematical model of one variant.
pub ghost struct VariantModel {
    pub ident: Seq<char>,
    pub disabled: bool,
    pub fields: FieldKind,
}

/// The mathematical model of an input descriptor.  Struct and union inputs
/// are modelled alike: both fail validation the same way.
pub ghost struct DescriptorModel {
    pub name: Seq<char>,
    pub vis: Seq<char>,
    pub generics: Seq<GenericParam>,
    pub is_enum: bool,
    pub variants: Seq<VariantModel>,
}

impl View for VariantDescriptor {
    type V = VariantModel;

    open spec fn view(&self) -> VariantModel {
        VariantModel { ident: self.ident@, disabled: self.disabled, fields: self.fields }
    }
}

impl View for EnumDescriptor {
    type V = DescriptorModel;

    open spec fn view(&self) -> DescriptorModel {
        DescriptorModel {
            name: self.name@,
            vis: self.vis@,
            generics: self.generics@,
            is_enum: self.data is Enum,
            variants: match self.data {
                DataShape::Enum(vs) => vs@.map_values(|v: VariantDescriptor| v@),
                _ => Seq::empty(),
            },
        }
    }
}

/// True when the generic-parameter list contains a lifetime entry.
pub open spec fn has_lifetime(gs: Seq<GenericParam>) -> bool {
    exists|i: int| 0 <= i < gs.len() && gs[i] is Lifetime
}

/// True when every non-disabled variant among the first `k` is payload-free.
pub open spec fn retained_unit_to(vs: Seq<VariantModel>, k: int) -> bool {
    forall|i: int| 0 <= i < k ==> (#[trigger] vs[i]).disabled || vs[i].fields is Unit
}

/// True when every non-disabled variant is payload-free.
pub open spec fn all_retained_unit(vs: Seq<VariantModel>) -> bool {
    retained_unit_to(vs, vs.len() as int)
}

/// True when the descriptor passes validation: no lifetime parameter, an
/// enum body, and every retained variant payload-free.
pub open spec fn spec_valid(d: DescriptorModel) -> bool {
    &&& !has_lifetime(d.generics)
    &&& d.is_enum
    &&& all_retained_unit(d.variants)
}

/// The reason one generation invocation was rejected.  The payload of
/// `NonUnitVariant` locates the offending variant in the input's variant
/// list, which is reference enough for a build-time diagnostic.
#[derive(Clone, Copy, Debug, PartialEq, Eq, Structural)]
pub enum GenerationError {
    /// The input type has a lifetime generic parameter.
    UnsupportedLifetime,
    /// The input type is a struct or union, not an enum.
    NotAnEnum,
    /// The retained variant at this index carries fields.
    NonUnitVariant { variant: usize },
}

impl GenerationError {
    /// The diagnostic text of the error.
    pub fn message(&self) -> (r: String)
        ensures
            match self {
                GenerationError::UnsupportedLifetime => r@ == "This macro doesn't support enums with lifetimes."@,
                GenerationError::NotAnEnum => r@ == "This macro only supports enums."@,
                GenerationError::NonUnitVariant { .. } => r@ == "This macro doesn't support enums with non-unit variants."@,
            },
    {
        match self {
            GenerationError::UnsupportedLifetime => "This macro doesn't support enums with lifetimes.".to_owned(),
            GenerationError::NotAnEnum => "This macro only supports enums.".to_owned(),
            GenerationError::NonUnitVariant { .. } => "This macro doesn't support enums with non-unit variants.".to_owned(),
        }
    }
}

/// Checks the descriptor against the supported shape, short-circuiting on
/// the first failure: lifetime parameters first, then the body shape, then
/// each variant in declaration order.  Returns `Ok` exactly on valid
/// descriptors; a `NonUnitVariant` error identifies the first retained
/// variant that carries fields.
pub fn validate(d: &EnumDescriptor) -> (r: Result<(), GenerationError>)
    ensures
        r is Ok <==> spec_valid(d@),
        match r {
            Ok(()) => spec_valid(d@),
            Err(GenerationError::UnsupportedLifetime) => has_lifetime(d@.generics),
            Err(GenerationError::NotAnEnum) => !has_lifetime(d@.generics) && !d@.is_enum,
            Err(GenerationError::NonUnitVariant { variant }) => {
                &&& !has_lifetime(d@.generics)
                &&& d@.is_enum
                &&& variant < d@.variants.len()
                &&& !d@.variants[variant as int].disabled
                &&& !(d@.variants[variant as int].fields is Unit)
                &&& retained_unit_to(d@.variants, variant as int)
            },
        },
{
    let mut i: usize = 0;
    let n_gen: usize = d.generics.len();
    while i < n_gen
        invariant
            i <= n_gen,
            n_gen == d.generics@.len(),
            forall|j: int| 0 <= j < i ==> !(d.generics@[j] is Lifetime),
        decreases n_gen - i,
    {
        match d.generics[i] {
            GenericParam::Lifetime => {
                return Err(GenerationError::UnsupportedLifetime);
            },
            _ => {},
        }
        i = i + 1;
    }
    let variants = match &d.data {
        DataShape::Enum(vs) => vs,
        _ => {
            return Err(GenerationError::NotAnEnum);
        },
    };
    let ghost vm = d@.variants;
    proof {
        assert(vm == variants@.map_values(|v: VariantDescriptor| v@));
    }
    let n: usize = variants.len();
    let mut k: usize = 0;
    while k < n
        invariant
            k <= n,
            n == vm.len(),
            vm == d@.variants,
            vm == variants@.map_values(|v: VariantDescriptor| v@),
            !has_lifetime(d@.generics),
            d@.is_enum,
            retained_unit_to(vm, k as int),
        decreases n - k,
    {
        let v = &variants[k];
        proof {
            assert(vm[k as int] == v@);
        }
        if !v.disabled {
            match v.fields {
                FieldKind::Unit => {},
                _ => {
                    proof {
                        assert(!(vm[k as int].disabled || vm[k as int].fields is Unit));
                    }
                    return Err(GenerationError::NonUnitVariant { variant: k });
                },
            }
        }
        k = k + 1;
    }
    Ok(())
}

} // verus!
