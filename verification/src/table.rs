//! Member table construction.
//!
//! The builder walks the variants in declaration order, skips the disabled
//! ones, derives each retained variant's snake-case field name, and
//! registers, keyed to that field, the correlated code fragments: the
//! storage field declaration, the three dispatch arms (immutable access,
//! mutable access, set), and the two constructor fragments (closure
//! construction and transform construction).  Fragment order strictly
//! follows filtered variant order; disabled variants contribute nothing and
//! do not renumber the rest.

use vstd::prelude::*;
use vstd::string::StringExecFns;

use crate::descriptor::{DataShape, DescriptorModel, EnumDescriptor, VariantDescriptor,
    VariantModel, spec_valid};
use crate::ident::{derive_snake, snake_of};

verus! {

/// The original declaration indices of the retained (non-disabled)
/// variants, in declaration order.
pub open spec fn retained_indices(vs: Seq<VariantModel>) -> Seq<usize>
    decreases vs.len(),
{
    if vs.len() == 0 {
        Seq::empty()
    } else {
        let rest = retained_indices(vs.drop_last());
        if vs.last().disabled {
            rest
        } else {
            rest.push((vs.len() - 1) as usize)
        }
    }
}

/// How many variants are disabled.
pub open spec fn count_disabled(vs: Seq<VariantModel>) -> nat
    decreases vs.len(),
{
    if vs.len() == 0 {
        0
    } else {
        count_disabled(vs.drop_last()) + (if vs.last().disabled {
            1nat
        } else {
            0nat
        })
    }
}

/// Every retained index points into the variant list.
pub proof fn lemma_retained_in_bounds(vs: Seq<VariantModel>)
    requires
        vs.len() <= usize::MAX,
    ensures
        forall|t: int|
            0 <= t < retained_indices(vs).len() ==> (#[trigger] retained_indices(vs)[t])
                < vs.len(),
    decreases vs.len(),
{
    if vs.len() > 0 {
        lemma_retained_in_bounds(vs.drop_last());
        let rest = retained_indices(vs.drop_last());
        assert forall|t: int|
            0 <= t < retained_indices(vs).len() implies (retained_indices(vs)[t]) < vs.len() by {
            if t < rest.len() {
                assert(retained_indices(vs)[t] == rest[t]);
                assert(rest[t] < vs.drop_last().len());
            }
        }
    }
}

/// An enum with `n` variants, `k` of them disabled, yields exactly `n - k`
/// retained entries.
pub proof fn lemma_retained_count(vs: Seq<VariantModel>)
    ensures
        retained_indices(vs).len() + count_disabled(vs) == vs.len(),
    decreases vs.len(),
{
    if vs.len() > 0 {
        lemma_retained_count(vs.drop_last());
    }
}

/// The retained entries keep declaration order: the index sequence is
/// strictly increasing, so disabled variants are removed without reordering
/// or renumbering the rest.
pub proof fn lemma_retained_ordered(vs: Seq<VariantModel>)
    requires
        vs.len() <= usize::MAX,
    ensures
        forall|a: int, b: int|
            0 <= a < b < retained_indices(vs).len() ==> #[trigger] retained_indices(vs)[a]
                < #[trigger] retained_indices(vs)[b],
    decreases vs.len(),
{
    if vs.len() > 0 {
        lemma_retained_ordered(vs.drop_last());
        lemma_retained_in_bounds(vs.drop_last());
        let rest = retained_indices(vs.drop_last());
        let full = retained_indices(vs);
        assert forall|a: int, b: int| 0 <= a < b < full.len() implies full[a] < full[b] by {
            if b < rest.len() {
                assert(full[a] == rest[a]);
                assert(full[b] == rest[b]);
            } else if !vs.last().disabled && b == rest.len() {
                assert(full[a] == rest[a]);
                assert(rest[a] < vs.drop_last().len());
                assert(full[b] == (vs.len() - 1) as usize);
            }
        }
    }
}

/// The retained entries are exactly the non-disabled declaration indices:
/// an index appears if and only if its variant is not disabled.
pub proof fn lemma_retained_complete(vs: Seq<VariantModel>)
    requires
        vs.len() <= usize::MAX,
    ensures
        forall|j: usize|
            #[trigger] retained_indices(vs).contains(j) <==> (j < vs.len()
                && !vs[j as int].disabled),
    decreases vs.len(),
{
    if vs.len() > 0 {
        lemma_retained_complete(vs.drop_last());
        let rest = retained_indices(vs.drop_last());
        let full = retained_indices(vs);
        assert forall|j: usize| #[trigger] full.contains(j) implies (j < vs.len()
            && !vs[j as int].disabled) by {
            let t = choose|t: int| 0 <= t < full.len() && full[t] == j;
            if t < rest.len() {
                assert(rest.contains(j));
                assert(vs.drop_last()[j as int] == vs[j as int]);
            }
        }
        assert forall|j: usize| (j < vs.len() && !vs[j as int].disabled) implies #[trigger] full
            .contains(j) by {
            if j + 1 < vs.len() {
                assert(vs.drop_last()[j as int] == vs[j as int]);
                assert(rest.contains(j));
                let t = choose|t: int| 0 <= t < rest.len() && rest[t] == j;
                if vs.last().disabled {
                    assert(full[t] == j);
                } else {
                    assert(full[t] == j);
                }
            } else {
                assert(!vs.last().disabled);
                assert(full[full.len() - 1] == j);
            }
        }
    }
}

/// The storage field declaration for one retained variant.
pub open spec fn field_decl_text(snake: Seq<char>, elem: Seq<char>) -> Seq<char> {
    "    "@ + snake + ": "@ + elem + ",\n"@
}

/// The immutable-access dispatch arm for one retained variant.
pub open spec fn get_arm_text(name: Seq<char>, pascal: Seq<char>, snake: Seq<char>) -> Seq<char> {
    "            "@ + name + "::"@ + pascal + " => &self."@ + snake + ",\n"@
}

/// The mutable-access dispatch arm for one retained variant.
pub open spec fn get_mut_arm_text(name: Seq<char>, pascal: Seq<char>, snake: Seq<char>) -> Seq<
    char,
> {
    "            "@ + name + "::"@ + pascal + " => &mut self."@ + snake + ",\n"@
}

/// The set dispatch arm for one retained variant.
pub open spec fn set_arm_text(name: Seq<char>, pascal: Seq<char>, snake: Seq<char>) -> Seq<char> {
    "            "@ + name + "::"@ + pascal + " => self."@ + snake + " = new_value,\n"@
}

/// The closure-construction fragment for one retained variant: the field is
/// initialized by invoking the caller-supplied function with this variant.
pub open spec fn closure_init_text(name: Seq<char>, pascal: Seq<char>, snake: Seq<char>) -> Seq<
    char,
> {
    "            "@ + snake + ": func("@ + name + "::"@ + pascal + "),\n"@
}

/// The transform-construction fragment for one retained variant: the field
/// is initialized by invoking the caller-supplied function with this
/// variant and the field's current value.
pub open spec fn transform_init_text(name: Seq<char>, pascal: Seq<char>, snake: Seq<char>) -> Seq<
    char,
> {
    "            "@ + snake + ": func("@ + name + "::"@ + pascal + ", self."@ + snake + "),\n"@
}

/// One member of the table: the derived field together with its registered
/// code fragments.
pub struct DerivedField {
    /// The storage field identifier, in snake_case.
    pub ident: String,
    /// The originating variant's identifier, in PascalCase.
    pub pascal: String,
    /// Back-reference to the originating variant: its index in the input's
    /// variant list.
    pub variant: usize,
    /// The storage field declaration.
    pub field_decl: String,
    /// The immutable-access dispatch arm.
    pub get_arm: String,
    /// The mutable-access dispatch arm.
    pub get_mut_arm: String,
    /// The set dispatch arm.
    pub set_arm: String,
    /// The closure-construction fragment.
    pub closure_init: String,
    /// The transform-construction fragment.
    pub transform_init: String,
}

/// The mathematical model of one member of the table.
#[verifier::ext_equal]
pub ghost struct FieldModel {
    pub ident: Seq<char>,
    pub pascal: Seq<char>,
    pub variant: usize,
    pub field_decl: Seq<char>,
    pub get_arm: Seq<char>,
    pub get_mut_arm: Seq<char>,
    pub set_arm: Seq<char>,
    pub closure_init: Seq<char>,
    pub transform_init: Seq<char>,
}

impl View for DerivedField {
    type V = FieldModel;

    open spec fn view(&self) -> FieldModel {
        FieldModel {
            ident: self.ident@,
            pascal: self.pascal@,
            variant: self.variant,
            field_decl: self.field_decl@,
            get_arm: self.get_arm@,
            get_mut_arm: self.get_mut_arm@,
            set_arm: self.set_arm@,
            closure_init: self.closure_init@,
            transform_init: self.transform_init@,
        }
    }
}

/// The member the table registers for the variant `v` at declaration index
/// `j` of an enum named `name`, with element-type placeholder `elem`.
pub open spec fn field_model_of(
    name: Seq<char>,
    elem: Seq<char>,
    v: VariantModel,
    j: usize,
) -> FieldModel {
    let snake = snake_of(v.ident);
    FieldModel {
        ident: snake,
        pascal: v.ident,
        variant: j,
        field_decl: field_decl_text(snake, elem),
        get_arm: get_arm_text(name, v.ident, snake),
        get_mut_arm: get_mut_arm_text(name, v.ident, snake),
        set_arm: set_arm_text(name, v.ident, snake),
        closure_init: closure_init_text(name, v.ident, snake),
        transform_init: transform_init_text(name, v.ident, snake),
    }
}

/// The members built from the first `k` variants of the input, disabled
/// ones skipped.
pub open spec fn built_fields(d: DescriptorModel, k: int) -> Seq<FieldModel>
    decreases k,
{
    if k <= 0 {
        Seq::empty()
    } else {
        let rest = built_fields(d, k - 1);
        if d.variants[k - 1].disabled {
            rest
        } else {
            rest.push(field_model_of(d.name, "T"@, d.variants[k - 1], (k - 1) as usize))
        }
    }
}

/// The descriptor of the generated container type.
pub struct MapTypeDescriptor {
    /// The container type's name: the enum's name with `Map` appended.
    pub name: String,
    /// The source enum's name.
    pub enum_name: String,
    /// The visibility mirrored from the source enum.
    pub vis: String,
    /// The element-type placeholder.
    pub elem: String,
    /// The member table, in filtered declaration order.
    pub fields: Vec<DerivedField>,
}

/// The mathematical model of the generated container type's descriptor.
#[verifier::ext_equal]
pub ghost struct MapModel {
    pub name: Seq<char>,
    pub enum_name: Seq<char>,
    pub vis: Seq<char>,
    pub elem: Seq<char>,
    pub fields: Seq<FieldModel>,
}

impl View for MapTypeDescriptor {
    type V = MapModel;

    open spec fn view(&self) -> MapModel {
        MapModel {
            name: self.name@,
            enum_name: self.enum_name@,
            vis: self.vis@,
            elem: self.elem@,
            fields: self.fields@.map_values(|f: DerivedField| f@),
        }
    }
}

/// The map-type descriptor that `build` produces for a valid input.
pub open spec fn built_map(d: DescriptorModel) -> MapModel {
    MapModel {
        name: d.name + "Map"@,
        enum_name: d.name,
        vis: d.vis,
        elem: "T"@,
        fields: built_fields(d, d.variants.len() as int),
    }
}

/// The members of the built table correspond one to one, in order, to the
/// retained variants: member `t` is built from the variant at declaration
/// index `retained_indices[t]`, and there are exactly as many members as
/// retained variants (`n - k` for `n` variants with `k` disabled).
pub proof fn lemma_built_fields_retained(d: DescriptorModel, k: int)
    requires
        0 <= k <= d.variants.len() <= usize::MAX,
    ensures
        built_fields(d, k).len() == retained_indices(d.variants.take(k)).len(),
        forall|t: int|
            0 <= t < built_fields(d, k).len() ==> #[trigger] built_fields(d, k)[t]
                == field_model_of(
                d.name,
                "T"@,
                d.variants[retained_indices(d.variants.take(k))[t] as int],
                retained_indices(d.variants.take(k))[t],
            ),
    decreases k,
{
    if k > 0 {
        lemma_built_fields_retained(d, k - 1);
        assert(d.variants.take(k).drop_last() =~= d.variants.take(k - 1));
        assert(d.variants.take(k).last() == d.variants[k - 1]);
    }
}

/// For an enum with `n` variants, `k` of them disabled, the built map type
/// declares exactly `n - k` storage fields.
pub proof fn lemma_built_map_field_count(d: DescriptorModel)
    requires
        d.variants.len() <= usize::MAX,
    ensures
        built_map(d).fields.len() + count_disabled(d.variants) == d.variants.len(),
{
    let n = d.variants.len() as int;
    lemma_built_fields_retained(d, n);
    lemma_retained_count(d.variants);
    assert(d.variants.take(n) =~= d.variants);
}

fn make_field_decl(snake: &str, elem: &str) -> (r: String)
    ensures
        r@ == field_decl_text(snake@, elem@),
{
    let mut r = String::new();
    r.append("    ");
    r.append(snake);
    r.append(": ");
    r.append(elem);
    r.append(",\n");
    proof {
        assert(r@ =~= field_decl_text(snake@, elem@));
    }
    r
}

fn make_get_arm(name: &str, pascal: &str, snake: &str) -> (r: String)
    ensures
        r@ == get_arm_text(name@, pascal@, snake@),
{
    let mut r = String::new();
    r.append("            ");
    r.append(name);
    r.append("::");
    r.append(pascal);
    r.append(" => &self.");
    r.append(snake);
    r.append(",\n");
    proof {
        assert(r@ =~= get_arm_text(name@, pascal@, snake@));
    }
    r
}

fn make_get_mut_arm(name: &str, pascal: &str, snake: &str) -> (r: String)
    ensures
        r@ == get_mut_arm_text(name@, pascal@, snake@),
{
    let mut r = String::new();
    r.append("            ");
    r.append(name);
    r.append("::");
    r.append(pascal);
    r.append(" => &mut self.");
    r.append(snake);
    r.append(",\n");
    proof {
        assert(r@ =~= get_mut_arm_text(name@, pascal@, snake@));
    }
    r
}

fn make_set_arm(name: &str, pascal: &str, snake: &str) -> (r: String)
    ensures
        r@ == set_arm_text(name@, pascal@, snake@),
{
    let mut r = String::new();
    r.append("            ");
    r.append(name);
    r.append("::");
    r.append(pascal);
    r.append(" => self.");
    r.append(snake);
    r.append(" = new_value,\n");
    proof {
        assert(r@ =~= set_arm_text(name@, pascal@, snake@));
    }
    r
}

fn make_closure_init(name: &str, pascal: &str, snake: &str) -> (r: String)
    ensures
        r@ == closure_init_text(name@, pascal@, snake@),
{
    let mut r = String::new();
    r.append("            ");
    r.append(snake);
    r.append(": func(");
    r.append(name);
    r.append("::");
    r.append(pascal);
    r.append("),\n");
    proof {
        assert(r@ =~= closure_init_text(name@, pascal@, snake@));
    }
    r
}

fn make_transform_init(name: &str, pascal: &str, snake: &str) -> (r: String)
    ensures
        r@ == transform_init_text(name@, pascal@, snake@),
{
    let mut r = String::new();
    r.append("            ");
    r.append(snake);
    r.append(": func(");
    r.append(name);
    r.append("::");
    r.append(pascal);
    r.append(", self.");
    r.append(snake);
    r.append("),\n");
    proof {
        assert(r@ =~= transform_init_text(name@, pascal@, snake@));
    }
    r
}

/// Assembles the member table from a validated descriptor: walks the
/// variants in declaration order, skips the disabled ones, derives each
/// retained variant's field name, and registers its code fragments.
pub fn build(d: &EnumDescriptor) -> (m: MapTypeDescriptor)
    requires
        spec_valid(d@),
    ensures
        m@ == built_map(d@),
{
    let variants = match &d.data {
        DataShape::Enum(vs) => vs,
        _ => {
            proof {
                assert(false);
            }
            vstd::pervasive::unreached()
        },
    };
    let mut map_name = d.name.clone();
    map_name.append("Map");
    let enum_name = d.name.clone();
    let vis = d.vis.clone();
    let elem = String::from_str("T");
    let mut fields: Vec<DerivedField> = Vec::new();
    let n: usize = variants.len();
    let mut i: usize = 0;
    while i < n
        invariant
            i <= n,
            n == variants@.len(),
            d@.variants == variants@.map_values(|v: VariantDescriptor| v@),
            enum_name@ == d@.name,
            elem@ == "T"@,
            fields@.len() == built_fields(d@, i as int).len(),
            forall|t: int|
                0 <= t < fields@.len() ==> (#[trigger] fields@[t])@ == built_fields(
                    d@,
                    i as int,
                )[t],
        decreases n - i,
    {
        let v = &variants[i];
        proof {
            assert(d@.variants[i as int] == v@);
        }
        if !v.disabled {
            let snake = derive_snake(v.ident.as_str());
            let field_decl = make_field_decl(snake.as_str(), elem.as_str());
            let get_arm = make_get_arm(enum_name.as_str(), v.ident.as_str(), snake.as_str());
            let get_mut_arm = make_get_mut_arm(
                enum_name.as_str(),
                v.ident.as_str(),
                snake.as_str(),
            );
            let set_arm = make_set_arm(enum_name.as_str(), v.ident.as_str(), snake.as_str());
            let closure_init = make_closure_init(
                enum_name.as_str(),
                v.ident.as_str(),
                snake.as_str(),
            );
            let transform_init = make_transform_init(
                enum_name.as_str(),
                v.ident.as_str(),
                snake.as_str(),
            );
            let f = DerivedField {
                ident: snake,
                pascal: v.ident.clone(),
                variant: i,
                field_decl,
                get_arm,
                get_mut_arm,
                set_arm,
                closure_init,
                transform_init,
            };
            proof {
                assert(f@ =~= field_model_of(d@.name, "T"@, d@.variants[i as int], i));
            }
            fields.push(f);
        }
        i = i + 1;
    }
    let m = MapTypeDescriptor { name: map_name, enum_name, vis, elem, fields };
    proof {
        assert(m@.fields =~= built_map(d@).fields);
        assert(m@ =~= built_map(d@));
    }
    m
}

} // verus!
