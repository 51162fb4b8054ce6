//! The code emitter.
//!
//! A pure, one-shot assembly of the generated container type's declaration
//! from the member table: the struct with one storage field per retained
//! variant, the total constructor `new`, the `filled`, `from_closure` and
//! `transform` constructors, and the two indexing operations, whose
//! dispatch is exhaustive over the retained variants with no fallback arm.
//! The emitted text is fixed, character for character, by `emitted_text`.

use vstd::prelude::*;
use vstd::string::StringExecFns;

use crate::table::{FieldModel, MapModel, MapTypeDescriptor};

verus! {

/// The visibility prefix of a declaration: the visibility text followed by
/// one space, or nothing for inherited visibility.
pub open spec fn vis_prefix(vis: Seq<char>) -> Seq<char> {
    if vis.len() == 0 {
        Seq::empty()
    } else {
        vis + " "@
    }
}

/// One parameter of the total constructor.
pub open spec fn new_param_text(snake: Seq<char>, elem: Seq<char>) -> Seq<char> {
    "        "@ + snake + ": "@ + elem + ",\n"@
}

/// One field initializer of the total constructor.
pub open spec fn new_init_text(snake: Seq<char>) -> Seq<char> {
    "            "@ + snake + ",\n"@
}

/// One field initializer of the `filled` constructor.
pub open spec fn filled_init_text(snake: Seq<char>) -> Seq<char> {
    "            "@ + snake + ": value.clone(),\n"@
}

/// The storage field declarations of the first `k` members, concatenated.
pub open spec fn concat_field_decls(fs: Seq<FieldModel>, k: int) -> Seq<char>
    decreases k,
{
    if k <= 0 {
        Seq::empty()
    } else {
        concat_field_decls(fs, k - 1) + fs[k - 1].field_decl
    }
}

/// The total constructor's parameters for the first `k` members.
pub open spec fn concat_new_params(fs: Seq<FieldModel>, elem: Seq<char>, k: int) -> Seq<char>
    decreases k,
{
    if k <= 0 {
        Seq::empty()
    } else {
        concat_new_params(fs, elem, k - 1) + new_param_text(fs[k - 1].ident, elem)
    }
}

/// The total constructor's field initializers for the first `k` members.
pub open spec fn concat_new_inits(fs: Seq<FieldModel>, k: int) -> Seq<char>
    decreases k,
{
    if k <= 0 {
        Seq::empty()
    } else {
        concat_new_inits(fs, k - 1) + new_init_text(fs[k - 1].ident)
    }
}

/// The `filled` constructor's field initializers for the first `k` members.
pub open spec fn concat_filled_inits(fs: Seq<FieldModel>, k: int) -> Seq<char>
    decreases k,
{
    if k <= 0 {
        Seq::empty()
    } else {
        concat_filled_inits(fs, k - 1) + filled_init_text(fs[k - 1].ident)
    }
}

/// The `from_closure` constructor's field initializers for the first `k`
/// members.
pub open spec fn concat_closure_inits(fs: Seq<FieldModel>, k: int) -> Seq<char>
    decreases k,
{
    if k <= 0 {
        Seq::empty()
    } else {
        concat_closure_inits(fs, k - 1) + fs[k - 1].closure_init
    }
}

/// The `transform` constructor's field initializers for the first `k`
/// members.
pub open spec fn concat_transform_inits(fs: Seq<FieldModel>, k: int) -> Seq<char>
    decreases k,
{
    if k <= 0 {
        Seq::empty()
    } else {
        concat_transform_inits(fs, k - 1) + fs[k - 1].transform_init
    }
}

/// The immutable-access dispatch arms of the first `k` members.
pub open spec fn concat_get_arms(fs: Seq<FieldModel>, k: int) -> Seq<char>
    decreases k,
{
    if k <= 0 {
        Seq::empty()
    } else {
        concat_get_arms(fs, k - 1) + fs[k - 1].get_arm
    }
}

/// The mutable-access dispatch arms of the first `k` members.
pub open spec fn concat_get_mut_arms(fs: Seq<FieldModel>, k: int) -> Seq<char>
    decreases k,
{
    if k <= 0 {
        Seq::empty()
    } else {
        concat_get_mut_arms(fs, k - 1) + fs[k - 1].get_mut_arm
    }
}

/// The documentation attribute, the derives, and the struct declaration
/// with one storage field per retained variant.
pub open spec fn sec_header(m: MapModel) -> Seq<char> {
    "#[doc = \"A map over the variants of ["@ + m.enum_name + "]\"]\n"@
        + "#[allow(missing_copy_implementations)]\n"@
        + "#[derive(Debug, Clone, Default, PartialEq, Hash)]\n"@ + vis_prefix(m.vis) + "struct "@
        + m.name + "<"@ + m.elem + "> {\n"@ + concat_field_decls(m.fields, m.fields.len() as int)
        + "}\n\n"@
}

/// The total constructor: one parameter per field, by name, so that an
/// omitted value fails to build.
pub open spec fn sec_new(m: MapModel) -> Seq<char> {
    "    "@ + vis_prefix(m.vis) + "fn new(\n"@ + concat_new_params(
        m.fields,
        m.elem,
        m.fields.len() as int,
    ) + "    ) -> "@ + m.name + "<"@ + m.elem + "> {\n"@ + "        "@ + m.name + " {\n"@
        + concat_new_inits(m.fields, m.fields.len() as int) + "        }\n"@ + "    }\n\n"@
}

/// The `filled` constructor: one duplicable value copied into every field.
pub open spec fn sec_filled(m: MapModel) -> Seq<char> {
    "    "@ + vis_prefix(m.vis) + "fn filled(value: "@ + m.elem + ") -> "@ + m.name + "<"@ + m.elem
        + "> where "@ + m.elem + ": Clone {\n"@ + "        "@ + m.name + " {\n"@
        + concat_filled_inits(m.fields, m.fields.len() as int) + "        }\n"@ + "    }\n\n"@
}

/// The from-generator constructor: one generation call emitted per retained
/// variant individually, in declaration order.
pub open spec fn sec_from_closure(m: MapModel) -> Seq<char> {
    "    "@ + vis_prefix(m.vis) + "fn from_closure<F: Fn("@ + m.enum_name + ") -> "@ + m.elem
        + ">(func: F) -> "@ + m.name + "<"@ + m.elem + "> {\n"@ + "        "@ + m.name + " {\n"@
        + concat_closure_inits(m.fields, m.fields.len() as int) + "        }\n"@ + "    }\n\n"@
}

/// The `transform` constructor: a structural map over the container,
/// invoking the function once per field in declaration order.
pub open spec fn sec_transform(m: MapModel) -> Seq<char> {
    "    "@ + vis_prefix(m.vis) + "fn transform<U, F: Fn("@ + m.enum_name + ", "@ + m.elem
        + ") -> U>(self, func: F) -> "@ + m.name + "<U> {\n"@ + "        "@ + m.name + " {\n"@
        + concat_transform_inits(m.fields, m.fields.len() as int) + "        }\n"@ + "    }\n"@
}

/// The inherent impl holding the four constructors.
pub open spec fn sec_impl(m: MapModel) -> Seq<char> {
    "impl<"@ + m.elem + "> "@ + m.name + "<"@ + m.elem + "> {\n"@ + sec_new(m) + sec_filled(m)
        + sec_from_closure(m) + sec_transform(m) + "}\n\n"@
}

/// The indexing operation: an exhaustive dispatch over the retained
/// variants with no fallback arm.
pub open spec fn sec_index(m: MapModel) -> Seq<char> {
    "impl<"@ + m.elem + "> core::ops::Index<"@ + m.enum_name + "> for "@ + m.name + "<"@ + m.elem
        + "> {\n"@ + "    type Output = "@ + m.elem + ";\n\n"@ + "    fn index(&self, idx: "@
        + m.enum_name + ") -> &"@ + m.elem + " {\n"@ + "        match idx {\n"@ + concat_get_arms(
        m.fields,
        m.fields.len() as int,
    ) + "        }\n"@ + "    }\n"@ + "}\n\n"@
}

/// The mutable indexing operation, with identical dispatch.
pub open spec fn sec_index_mut(m: MapModel) -> Seq<char> {
    "impl<"@ + m.elem + "> core::ops::IndexMut<"@ + m.enum_name + "> for "@ + m.name + "<"@
        + m.elem + "> {\n"@ + "    fn index_mut(&mut self, idx: "@ + m.enum_name + ") -> &mut "@
        + m.elem + " {\n"@ + "        match idx {\n"@ + concat_get_mut_arms(
        m.fields,
        m.fields.len() as int,
    ) + "        }\n"@ + "    }\n"@ + "}\n"@
}

/// The complete emitted declaration of the generated container type.
pub open spec fn emitted_text(m: MapModel) -> Seq<char> {
    sec_header(m) + sec_impl(m) + sec_index(m) + sec_index_mut(m)
}

fn append_vis(r: &mut String, vis: &str)
    ensures
        final(r)@ == old(r)@ + vis_prefix(vis@),
{
    if vis.is_empty() {
        proof {
            assert(old(r)@ + vis_prefix(vis@) =~= old(r)@);
        }
    } else {
        r.append(vis);
        r.append(" ");
        proof {
            assert(r@ =~= old(r)@ + vis_prefix(vis@));
        }
    }
}

fn emit_field_decls(m: &MapTypeDescriptor) -> (r: String)
    ensures
        r@ == concat_field_decls(m@.fields, m@.fields.len() as int),
{
    let mut r = String::new();
    let n: usize = m.fields.len();
    let mut i: usize = 0;
    while i < n
        invariant
            i <= n,
            n == m.fields@.len(),
            r@ == concat_field_decls(m@.fields, i as int),
        decreases n - i,
    {
        r.append(m.fields[i].field_decl.as_str());
        i = i + 1;
    }
    r
}

fn emit_new_params(m: &MapTypeDescriptor) -> (r: String)
    ensures
        r@ == concat_new_params(m@.fields, m@.elem, m@.fields.len() as int),
{
    let mut r = String::new();
    let n: usize = m.fields.len();
    let mut i: usize = 0;
    while i < n
        invariant
            i <= n,
            n == m.fields@.len(),
            r@ == concat_new_params(m@.fields, m@.elem, i as int),
        decreases n - i,
    {
        r.append("        ");
        r.append(m.fields[i].ident.as_str());
        r.append(": ");
        r.append(m.elem.as_str());
        r.append(",\n");
        proof {
            assert(r@ =~= concat_new_params(m@.fields, m@.elem, i as int + 1));
        }
        i = i + 1;
    }
    r
}

fn emit_new_inits(m: &MapTypeDescriptor) -> (r: String)
    ensures
        r@ == concat_new_inits(m@.fields, m@.fields.len() as int),
{
    let mut r = String::new();
    let n: usize = m.fields.len();
    let mut i: usize = 0;
    while i < n
        invariant
            i <= n,
            n == m.fields@.len(),
            r@ == concat_new_inits(m@.fields, i as int),
        decreases n - i,
    {
        r.append("            ");
        r.append(m.fields[i].ident.as_str());
        r.append(",\n");
        proof {
            assert(r@ =~= concat_new_inits(m@.fields, i as int + 1));
        }
        i = i + 1;
    }
    r
}

fn emit_filled_inits(m: &MapTypeDescriptor) -> (r: String)
    ensures
        r@ == concat_filled_inits(m@.fields, m@.fields.len() as int),
{
    let mut r = String::new();
    let n: usize = m.fields.len();
    let mut i: usize = 0;
    while i < n
        invariant
            i <= n,
            n == m.fields@.len(),
            r@ == concat_filled_inits(m@.fields, i as int),
        decreases n - i,
    {
        r.append("            ");
        r.append(m.fields[i].ident.as_str());
        r.append(": value.clone(),\n");
        proof {
            assert(r@ =~= concat_filled_inits(m@.fields, i as int + 1));
        }
        i = i + 1;
    }
    r
}

fn emit_closure_inits(m: &MapTypeDescriptor) -> (r: String)
    ensures
        r@ == concat_closure_inits(m@.fields, m@.fields.len() as int),
{
    let mut r = String::new();
    let n: usize = m.fields.len();
    let mut i: usize = 0;
    while i < n
        invariant
            i <= n,
            n == m.fields@.len(),
            r@ == concat_closure_inits(m@.fields, i as int),
        decreases n - i,
    {
        r.append(m.fields[i].closure_init.as_str());
        i = i + 1;
    }
    r
}

fn emit_transform_inits(m: &MapTypeDescriptor) -> (r: String)
    ensures
        r@ == concat_transform_inits(m@.fields, m@.fields.len() as int),
{
    let mut r = String::new();
    let n: usize = m.fields.len();
    let mut i: usize = 0;
    while i < n
        invariant
            i <= n,
            n == m.fields@.len(),
            r@ == concat_transform_inits(m@.fields, i as int),
        decreases n - i,
    {
        r.append(m.fields[i].transform_init.as_str());
        i = i + 1;
    }
    r
}

fn emit_get_arms(m: &MapTypeDescriptor) -> (r: String)
    ensures
        r@ == concat_get_arms(m@.fields, m@.fields.len() as int),
{
    let mut r = String::new();
    let n: usize = m.fields.len();
    let mut i: usize = 0;
    while i < n
        invariant
            i <= n,
            n == m.fields@.len(),
            r@ == concat_get_arms(m@.fields, i as int),
        decreases n - i,
    {
        r.append(m.fields[i].get_arm.as_str());
        i = i + 1;
    }
    r
}

fn emit_get_mut_arms(m: &MapTypeDescriptor) -> (r: String)
    ensures
        r@ == concat_get_mut_arms(m@.fields, m@.fields.len() as int),
{
    let mut r = String::new();
    let n: usize = m.fields.len();
    let mut i: usize = 0;
    while i < n
        invariant
            i <= n,
            n == m.fields@.len(),
            r@ == concat_get_mut_arms(m@.fields, i as int),
        decreases n - i,
    {
        r.append(m.fields[i].get_mut_arm.as_str());
        i = i + 1;
    }
    r
}

fn emit_header(m: &MapTypeDescriptor) -> (r: String)
    ensures
        r@ == sec_header(m@),
{
    let mut r = String::new();
    r.append("#[doc = \"A map over the variants of [");
    r.append(m.enum_name.as_str());
    r.append("]\"]\n");
    r.append("#[allow(missing_copy_implementations)]\n");
    r.append("#[derive(Debug, Clone, Default, PartialEq, Hash)]\n");
    append_vis(&mut r, m.vis.as_str());
    r.append("struct ");
    r.append(m.name.as_str());
    r.append("<");
    r.append(m.elem.as_str());
    r.append("> {\n");
    let decls = emit_field_decls(m);
    r.append(decls.as_str());
    r.append("}\n\n");
    proof {
        assert(r@ =~= sec_header(m@));
    }
    r
}

fn emit_new(m: &MapTypeDescriptor) -> (r: String)
    ensures
        r@ == sec_new(m@),
{
    let mut r = String::new();
    r.append("    ");
    append_vis(&mut r, m.vis.as_str());
    r.append("fn new(\n");
    let new_params = emit_new_params(m);
    r.append(new_params.as_str());
    r.append("    ) -> ");
    r.append(m.name.as_str());
    r.append("<");
    r.append(m.elem.as_str());
    r.append("> {\n");
    r.append("        ");
    r.append(m.name.as_str());
    r.append(" {\n");
    let new_inits = emit_new_inits(m);
    r.append(new_inits.as_str());
    r.append("        }\n");
    r.append("    }\n\n");
    proof {
        assert(r@ =~= sec_new(m@));
    }
    r
}

fn emit_filled(m: &MapTypeDescriptor) -> (r: String)
    ensures
        r@ == sec_filled(m@),
{
    let mut r = String::new();
    r.append("    ");
    append_vis(&mut r, m.vis.as_str());
    r.append("fn filled(value: ");
    r.append(m.elem.as_str());
    r.append(") -> ");
    r.append(m.name.as_str());
    r.append("<");
    r.append(m.elem.as_str());
    r.append("> where ");
    r.append(m.elem.as_str());
    r.append(": Clone {\n");
    r.append("        ");
    r.append(m.name.as_str());
    r.append(" {\n");
    let filled_inits = emit_filled_inits(m);
    r.append(filled_inits.as_str());
    r.append("        }\n");
    r.append("    }\n\n");
    proof {
        assert(r@ =~= sec_filled(m@));
    }
    r
}

fn emit_from_closure(m: &MapTypeDescriptor) -> (r: String)
    ensures
        r@ == sec_from_closure(m@),
{
    let mut r = String::new();
    r.append("    ");
    append_vis(&mut r, m.vis.as_str());
    r.append("fn from_closure<F: Fn(");
    r.append(m.enum_name.as_str());
    r.append(") -> ");
    r.append(m.elem.as_str());
    r.append(">(func: F) -> ");
    r.append(m.name.as_str());
    r.append("<");
    r.append(m.elem.as_str());
    r.append("> {\n");
    r.append("        ");
    r.append(m.name.as_str());
    r.append(" {\n");
    let closure_inits = emit_closure_inits(m);
    r.append(closure_inits.as_str());
    r.append("        }\n");
    r.append("    }\n\n");
    proof {
        assert(r@ =~= sec_from_closure(m@));
    }
    r
}

fn emit_transform(m: &MapTypeDescriptor) -> (r: String)
    ensures
        r@ == sec_transform(m@),
{
    let mut r = String::new();
    r.append("    ");
    append_vis(&mut r, m.vis.as_str());
    r.append("fn transform<U, F: Fn(");
    r.append(m.enum_name.as_str());
    r.append(", ");
    r.append(m.elem.as_str());
    r.append(") -> U>(self, func: F) -> ");
    r.append(m.name.as_str());
    r.append("<U> {\n");
    r.append("        ");
    r.append(m.name.as_str());
    r.append(" {\n");
    let transform_inits = emit_transform_inits(m);
    r.append(transform_inits.as_str());
    r.append("        }\n");
    r.append("    }\n");
    proof {
        assert(r@ =~= sec_transform(m@));
    }
    r
}

fn emit_impl(m: &MapTypeDescriptor) -> (r: String)
    ensures
        r@ == sec_impl(m@),
{
    let mut r = String::new();
    r.append("impl<");
    r.append(m.elem.as_str());
    r.append("> ");
    r.append(m.name.as_str());
    r.append("<");
    r.append(m.elem.as_str());
    r.append("> {\n");
    let new_text = emit_new(m);
    r.append(new_text.as_str());
    let filled_text = emit_filled(m);
    r.append(filled_text.as_str());
    let closure_text = emit_from_closure(m);
    r.append(closure_text.as_str());
    let transform_text = emit_transform(m);
    r.append(transform_text.as_str());
    r.append("}\n\n");
    proof {
        assert(r@ =~= sec_impl(m@));
    }
    r
}

fn emit_index(m: &MapTypeDescriptor) -> (r: String)
    ensures
        r@ == sec_index(m@),
{
    let mut r = String::new();
    r.append("impl<");
    r.append(m.elem.as_str());
    r.append("> core::ops::Index<");
    r.append(m.enum_name.as_str());
    r.append("> for ");
    r.append(m.name.as_str());
    r.append("<");
    r.append(m.elem.as_str());
    r.append("> {\n");
    r.append("    type Output = ");
    r.append(m.elem.as_str());
    r.append(";\n\n");
    r.append("    fn index(&self, idx: ");
    r.append(m.enum_name.as_str());
    r.append(") -> &");
    r.append(m.elem.as_str());
    r.append(" {\n");
    r.append("        match idx {\n");
    let arms = emit_get_arms(m);
    r.append(arms.as_str());
    r.append("        }\n");
    r.append("    }\n");
    r.append("}\n\n");
    proof {
        assert(r@ =~= sec_index(m@));
    }
    r
}

fn emit_index_mut(m: &MapTypeDescriptor) -> (r: String)
    ensures
        r@ == sec_index_mut(m@),
{
    let mut r = String::new();
    r.append("impl<");
    r.append(m.elem.as_str());
    r.append("> core::ops::IndexMut<");
    r.append(m.enum_name.as_str());
    r.append("> for ");
    r.append(m.name.as_str());
    r.append("<");
    r.append(m.elem.as_str());
    r.append("> {\n");
    r.append("    fn index_mut(&mut self, idx: ");
    r.append(m.enum_name.as_str());
    r.append(") -> &mut ");
    r.append(m.elem.as_str());
    r.append(" {\n");
    r.append("        match idx {\n");
    let arms = emit_get_mut_arms(m);
    r.append(arms.as_str());
    r.append("        }\n");
    r.append("    }\n");
    r.append("}\n");
    proof {
        assert(r@ =~= sec_index_mut(m@));
    }
    r
}

/// Assembles the final container-type declaration from the member table.
/// Emission is deterministic: the result is fixed, character for character,
/// by the table.
pub fn emit(m: &MapTypeDescriptor) -> (r: String)
    ensures
        r@ == emitted_text(m@),
{
    let mut r = emit_header(m);
    let body = emit_impl(m);
    r.append(body.as_str());
    let index_impl = emit_index(m);
    r.append(index_impl.as_str());
    let index_mut_impl = emit_index_mut(m);
    r.append(index_mut_impl.as_str());
    r
}

} // verus!
