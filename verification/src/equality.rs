//! Structural equality of descriptor graphs.
//!
//! Two components may register structurally identical descriptors under
//! different identifiers, so equality follows the graph rather than the
//! identifiers.  Every attribute of the two layouts is compared except the
//! recorded source file and line, which exist for diagnostics only.  Each
//! edge into the registry goes through the cycle-safe context: a target
//! already entered in the current traversal is treated shallowly — the
//! field's own attributes decide and the target is not entered again —
//! which is what makes comparison of self-referential graphs terminate.

use vstd::prelude::*;

use crate::registry::{field_ok, fields_ok, generics_ok, layout_ok, variant_ok, TypeRegistry};
use crate::traversal::{count_unvisited, ctx_evolves, ctx_ok, TraversalCtx};
use crate::type_layout::{
    accessor_matches, field_shallow_matches, function_matches, functions_match, param_matches,
    strings_match, version_matches, FieldAccessor, LifetimeIndex, TLData, TLEnumVariant, TLField,
    TLFunction, TLParam, TypeLayout, VersionStrings,
};

verus! {

/// The two field lists agree pairwise on everything besides their targets.
pub open spec fn fields_shallow_match(fa: Seq<TLField>, fb: Seq<TLField>) -> bool {
    fa.len() == fb.len() && forall|j: int|
        0 <= j < fa.len() ==> field_shallow_matches(fa[j], fb[j])
}

/// The two variants agree on name, discriminant, and their fields'
/// shallow attributes.
pub open spec fn variant_shallow_matches(a: TLEnumVariant, b: TLEnumVariant) -> bool {
    &&& a.name@ == b.name@
    &&& a.discriminant == b.discriminant
    &&& fields_shallow_match(a.fields@, b.fields@)
}

/// The two shapes agree on everything besides what sits behind their
/// deferred identifiers.
pub open spec fn data_shallow_matches(da: TLData, db: TLData) -> bool {
    match (da, db) {
        (TLData::Primitive, TLData::Primitive) => true,
        (TLData::Struct { fields: fa }, TLData::Struct { fields: fb }) => fields_shallow_match(
            fa@,
            fb@,
        ),
        (TLData::Enum { variants: va }, TLData::Enum { variants: vb }) => {
            &&& va@.len() == vb@.len()
            &&& forall|j: int|
                0 <= j < va@.len() ==> variant_shallow_matches(#[trigger] va@[j], vb@[j])
        },
        (TLData::PrefixType(pa), TLData::PrefixType(pb)) => {
            &&& pa.first_suffix_field == pb.first_suffix_field
            &&& pa.accessible_fields.guaranteed@ == pb.accessible_fields.guaranteed@
            &&& pa.conditional_prefix_fields@ == pb.conditional_prefix_fields@
            &&& fields_shallow_match(pa.fields@, pb.fields@)
        },
        _ => false,
    }
}

/// Everything two layouts must agree on besides what sits behind their
/// deferred identifiers: what a structural comparison can see without
/// entering the registry.  The recorded source file and line are excluded.
pub open spec fn layout_shallow_matches(la: TypeLayout, lb: TypeLayout) -> bool {
    &&& la.name@ == lb.name@
    &&& la.package@ == lb.package@
    &&& version_matches(la.package_version, lb.package_version)
    &&& la.size == lb.size
    &&& la.alignment == lb.alignment
    &&& data_shallow_matches(la.data, lb.data)
    &&& la.full_type.name@ == lb.full_type.name@
    &&& la.full_type.primitive == lb.full_type.primitive
    &&& strings_match(la.full_type.generics.lifetime@, lb.full_type.generics.lifetime@)
    &&& la.full_type.generics.type_@.len() == lb.full_type.generics.type_@.len()
    &&& strings_match(la.full_type.generics.const_@, lb.full_type.generics.const_@)
    &&& fields_shallow_match(la.phantom_fields@, lb.phantom_fields@)
    &&& la.reflection_tag == lb.reflection_tag
    &&& la.tag == lb.tag
    &&& la.mod_refl_mode == lb.mod_refl_mode
    &&& la.repr_attr == lb.repr_attr
}

fn strings_eq(a: &Vec<String>, b: &Vec<String>) -> (r: bool)
    ensures
        r == strings_match(a@, b@),
{
    if a.len() != b.len() {
        return false;
    }
    let mut i: usize = 0;
    while i < a.len()
        invariant
            i <= a@.len(),
            a@.len() == b@.len(),
            forall|j: int| 0 <= j < i ==> a@[j]@ == b@[j]@,
        decreases a@.len() - i,
    {
        if !(a[i] == b[i]) {
            return false;
        }
        i += 1;
    }
    true
}

fn lifetimes_eq(a: &Vec<LifetimeIndex>, b: &Vec<LifetimeIndex>) -> (r: bool)
    ensures
        r == (a@ == b@),
{
    if a.len() != b.len() {
        proof {
            assert(a@.len() != b@.len());
        }
        return false;
    }
    let mut i: usize = 0;
    while i < a.len()
        invariant
            i <= a@.len(),
            a@.len() == b@.len(),
            forall|j: int| 0 <= j < i ==> a@[j] == b@[j],
        decreases a@.len() - i,
    {
        if !(a[i] == b[i]) {
            return false;
        }
        i += 1;
    }
    proof {
        assert(a@ =~= b@);
    }
    true
}

fn accessor_eq(a: &FieldAccessor, b: &FieldAccessor) -> (r: bool)
    ensures
        r == accessor_matches(*a, *b),
{
    match (a, b) {
        (FieldAccessor::Direct, FieldAccessor::Direct) => true,
        (FieldAccessor::Method { name: Some(x) }, FieldAccessor::Method { name: Some(y) }) => *x
            == *y,
        (FieldAccessor::Method { name: None }, FieldAccessor::Method { name: None }) => true,
        (FieldAccessor::MethodOption, FieldAccessor::MethodOption) => true,
        (FieldAccessor::Opaque, FieldAccessor::Opaque) => true,
        _ => false,
    }
}

fn param_eq(a: &TLParam, b: &TLParam) -> (r: bool)
    ensures
        r == param_matches(*a, *b),
{
    a.name == b.name && lifetimes_eq(&a.lifetime_indices, &b.lifetime_indices) && a.type_id
        == b.type_id
}

fn function_eq(a: &TLFunction, b: &TLFunction) -> (r: bool)
    ensures
        r == function_matches(*a, *b),
{
    if !(a.name == b.name) {
        return false;
    }
    if !strings_eq(&a.bound_lifetimes, &b.bound_lifetimes) {
        return false;
    }
    if a.params.len() != b.params.len() {
        return false;
    }
    let mut i: usize = 0;
    while i < a.params.len()
        invariant
            i <= a.params@.len(),
            a.params@.len() == b.params@.len(),
            a.name@ == b.name@,
            strings_match(a.bound_lifetimes@, b.bound_lifetimes@),
            forall|j: int| 0 <= j < i ==> param_matches(a.params@[j], b.params@[j]),
        decreases a.params@.len() - i,
    {
        if !param_eq(&a.params[i], &b.params[i]) {
            return false;
        }
        i += 1;
    }
    match (&a.ret, &b.ret) {
        (Some(x), Some(y)) => param_eq(x, y),
        (None, None) => true,
        _ => false,
    }
}

fn functions_eq(a: &Vec<TLFunction>, b: &Vec<TLFunction>) -> (r: bool)
    ensures
        r == functions_match(a@, b@),
{
    if a.len() != b.len() {
        return false;
    }
    let mut i: usize = 0;
    while i < a.len()
        invariant
            i <= a@.len(),
            a@.len() == b@.len(),
            forall|j: int| 0 <= j < i ==> function_matches(a@[j], b@[j]),
        decreases a@.len() - i,
    {
        if !function_eq(&a[i], &b[i]) {
            return false;
        }
        i += 1;
    }
    true
}

fn version_eq(a: &VersionStrings, b: &VersionStrings) -> (r: bool)
    ensures
        r == version_matches(*a, *b),
{
    a.major == b.major && a.minor == b.minor && a.patch == b.patch
}

/// Compares everything two fields must agree on besides their targets.
fn field_shallow_eq(a: &TLField, b: &TLField) -> (r: bool)
    ensures
        r == field_shallow_matches(*a, *b),
{
    a.name == b.name && lifetimes_eq(&a.lifetime_indices, &b.lifetime_indices) && functions_eq(
        &a.functions,
        &b.functions,
    ) && a.is_function == b.is_function && accessor_eq(&a.field_accessor, &b.field_accessor)
}

/// Compares two field lists structurally, entering each pair of targets
/// through the context.
#[verifier::loop_isolation(false)]
fn fields_equal_rec(
    reg: &TypeRegistry,
    fa: &Vec<TLField>,
    fb: &Vec<TLField>,
    ctx: &mut TraversalCtx,
) -> (r: bool)
    requires
        reg.wf(),
        fields_ok(fa@, reg.layouts@.len() as int),
        fields_ok(fb@, reg.layouts@.len() as int),
        ctx_ok(*old(ctx), *reg),
    ensures
        ctx_ok(*final(ctx), *reg),
        ctx_evolves(*old(ctx), *final(ctx)),
        fa@ == fb@ ==> r == true,
        r ==> fields_shallow_match(fa@, fb@),
    decreases count_unvisited(ctx.visited@), 0int,
{
    let n = reg.len();
    if fa.len() != fb.len() {
        return false;
    }
    let ghost entry_ctx = *ctx;
    let mut i: usize = 0;
    while i < fa.len()
        invariant
            i <= fa@.len(),
            fa@.len() == fb@.len(),
            ctx_ok(*ctx, *reg),
            ctx_evolves(entry_ctx, *ctx),
            forall|j: int| 0 <= j < i ==> field_shallow_matches(fa@[j], fb@[j]),
        decreases fa@.len() - i,
    {
        let fai = &fa[i];
        let fbi = &fb[i];
        proof {
            assert(field_ok(fa@[i as int], n as int));
            assert(field_ok(fb@[i as int], n as int));
        }
        if !field_shallow_eq(fai, fbi) {
            return false;
        }
        let t = fai.type_id;
        if ctx.is_visited(t) {
            // The target was already entered in this traversal: the cycle
            // is broken here and the field's own attributes decide.
        } else {
            ctx.mark(t);
            if !layout_equal_rec(reg, t, fbi.type_id, ctx) {
                return false;
            }
        }
        i += 1;
    }
    true
}

/// Compares the layouts behind two deferred identifiers structurally;
/// `a_id` must already be marked in the context by the caller.  The
/// recorded source file and line are excluded from the comparison.
#[verifier::loop_isolation(false)]
fn layout_equal_rec(reg: &TypeRegistry, a_id: usize, b_id: usize, ctx: &mut TraversalCtx) -> (r:
    bool)
    requires
        reg.wf(),
        a_id < reg.layouts@.len(),
        b_id < reg.layouts@.len(),
        ctx_ok(*old(ctx), *reg),
        old(ctx).visited@[a_id as int],
    ensures
        ctx_ok(*final(ctx), *reg),
        ctx_evolves(*old(ctx), *final(ctx)),
        reg.layouts@[a_id as int] == reg.layouts@[b_id as int] ==> r == true,
        r ==> layout_shallow_matches(reg.layouts@[a_id as int], reg.layouts@[b_id as int]),
    decreases count_unvisited(ctx.visited@), 1int,
{
    let n = reg.len();
    let la = reg.get(a_id);
    let lb = reg.get(b_id);
    proof {
        assert(layout_ok(reg.layouts@[a_id as int], n as int));
        assert(layout_ok(reg.layouts@[b_id as int], n as int));
    }
    if !(la.name == lb.name) {
        return false;
    }
    if !(la.package == lb.package) {
        return false;
    }
    if !version_eq(&la.package_version, &lb.package_version) {
        return false;
    }
    if la.size != lb.size || la.alignment != lb.alignment {
        return false;
    }
    if !(la.reflection_tag == lb.reflection_tag) || !(la.tag == lb.tag) {
        return false;
    }
    if !(la.mod_refl_mode == lb.mod_refl_mode) || !(la.repr_attr == lb.repr_attr) {
        return false;
    }
    // The display identity, with its generic arguments entered through the
    // context.
    if !(la.full_type.name == lb.full_type.name) {
        return false;
    }
    if !(la.full_type.primitive == lb.full_type.primitive) {
        return false;
    }
    let ga = &la.full_type.generics;
    let gb = &lb.full_type.generics;
    if !strings_eq(&ga.lifetime, &gb.lifetime) || !strings_eq(&ga.const_, &gb.const_) {
        return false;
    }
    if ga.type_.len() != gb.type_.len() {
        return false;
    }
    let mut gi: usize = 0;
    while gi < ga.type_.len()
        invariant
            gi <= ga.type_@.len(),
            ga.type_@.len() == gb.type_@.len(),
            ctx_ok(*ctx, *reg),
            ctx_evolves(*old(ctx), *ctx),
        decreases ga.type_@.len() - gi,
    {
        let ta = ga.type_[gi];
        let tb = gb.type_[gi];
        proof {
            assert(ga.type_@[gi as int] < reg.layouts@.len() as int);
            assert(gb.type_@[gi as int] < reg.layouts@.len() as int);
        }
        if ctx.is_visited(ta) {
            // Already entered: the cycle is broken here.
        } else {
            ctx.mark(ta);
            if !layout_equal_rec(reg, ta, tb, ctx) {
                return false;
            }
        }
        gi += 1;
    }
    // The data shape.
    let shape_equal: bool = match (&la.data, &lb.data) {
        (TLData::Primitive, TLData::Primitive) => true,
        (TLData::Struct { fields: sfa }, TLData::Struct { fields: sfb }) => {
            let e = fields_equal_rec(reg, sfa, sfb, ctx);
            proof {
                if e {
                    assert(data_shallow_matches(la.data, lb.data));
                }
            }
            e
        },
        (TLData::Enum { variants: va }, TLData::Enum { variants: vb }) => {
            if va.len() != vb.len() {
                false
            } else {
                let mut ok = true;
                let mut i: usize = 0;
                while ok && i < va.len()
                    invariant
                        i <= va@.len(),
                        va@.len() == vb@.len(),
                        ctx_ok(*ctx, *reg),
                        ctx_evolves(*old(ctx), *ctx),
                        va@ == vb@ ==> ok,
                        ok ==> forall|j: int|
                            0 <= j < i ==> variant_shallow_matches(#[trigger] va@[j], vb@[j]),
                    decreases va@.len() - i,
                {
                    let xa = &va[i];
                    let xb = &vb[i];
                    proof {
                        assert(variant_ok(va@[i as int], n as int));
                        assert(variant_ok(vb@[i as int], n as int));
                        if va@ == vb@ {
                            assert(va@[i as int] == vb@[i as int]);
                            assert(xa.fields@ == xb.fields@);
                        }
                    }
                    if !(xa.name == xb.name) || !(xa.discriminant == xb.discriminant) {
                        ok = false;
                    } else if !fields_equal_rec(reg, &xa.fields, &xb.fields, ctx) {
                        ok = false;
                    }
                    i += 1;
                }
                let e = ok && i == va.len();
                proof {
                    if e {
                        assert(data_shallow_matches(la.data, lb.data));
                    }
                }
                e
            }
        },
        (TLData::PrefixType(pa), TLData::PrefixType(pb)) => {
            if pa.first_suffix_field != pb.first_suffix_field {
                false
            } else if !bools_eq(&pa.accessible_fields.guaranteed, &pb.accessible_fields.guaranteed) {
                false
            } else if !conditionals_eq(
                &pa.conditional_prefix_fields,
                &pb.conditional_prefix_fields,
            ) {
                false
            } else {
                let e = fields_equal_rec(reg, &pa.fields, &pb.fields, ctx);
                proof {
                    if e {
                        assert(data_shallow_matches(la.data, lb.data));
                    }
                }
                e
            }
        },
        _ => false,
    };
    if !shape_equal {
        return false;
    }
    // Phantom fields follow the field rule.
    if !fields_equal_rec(reg, &la.phantom_fields, &lb.phantom_fields, ctx) {
        return false;
    }
    true
}

fn bools_eq(a: &Vec<bool>, b: &Vec<bool>) -> (r: bool)
    ensures
        r == (a@ == b@),
{
    if a.len() != b.len() {
        proof {
            assert(a@.len() != b@.len());
        }
        return false;
    }
    let mut i: usize = 0;
    while i < a.len()
        invariant
            i <= a@.len(),
            a@.len() == b@.len(),
            forall|j: int| 0 <= j < i ==> a@[j] == b@[j],
        decreases a@.len() - i,
    {
        if a[i] != b[i] {
            return false;
        }
        i += 1;
    }
    proof {
        assert(a@ =~= b@);
    }
    true
}

fn conditionals_eq(
    a: &Vec<crate::type_layout::IsConditional>,
    b: &Vec<crate::type_layout::IsConditional>,
) -> (r: bool)
    ensures
        r == (a@ == b@),
{
    if a.len() != b.len() {
        proof {
            assert(a@.len() != b@.len());
        }
        return false;
    }
    let mut i: usize = 0;
    while i < a.len()
        invariant
            i <= a@.len(),
            a@.len() == b@.len(),
            forall|j: int| 0 <= j < i ==> a@[j] == b@[j],
        decreases a@.len() - i,
    {
        if !(a[i] == b[i]) {
            return false;
        }
        i += 1;
    }
    proof {
        assert(a@ =~= b@);
    }
    true
}

/// Compares the descriptor graphs rooted at two deferred identifiers
/// structurally, excluding the recorded source file and line.  A fresh
/// traversal context lives exactly for this one call, so self-referential
/// graphs terminate and concurrent comparisons can never share state.
pub fn layout_equal(reg: &TypeRegistry, a_id: usize, b_id: usize) -> (r: bool)
    requires
        reg.wf(),
        a_id < reg.layouts@.len(),
        b_id < reg.layouts@.len(),
    ensures
        reg.layouts@[a_id as int] == reg.layouts@[b_id as int] ==> r == true,
        r ==> layout_shallow_matches(reg.layouts@[a_id as int], reg.layouts@[b_id as int]),
{
    let mut ctx = TraversalCtx::new(reg.len());
    ctx.mark(a_id);
    layout_equal_rec(reg, a_id, b_id, &mut ctx)
}

/// Compares two fields structurally, as [`layout_equal`] does for layouts:
/// their own attributes must agree and their targets are compared through a
/// fresh cycle-safe context.
pub fn field_equal(reg: &TypeRegistry, fa: &TLField, fb: &TLField) -> (r: bool)
    requires
        reg.wf(),
        fa.type_id < reg.layouts@.len(),
        fb.type_id < reg.layouts@.len(),
    ensures
        *fa == *fb ==> r == true,
        r ==> field_shallow_matches(*fa, *fb),
{
    if !field_shallow_eq(fa, fb) {
        return false;
    }
    let mut ctx = TraversalCtx::new(reg.len());
    ctx.mark(fa.type_id);
    layout_equal_rec(reg, fa.type_id, fb.type_id, &mut ctx)
}

} // verus!
