//! The structural compatibility checker.
//!
//! Given two layout descriptors for nominally the same exported type — the
//! one the loading component expects and the one the loaded component
//! provides — [`check_layout_compatibility`] returns the aggregated,
//! path-annotated list of mismatches between them; an empty list means the
//! two layouts may safely be treated as interchangeable.  The walk follows
//! the evaluation order below, each step short-circuiting only within its
//! own subtree:
//!
//! 1. size and alignment must be identical; a mismatch is fatal for the
//!    whole comparison;
//! 2. the data-shape kind must match, and `Primitive` is trusted beyond
//!    size and alignment;
//! 3. struct fields are compared pairwise in declared order — a name
//!    difference is reported and each field's target is entered through the
//!    cycle-safe context, shallowly when already visited;
//! 4. enum variants must agree in count, order, name and discriminant —
//!    including the discriminant's stored width, since the width changes
//!    the representation even when the value coincides — and their fields
//!    follow the struct rule;
//! 5. an extensible prefix type may gain suffix fields: fields present in
//!    both descriptors follow the struct rule, the provided side may have
//!    extra suffix fields freely, and the expected side may list fields the
//!    provider lacks only where its own accessibility record marks them
//!    non-guaranteed (a prefix field, or a guaranteed suffix field, may
//!    never be missing);
//! 6. generics: lifetime lists by count, type parameters recursively
//!    through the context, const parameters by count and literal.
//!
//! Only what is binary-relevant is compared: the type's name, package,
//! version and metadata tags, and a field's lifetime indices and accessor
//! kind, never make two layouts incompatible.  Structural equality over
//! all of those lives in [`crate::equality`] instead.

use vstd::prelude::*;

use crate::registry::{field_ok, fields_ok, generics_ok, layout_ok, variant_ok, TypeRegistry};
use crate::render::{field_entry_string, field_entry_text, full_type_string, full_type_text,
    RENDER_DEPTH};
use crate::traversal::{count_unvisited, ctx_evolves, ctx_ok, TraversalCtx};
use crate::type_layout::{TLData, TLField, TLPrefixType, TypeLayout};
use vstd::string::StringExecFns;

verus! {

/// What kind of disagreement a mismatch record reports.
#[derive(Clone, Copy, Debug, PartialEq, Eq, Structural)]
pub enum MismatchKind {
    Size,
    Alignment,
    Shape,
    FieldCount,
    FieldType,
    Discriminant,
    Generics,
}

/// One disagreement between the two descriptors: where in the type it was
/// found, what kind it is, and the display identities of the two conflicting
/// sides.
#[derive(Clone, Debug)]
pub struct Mismatch {
    /// The dotted path from the root type to the disagreeing component.
    pub path: String,
    pub kind: MismatchKind,
    /// A summary of what the expecting side demands.
    pub expected: String,
    /// A summary of what the providing side offers.
    pub found: String,
}

/// The name of a mismatch kind in diagnostic lines.
pub open spec fn kind_text(k: MismatchKind) -> Seq<char> {
    match k {
        MismatchKind::Size => "size"@,
        MismatchKind::Alignment => "alignment"@,
        MismatchKind::Shape => "shape"@,
        MismatchKind::FieldCount => "field-count"@,
        MismatchKind::FieldType => "field-type"@,
        MismatchKind::Discriminant => "discriminant"@,
        MismatchKind::Generics => "generics"@,
    }
}

/// The one-line rendering of a mismatch record.
pub open spec fn mismatch_line_text(m: Mismatch) -> Seq<char> {
    m.path@ + ": "@ + kind_text(m.kind) + ": expected "@ + m.expected@ + ", found "@ + m.found@
}

impl Mismatch {
    /// Renders the mismatch as the diagnostic line a loader surfaces:
    /// `<dotted-path>: <mismatch-kind>: expected <summary>, found <summary>`.
    pub fn display_string(&self) -> (r: String)
        ensures
            r@ == mismatch_line_text(*self),
    {
        let mut out = self.path.clone();
        out.append(": ");
        match self.kind {
            MismatchKind::Size => out.append("size"),
            MismatchKind::Alignment => out.append("alignment"),
            MismatchKind::Shape => out.append("shape"),
            MismatchKind::FieldCount => out.append("field-count"),
            MismatchKind::FieldType => out.append("field-type"),
            MismatchKind::Discriminant => out.append("discriminant"),
            MismatchKind::Generics => out.append("generics"),
        }
        out.append(": expected ");
        out.append(self.expected.as_str());
        out.append(", found ");
        out.append(self.found.as_str());
        proof {
            assert(out@ =~= mismatch_line_text(*self));
        }
        out
    }
}

/// The record `m` reports `kind` at `path`, with the two layouts' display
/// identities as its summaries.
pub open spec fn mismatch_is(
    reg: Seq<TypeLayout>,
    m: Mismatch,
    path: Seq<char>,
    kind: MismatchKind,
    la: TypeLayout,
    lb: TypeLayout,
) -> bool {
    &&& m.path@ == path
    &&& m.kind == kind
    &&& m.expected@ == full_type_text(reg, la.full_type, RENDER_DEPTH as nat)
    &&& m.found@ == full_type_text(reg, lb.full_type, RENDER_DEPTH as nat)
}

/// The record `m` reports that the fields `fa` and `fb` disagree, naming
/// both fields and their types.
pub open spec fn field_type_mismatch_for(
    reg: Seq<TypeLayout>,
    m: Mismatch,
    fa: TLField,
    fb: TLField,
) -> bool {
    &&& m.kind == MismatchKind::FieldType
    &&& m.expected@ == field_entry_text(reg, fa.name@, fa.type_id as int, RENDER_DEPTH as nat)
    &&& m.found@ == field_entry_text(reg, fb.name@, fb.type_id as int, RENDER_DEPTH as nat)
}

pub open spec fn min_(a: int, b: int) -> int {
    if a < b {
        a
    } else {
        b
    }
}

/// Mismatch `j` of `out` reports that fields `k` of the two lists
/// disagree in their names, naming both fields and their types.
pub open spec fn names_conflict_reported(
    reg: Seq<TypeLayout>,
    out: Seq<Mismatch>,
    fa: Seq<TLField>,
    fb: Seq<TLField>,
    j: int,
    k: int,
) -> bool {
    &&& 0 <= j < out.len()
    &&& 0 <= k < min_(fa.len() as int, fb.len() as int)
    &&& fa[k].name@ != fb[k].name@
    &&& field_type_mismatch_for(reg, out[j], fa[k], fb[k])
}

/// Mismatch `j` of `out` reports a field-name conflict at position `k` of
/// the two struct layouts.
pub open spec fn layout_names_conflict_reported(
    reg: Seq<TypeLayout>,
    out: Seq<Mismatch>,
    la: TypeLayout,
    lb: TypeLayout,
    j: int,
    k: int,
) -> bool {
    match (la.data, lb.data) {
        (TLData::Struct { fields: fa }, TLData::Struct { fields: fb }) => names_conflict_reported(
            reg,
            out,
            fa@,
            fb@,
            j,
            k,
        ),
        _ => false,
    }
}

/// The provided prefix type's field list extends the expected one: every
/// shared field is identical and the provider may append more.
pub open spec fn prefix_fields_extend(pa: TLPrefixType, pb: TLPrefixType) -> bool {
    &&& pa.fields@.len() <= pb.fields@.len()
    &&& pb.fields@.take(pa.fields@.len() as int) == pa.fields@
}

/// The two shapes agree on everything the checker compares, without looking
/// through any deferred identifier: they are equal, or the provided prefix
/// type extends the expected one.
pub open spec fn data_compat_trivially(da: TLData, db: TLData) -> bool {
    match (da, db) {
        (TLData::PrefixType(pa), TLData::PrefixType(pb)) => prefix_fields_extend(pa, pb),
        _ => da == db,
    }
}

/// The provided layout is the expected one, or extends it by suffix fields:
/// the compatibility checker owes such a pair an empty mismatch list.
pub open spec fn trivially_compatible(la: TypeLayout, lb: TypeLayout) -> bool {
    &&& la.size == lb.size
    &&& la.alignment == lb.alignment
    &&& la.full_type.generics == lb.full_type.generics
    &&& data_compat_trivially(la.data, lb.data)
}

/// Every layout is trivially compatible with itself.
pub proof fn lemma_trivially_compatible_refl(l: TypeLayout)
    ensures
        trivially_compatible(l, l),
{
    match l.data {
        TLData::PrefixType(p) => {
            assert(p.fields@.take(p.fields@.len() as int) =~= p.fields@);
        },
        _ => {},
    }
}

/// Two enums of the same variant count disagree in some variant's
/// discriminant (its value, signedness or stored width).
pub open spec fn enum_discriminant_conflict(la: TypeLayout, lb: TypeLayout) -> bool {
    &&& la.size == lb.size
    &&& la.alignment == lb.alignment
    &&& match (la.data, lb.data) {
        (TLData::Enum { variants: va }, TLData::Enum { variants: vb }) => {
            &&& va@.len() == vb@.len()
            &&& exists|k: int|
                0 <= k < va@.len() && (#[trigger] va@[k]).discriminant != vb@[k].discriminant
        },
        _ => false,
    }
}

/// Two structs of the same field count disagree in some field's name — for
/// example because two fields were reordered.
pub open spec fn struct_field_name_conflict(la: TypeLayout, lb: TypeLayout) -> bool {
    &&& la.size == lb.size
    &&& la.alignment == lb.alignment
    &&& match (la.data, lb.data) {
        (TLData::Struct { fields: fa }, TLData::Struct { fields: fb }) => {
            &&& fa@.len() == fb@.len()
            &&& exists|k: int| 0 <= k < fa@.len() && (#[trigger] fa@[k]).name@ != fb@[k].name@
        },
        _ => false,
    }
}

/// The expected prefix type's accessors demand the field at index `k`: it
/// is a prefix field, or a suffix field marked guaranteed.
pub open spec fn demands_field(pa: TLPrefixType, k: int) -> bool {
    k < pa.first_suffix_field || pa.accessible_fields.is_accessible_spec(k)
}

/// The expected prefix type demands a field — a prefix field, or a suffix
/// field its accessibility record marks guaranteed — that the provided one
/// lacks.
pub open spec fn demands_missing_suffix_field(la: TypeLayout, lb: TypeLayout) -> bool {
    &&& la.size == lb.size
    &&& la.alignment == lb.alignment
    &&& match (la.data, lb.data) {
        (TLData::PrefixType(pa), TLData::PrefixType(pb)) => {
            &&& pa.fields@.len() > pb.fields@.len()
            &&& exists|k: int|
                pb.fields@.len() <= k < pa.fields@.len() && #[trigger] demands_field(pa, k)
        },
        _ => false,
    }
}

/// Builds a mismatch record carrying the two layouts' display identities.
fn make_mismatch(
    reg: &TypeRegistry,
    path: &String,
    kind: MismatchKind,
    la: &TypeLayout,
    lb: &TypeLayout,
) -> (m: Mismatch)
    ensures
        mismatch_is(reg.layouts@, m, path@, kind, *la, *lb),
{
    Mismatch {
        path: path.clone(),
        kind,
        expected: full_type_string(reg, &la.full_type, RENDER_DEPTH),
        found: full_type_string(reg, &lb.full_type, RENDER_DEPTH),
    }
}

/// Extends a dotted path by one component.
fn child_path(path: &String, name: &String) -> (r: String)
    ensures
        r@ == path@ + "."@ + name@,
{
    let mut r = path.clone();
    r.append(".");
    r.append(name.as_str());
    proof {
        assert(r@ =~= path@ + "."@ + name@);
    }
    r
}

/// `b` extends `a`: nothing already reported is ever dropped or changed.
pub open spec fn appended(a: Seq<Mismatch>, b: Seq<Mismatch>) -> bool {
    &&& a.len() <= b.len()
    &&& forall|j: int| #![trigger a[j]] #![trigger b[j]] 0 <= j < a.len() ==> b[j] == a[j]
}

/// Compares two field lists pairwise in declared order, entering each
/// field's target through the cycle-safe context.  Only the shared prefix
/// of the two lists is compared; the caller decides what a length
/// difference means.
#[verifier::loop_isolation(false)]
fn check_field_pairs(
    reg: &TypeRegistry,
    fa: &Vec<TLField>,
    fb: &Vec<TLField>,
    ctx: &mut TraversalCtx,
    path: &String,
    out: &mut Vec<Mismatch>,
)
    requires
        reg.wf(),
        fields_ok(fa@, reg.layouts@.len() as int),
        fields_ok(fb@, reg.layouts@.len() as int),
        ctx_ok(*old(ctx), *reg),
    ensures
        ctx_ok(*final(ctx), *reg),
        ctx_evolves(*old(ctx), *final(ctx)),
        appended(old(out)@, final(out)@),
        (forall|x: int| 0 <= x < min_(fa@.len() as int, fb@.len() as int) ==> fa@[x] == fb@[x])
            ==> final(out)@ == old(out)@,
        (exists|k: int|
            0 <= k < min_(fa@.len() as int, fb@.len() as int) && (#[trigger] fa@[k]).name@
                != fb@[k].name@) ==> (exists|j: int, k: int|
            #[trigger] names_conflict_reported(reg.layouts@, final(out)@, fa@, fb@, j, k)),
    decreases count_unvisited(ctx.visited@), 1int,
{
    let n = reg.len();
    let min_len = if fa.len() < fb.len() {
        fa.len()
    } else {
        fb.len()
    };
    let ghost entry_ctx = *ctx;
    let ghost entry_out = out@;
    let ghost mut nc_j: int = 0;
    let ghost mut nc_k: int = 0;
    let mut i: usize = 0;
    while i < min_len
        invariant
            i <= min_len,
            min_len == min_(fa@.len() as int, fb@.len() as int),
            ctx_ok(*ctx, *reg),
            ctx_evolves(entry_ctx, *ctx),
            appended(entry_out, out@),
            (forall|x: int| 0 <= x < min_len ==> fa@[x] == fb@[x]) ==> out@ == entry_out,
            (exists|k: int| 0 <= k < i && (#[trigger] fa@[k]).name@ != fb@[k].name@)
                ==> names_conflict_reported(reg.layouts@, out@, fa@, fb@, nc_j, nc_k),
        decreases min_len - i,
    {
        let fai = &fa[i];
        let fbi = &fb[i];
        proof {
            assert(field_ok(fa@[i as int], n as int));
            assert(field_ok(fb@[i as int], n as int));
        }
        let ghost iter_out = out@;
        if fai.name == fbi.name {
            let t = fai.type_id;
            proof {
                lemma_trivially_compatible_refl(reg.layouts@[t as int]);
            }
            if ctx.is_visited(t) {
                // The target was already entered in this traversal: a cycle.
                // The field is treated shallowly — its own attributes were
                // compared above — and inspection of the subtree stops here.
            } else {
                ctx.mark(t);
                let child = child_path(path, &fai.name);
                check_layout_rec(reg, t, fbi.type_id, ctx, &child, out);
            }
        } else {
            let m = Mismatch {
                path: path.clone(),
                kind: MismatchKind::FieldType,
                expected: field_entry_string(reg, &fai.name, fai.type_id, RENDER_DEPTH),
                found: field_entry_string(reg, &fbi.name, fbi.type_id, RENDER_DEPTH),
            };
            out.push(m);
            proof {
                nc_j = out@.len() - 1;
                nc_k = i as int;
                assert(out@[nc_j] == m);
                assert(names_conflict_reported(reg.layouts@, out@, fa@, fb@, nc_j, nc_k));
            }
        }
        proof {
            assert(appended(iter_out, out@));
        }
        i += 1;
    }
    proof {
        if exists|k: int|
            0 <= k < min_(fa@.len() as int, fb@.len() as int) && (#[trigger] fa@[k]).name@
                != fb@[k].name@ {
            assert(names_conflict_reported(reg.layouts@, out@, fa@, fb@, nc_j, nc_k));
        }
    }
}

/// Compares the generic parameter lists of the two layouts: lifetimes by
/// count, type parameters recursively through the context, const
/// parameters by count and literal value.
#[verifier::loop_isolation(false)]
fn check_generics_compat(
    reg: &TypeRegistry,
    la: &TypeLayout,
    lb: &TypeLayout,
    ctx: &mut TraversalCtx,
    path: &String,
    out: &mut Vec<Mismatch>,
)
    requires
        reg.wf(),
        generics_ok(la.full_type.generics, reg.layouts@.len() as int),
        generics_ok(lb.full_type.generics, reg.layouts@.len() as int),
        ctx_ok(*old(ctx), *reg),
    ensures
        ctx_ok(*final(ctx), *reg),
        ctx_evolves(*old(ctx), *final(ctx)),
        appended(old(out)@, final(out)@),
        la.full_type.generics == lb.full_type.generics ==> final(out)@ == old(out)@,
    decreases count_unvisited(ctx.visited@), 0int,
{
    let ga = &la.full_type.generics;
    let gb = &lb.full_type.generics;
    let ghost entry_ctx = *ctx;
    let ghost entry_out = out@;
    if ga.lifetime.len() != gb.lifetime.len() {
        let m = make_mismatch(reg, path, MismatchKind::Generics, la, lb);
        out.push(m);
    }
    if ga.type_.len() != gb.type_.len() {
        let m = make_mismatch(reg, path, MismatchKind::Generics, la, lb);
        out.push(m);
    }
    let tmin = if ga.type_.len() < gb.type_.len() {
        ga.type_.len()
    } else {
        gb.type_.len()
    };
    let mut i: usize = 0;
    while i < tmin
        invariant
            i <= tmin,
            tmin == min_(ga.type_@.len() as int, gb.type_@.len() as int),
            ctx_ok(*ctx, *reg),
            ctx_evolves(entry_ctx, *ctx),
            appended(entry_out, out@),
            *ga == la.full_type.generics,
            *gb == lb.full_type.generics,
            (la.full_type.generics == lb.full_type.generics) ==> out@ == entry_out,
        decreases tmin - i,
    {
        let ta = ga.type_[i];
        let tb = gb.type_[i];
        proof {
            assert(ga.type_@[i as int] < reg.layouts@.len() as int);
            assert(gb.type_@[i as int] < reg.layouts@.len() as int);
            lemma_trivially_compatible_refl(reg.layouts@[ta as int]);
        }
        if ctx.is_visited(ta) {
            // Already entered in this traversal: the cycle is broken here.
        } else {
            ctx.mark(ta);
            check_layout_rec(reg, ta, tb, ctx, path, out);
        }
        i += 1;
    }
    if ga.const_.len() != gb.const_.len() {
        let m = make_mismatch(reg, path, MismatchKind::Generics, la, lb);
        out.push(m);
    }
    let cmin = if ga.const_.len() < gb.const_.len() {
        ga.const_.len()
    } else {
        gb.const_.len()
    };
    let mut k: usize = 0;
    while k < cmin
        invariant
            k <= cmin,
            cmin == min_(ga.const_@.len() as int, gb.const_@.len() as int),
            ctx_ok(*ctx, *reg),
            ctx_evolves(entry_ctx, *ctx),
            appended(entry_out, out@),
            *ga == la.full_type.generics,
            *gb == lb.full_type.generics,
            (la.full_type.generics == lb.full_type.generics) ==> out@ == entry_out,
        decreases cmin - k,
    {
        if !(ga.const_[k] == gb.const_[k]) {
            let m = make_mismatch(reg, path, MismatchKind::Generics, la, lb);
            out.push(m);
        }
        k += 1;
    }
}

/// Compares the layouts behind two deferred identifiers; `a_id` must
/// already be marked in the context by the caller.  Appends every mismatch
/// found in this subtree to `out`.
#[verifier::loop_isolation(false)]
fn check_layout_rec(
    reg: &TypeRegistry,
    a_id: usize,
    b_id: usize,
    ctx: &mut TraversalCtx,
    path: &String,
    out: &mut Vec<Mismatch>,
)
    requires
        reg.wf(),
        a_id < reg.layouts@.len(),
        b_id < reg.layouts@.len(),
        ctx_ok(*old(ctx), *reg),
        old(ctx).visited@[a_id as int],
    ensures
        ctx_ok(*final(ctx), *reg),
        ctx_evolves(*old(ctx), *final(ctx)),
        appended(old(out)@, final(out)@),
        trivially_compatible(reg.layouts@[a_id as int], reg.layouts@[b_id as int])
            ==> final(out)@ == old(out)@,
        (reg.layouts@[a_id as int].size != reg.layouts@[b_id as int].size
            && reg.layouts@[a_id as int].alignment == reg.layouts@[b_id as int].alignment)
            ==> final(out)@.len() == old(out)@.len() + 1 && mismatch_is(
            reg.layouts@,
            final(out)@.last(),
            path@,
            MismatchKind::Size,
            reg.layouts@[a_id as int],
            reg.layouts@[b_id as int],
        ),
        (reg.layouts@[a_id as int].size != reg.layouts@[b_id as int].size
            && reg.layouts@[a_id as int].alignment != reg.layouts@[b_id as int].alignment)
            ==> final(out)@.len() == old(out)@.len() + 2 && mismatch_is(
            reg.layouts@,
            final(out)@[old(out)@.len() as int],
            path@,
            MismatchKind::Size,
            reg.layouts@[a_id as int],
            reg.layouts@[b_id as int],
        ) && mismatch_is(
            reg.layouts@,
            final(out)@.last(),
            path@,
            MismatchKind::Alignment,
            reg.layouts@[a_id as int],
            reg.layouts@[b_id as int],
        ),
        (reg.layouts@[a_id as int].size == reg.layouts@[b_id as int].size
            && reg.layouts@[a_id as int].alignment != reg.layouts@[b_id as int].alignment)
            ==> final(out)@.len() == old(out)@.len() + 1 && mismatch_is(
            reg.layouts@,
            final(out)@.last(),
            path@,
            MismatchKind::Alignment,
            reg.layouts@[a_id as int],
            reg.layouts@[b_id as int],
        ),
        enum_discriminant_conflict(reg.layouts@[a_id as int], reg.layouts@[b_id as int]) ==> (
        exists|j: int|
            0 <= j < final(out)@.len() && final(out)@[j].kind == MismatchKind::Discriminant),
        struct_field_name_conflict(reg.layouts@[a_id as int], reg.layouts@[b_id as int]) ==> (
        exists|j: int, k: int|
            #[trigger] layout_names_conflict_reported(
                reg.layouts@,
                final(out)@,
                reg.layouts@[a_id as int],
                reg.layouts@[b_id as int],
                j,
                k,
            )),
        demands_missing_suffix_field(reg.layouts@[a_id as int], reg.layouts@[b_id as int])
            ==> final(out)@.len() > old(out)@.len() && (exists|j: int|
            0 <= j < final(out)@.len() && final(out)@[j].kind == MismatchKind::FieldCount),
    decreases count_unvisited(ctx.visited@), 2int,
{
    let n = reg.len();
    let la = reg.get(a_id);
    let lb = reg.get(b_id);
    proof {
        assert(layout_ok(reg.layouts@[a_id as int], n as int));
        assert(layout_ok(reg.layouts@[b_id as int], n as int));
    }
    let ghost entry_out = out@;
    // Step 1: size and alignment, fatal for the whole comparison.
    let mut fatal = false;
    if la.size != lb.size {
        let m = make_mismatch(reg, path, MismatchKind::Size, la, lb);
        out.push(m);
        fatal = true;
    }
    if la.alignment != lb.alignment {
        let m = make_mismatch(reg, path, MismatchKind::Alignment, la, lb);
        out.push(m);
        fatal = true;
    }
    if fatal {
        return;
    }
    let ghost mut d_j: int = 0;
    let ghost mut f_j: int = 0;
    let ghost mut nc_j: int = 0;
    let ghost mut nc_k: int = 0;
    // Step 2: the data-shape kind.
    let da = la.data.as_discriminant();
    let db = lb.data.as_discriminant();
    if da != db {
        let m = make_mismatch(reg, path, MismatchKind::Shape, la, lb);
        out.push(m);
        // Only the shape subtree stops here; generics are still compared.
    } else {
        // Steps 3 to 5, by shape.
        match (&la.data, &lb.data) {
            (TLData::Primitive, TLData::Primitive) => {
                // Trusted beyond size and alignment.
            },
            (TLData::Struct { fields: fa }, TLData::Struct { fields: fb }) => {
                if fa.len() != fb.len() {
                    let m = make_mismatch(reg, path, MismatchKind::FieldCount, la, lb);
                    out.push(m);
                }
                proof {
                    if la.data == lb.data {
                        assert(fa@ == fb@);
                    }
                }
                check_field_pairs(reg, fa, fb, ctx, path, out);
                proof {
                    if exists|j: int, k: int|
                        #[trigger] names_conflict_reported(
                            reg.layouts@,
                            out@,
                            fa@,
                            fb@,
                            j,
                            k,
                        ) {
                        let (j0, k0) = choose|j: int, k: int|
                            #[trigger] names_conflict_reported(
                                reg.layouts@,
                                out@,
                                fa@,
                                fb@,
                                j,
                                k,
                            );
                        nc_j = j0;
                        nc_k = k0;
                        assert(layout_names_conflict_reported(
                            reg.layouts@,
                            out@,
                            reg.layouts@[a_id as int],
                            reg.layouts@[b_id as int],
                            nc_j,
                            nc_k,
                        ));
                    }
                }
            },
            (TLData::Enum { variants: va }, TLData::Enum { variants: vb }) => {
                if va.len() != vb.len() {
                    let m = make_mismatch(reg, path, MismatchKind::FieldCount, la, lb);
                    out.push(m);
                }
                let vmin = if va.len() < vb.len() {
                    va.len()
                } else {
                    vb.len()
                };
                let ghost arm_ctx = *ctx;
                let mut i: usize = 0;
                while i < vmin
                    invariant
                        i <= vmin,
                        vmin == min_(va@.len() as int, vb@.len() as int),
                        ctx_ok(*ctx, *reg),
                        ctx_evolves(arm_ctx, *ctx),
                        appended(entry_out, out@),
                        (la.data == lb.data) ==> out@ == entry_out,
                        (exists|k: int|
                            0 <= k < i && (#[trigger] va@[k]).discriminant
                                != vb@[k].discriminant) ==> 0 <= d_j < out@.len()
                            && out@[d_j].kind == MismatchKind::Discriminant,
                    decreases vmin - i,
                {
                    let xa = &va[i];
                    let xb = &vb[i];
                    proof {
                        assert(variant_ok(va@[i as int], n as int));
                        assert(variant_ok(vb@[i as int], n as int));
                    }
                    if !(xa.name == xb.name) {
                        let m = Mismatch {
                            path: path.clone(),
                            kind: MismatchKind::FieldType,
                            expected: xa.name.clone(),
                            found: xb.name.clone(),
                        };
                        out.push(m);
                    }
                    if !(xa.discriminant == xb.discriminant) {
                        let m = Mismatch {
                            path: path.clone(),
                            kind: MismatchKind::Discriminant,
                            expected: xa.name.clone(),
                            found: xb.name.clone(),
                        };
                        out.push(m);
                        proof {
                            d_j = out@.len() - 1;
                            assert(out@[d_j] == m);
                        }
                    }
                    let vpath = child_path(path, &xa.name);
                    if xa.fields.len() != xb.fields.len() {
                        let m = make_mismatch(reg, &vpath, MismatchKind::FieldCount, la, lb);
                        out.push(m);
                    }
                    proof {
                        if la.data == lb.data {
                            assert(va@ == vb@);
                            assert(xa.fields@ == xb.fields@);
                        }
                    }
                    check_field_pairs(reg, &xa.fields, &xb.fields, ctx, &vpath, out);
                    i += 1;
                }
            },
            (TLData::PrefixType(pa), TLData::PrefixType(pb)) => {
                proof {
                    if prefix_fields_extend(*pa, *pb) {
                        assert forall|x: int|
                            0 <= x < min_(
                                pa.fields@.len() as int,
                                pb.fields@.len() as int,
                            ) implies pa.fields@[x] == pb.fields@[x] by {
                            assert(pb.fields@.take(pa.fields@.len() as int)[x] == pb.fields@[x]);
                        }
                    }
                }
                check_field_pairs(reg, &pa.fields, &pb.fields, ctx, path, out);
                let ghost mid_out = out@;
                if pa.fields.len() > pb.fields.len() {
                    // The expected side lists suffix fields the provider
                    // lacks; each one it demands is a mismatch.
                    let mut k: usize = pb.fields.len();
                    while k < pa.fields.len()
                        invariant
                            pb.fields@.len() <= k <= pa.fields@.len(),
                            ctx_ok(*ctx, *reg),
                            appended(entry_out, out@),
                            appended(mid_out, out@),
                            (la.data == lb.data) ==> out@ == entry_out,
                            (exists|kk: int|
                                pb.fields@.len() <= kk < k && #[trigger] demands_field(
                                    *pa,
                                    kk,
                                )) ==> out@.len() > mid_out.len() && 0 <= f_j < out@.len()
                                && out@[f_j].kind == MismatchKind::FieldCount,
                        decreases pa.fields@.len() - k,
                    {
                        let demanded = k < pa.first_suffix_field
                            || pa.accessible_fields.is_accessible(k);
                        if demanded {
                            let m = Mismatch {
                                path: path.clone(),
                                kind: MismatchKind::FieldCount,
                                expected: field_entry_string(
                                    reg,
                                    &pa.fields[k].name,
                                    pa.fields[k].type_id,
                                    RENDER_DEPTH,
                                ),
                                found: full_type_string(reg, &lb.full_type, RENDER_DEPTH),
                            };
                            out.push(m);
                            proof {
                                f_j = out@.len() - 1;
                                assert(out@[f_j] == m);
                            }
                        }
                        k += 1;
                    }
                }
                // Extra suffix fields on the provided side are always
                // allowed: a newer component may freely add fields the
                // older one does not know about.
            },
            _ => {
                // Unreachable: the shape kinds were equal.
            },
        }
    }
    let ghost pre_generics_out = out@;
    // Step 6: generics.
    check_generics_compat(reg, la, lb, ctx, path, out);
    proof {
        if enum_discriminant_conflict(reg.layouts@[a_id as int], reg.layouts@[b_id as int]) {
            assert(out@[d_j] == pre_generics_out[d_j]);
            assert(out@[d_j].kind == MismatchKind::Discriminant);
        }
        if demands_missing_suffix_field(reg.layouts@[a_id as int], reg.layouts@[b_id as int]) {
            assert(out@[f_j] == pre_generics_out[f_j]);
            assert(out@[f_j].kind == MismatchKind::FieldCount);
        }
        if struct_field_name_conflict(reg.layouts@[a_id as int], reg.layouts@[b_id as int]) {
            assert(layout_names_conflict_reported(
                reg.layouts@,
                out@,
                reg.layouts@[a_id as int],
                reg.layouts@[b_id as int],
                nc_j,
                nc_k,
            ));
        }
    }
}

/// Decides whether the layout a component provides may safely be treated as
/// interchangeable with the layout another component expects, for nominally
/// the same exported type.  The result aggregates every mismatch found in
/// one pass, each annotated with the dotted path from the root type (the
/// root itself is `root`), the two conflicting display identities, and a
/// mismatch kind; an empty result means the two layouts are compatible.
/// Incompatibility is never a fault: deciding whether to abort a load is
/// the caller's business.
///
/// A fresh traversal context lives exactly for this one call, so
/// self-referential descriptor graphs terminate and concurrent checks can
/// never share state.
pub fn check_layout_compatibility(
    reg: &TypeRegistry,
    expected_id: usize,
    provided_id: usize,
) -> (r: Vec<Mismatch>)
    requires
        reg.wf(),
        expected_id < reg.layouts@.len(),
        provided_id < reg.layouts@.len(),
    ensures
        expected_id == provided_id ==> r@.len() == 0,
        trivially_compatible(reg.layouts@[expected_id as int], reg.layouts@[provided_id as int])
            ==> r@.len() == 0,
        (reg.layouts@[expected_id as int].size != reg.layouts@[provided_id as int].size
            && reg.layouts@[expected_id as int].alignment
            == reg.layouts@[provided_id as int].alignment) ==> r@.len() == 1 && mismatch_is(
            reg.layouts@,
            r@[0],
            "root"@,
            MismatchKind::Size,
            reg.layouts@[expected_id as int],
            reg.layouts@[provided_id as int],
        ),
        (reg.layouts@[expected_id as int].size == reg.layouts@[provided_id as int].size
            && reg.layouts@[expected_id as int].alignment
            != reg.layouts@[provided_id as int].alignment) ==> r@.len() == 1 && mismatch_is(
            reg.layouts@,
            r@[0],
            "root"@,
            MismatchKind::Alignment,
            reg.layouts@[expected_id as int],
            reg.layouts@[provided_id as int],
        ),
        enum_discriminant_conflict(
            reg.layouts@[expected_id as int],
            reg.layouts@[provided_id as int],
        ) ==> (exists|j: int| 0 <= j < r@.len() && r@[j].kind == MismatchKind::Discriminant),
        struct_field_name_conflict(
            reg.layouts@[expected_id as int],
            reg.layouts@[provided_id as int],
        ) ==> (exists|j: int, k: int|
            #[trigger] layout_names_conflict_reported(
                reg.layouts@,
                r@,
                reg.layouts@[expected_id as int],
                reg.layouts@[provided_id as int],
                j,
                k,
            )),
        demands_missing_suffix_field(
            reg.layouts@[expected_id as int],
            reg.layouts@[provided_id as int],
        ) ==> r@.len() > 0 && (exists|j: int|
            0 <= j < r@.len() && r@[j].kind == MismatchKind::FieldCount),
{
    let mut ctx = TraversalCtx::new(reg.len());
    ctx.mark(expected_id);
    let path = String::from_str("root");
    let mut out: Vec<Mismatch> = Vec::new();
    proof {
        if expected_id == provided_id {
            lemma_trivially_compatible_refl(reg.layouts@[expected_id as int]);
        }
    }
    check_layout_rec(reg, expected_id, provided_id, &mut ctx, &path, &mut out);
    out
}

} // verus!
