//! Bounded diagnostic rendering of descriptors.
//!
//! Mismatch reports and diagnostics print a type as its display identity:
//! an optional primitive marker, the type name, and the generic arguments in
//! angle brackets.  Expansion of nested type arguments stops at a fixed
//! depth independent of cycle detection, so the output is bounded even for
//! deep or self-referential graphs; a stopped expansion prints
//! `<printing recursion limit>`.  Every renderer's result is pinned, down to
//! the character, by a specification function it provably mirrors.

use vstd::prelude::*;

use crate::registry::TypeRegistry;
use crate::type_layout::{
    FullType, GenericParams, RustPrimitive, TLField, TLFieldAndType, TLFunction, TLParam,
    TypeLayout,
};
use vstd::string::StringExecFns;

verus! {

/// How many levels of nested type arguments diagnostics expand.
pub const RENDER_DEPTH: u32 = 2;

/// The marker printed before the name of a primitive type.
pub open spec fn primitive_prefix_text(p: Option<RustPrimitive>) -> Seq<char> {
    match p {
        Some(RustPrimitive::Reference) => "&"@,
        Some(RustPrimitive::MutReference) => "&mut "@,
        Some(RustPrimitive::ConstPtr) => "*const "@,
        Some(RustPrimitive::MutPtr) => "*mut "@,
        Some(RustPrimitive::Array) => "["@,
        None => Seq::<char>::empty(),
    }
}

/// The marker printed after a primitive type; only arrays have one.
pub open spec fn primitive_suffix_text(p: Option<RustPrimitive>) -> Seq<char> {
    match p {
        Some(RustPrimitive::Array) => "]"@,
        _ => Seq::<char>::empty(),
    }
}

/// The items joined with separators between them.
pub open spec fn join_texts(items: Seq<Seq<char>>, sep: Seq<char>) -> Seq<char>
    decreases items.len(),
{
    if items.len() == 0 {
        Seq::<char>::empty()
    } else if items.len() == 1 {
        items[0]
    } else {
        join_texts(items.drop_last(), sep) + sep + items.last()
    }
}

/// Appending one more item extends the joined text by a separator (except
/// for the first item) and the item.
pub proof fn lemma_join_texts_take_step(items: Seq<Seq<char>>, sep: Seq<char>, k: int)
    requires
        0 <= k < items.len(),
    ensures
        join_texts(items.take(k + 1), sep) == if k == 0 {
            items[0]
        } else {
            join_texts(items.take(k), sep) + sep + items[k]
        },
{
    assert(items.take(k + 1).drop_last() =~= items.take(k));
    assert(items.take(k + 1).last() == items[k]);
    if k == 0 {
        assert(items.take(1)[0] == items[0]);
    }
}

/// The texts of a string list, item by item.
pub open spec fn string_texts(v: Seq<String>) -> Seq<Seq<char>> {
    Seq::new(v.len(), |i: int| v[i]@)
}

/// The rendering of the type a deferred identifier stands for, one level
/// deeper than the caller.
pub open spec fn type_ref_text(reg: Seq<TypeLayout>, id: int, depth: nat) -> Seq<char>
    decreases depth, 0nat, 0nat,
{
    if 0 <= id < reg.len() {
        if depth > 0 {
            full_type_text(reg, reg[id].full_type, (depth - 1) as nat)
        } else {
            "<printing recursion limit>"@
        }
    } else {
        "<unresolved>"@
    }
}

/// The renderings of a type-parameter list.
pub open spec fn type_param_texts(reg: Seq<TypeLayout>, ids: Seq<usize>, depth: nat) -> Seq<
    Seq<char>,
>
    decreases depth, 1nat, ids.len(),
{
    if ids.len() == 0 {
        Seq::<Seq<char>>::empty()
    } else {
        type_param_texts(reg, ids.drop_last(), depth).push(
            type_ref_text(reg, ids.last() as int, depth),
        )
    }
}

pub proof fn lemma_type_param_texts_len(reg: Seq<TypeLayout>, ids: Seq<usize>, depth: nat)
    ensures
        type_param_texts(reg, ids, depth).len() == ids.len(),
    decreases ids.len(),
{
    if ids.len() > 0 {
        lemma_type_param_texts_len(reg, ids.drop_last(), depth);
    }
}

pub proof fn lemma_type_param_texts_index(reg: Seq<TypeLayout>, ids: Seq<usize>, depth: nat, i: int)
    requires
        0 <= i < ids.len(),
    ensures
        type_param_texts(reg, ids, depth).len() == ids.len(),
        type_param_texts(reg, ids, depth)[i] == type_ref_text(reg, ids[i] as int, depth),
    decreases ids.len(),
{
    lemma_type_param_texts_len(reg, ids, depth);
    if i < ids.len() - 1 {
        lemma_type_param_texts_index(reg, ids.drop_last(), depth, i);
        assert(ids.drop_last()[i] == ids[i]);
    }
}

/// All generic arguments of a type, in declaration order: lifetimes, type
/// parameters, const parameters.
pub open spec fn generics_item_texts(reg: Seq<TypeLayout>, g: GenericParams, depth: nat) -> Seq<
    Seq<char>,
>
    decreases depth, 2nat, 0nat,
{
    string_texts(g.lifetime@) + type_param_texts(reg, g.type_@, depth) + string_texts(g.const_@)
}

/// The display identity of a type: primitive marker, name, and generic
/// arguments in angle brackets when there are any.
pub open spec fn full_type_text(reg: Seq<TypeLayout>, ft: FullType, depth: nat) -> Seq<char>
    decreases depth, 3nat, 0nat,
{
    primitive_prefix_text(ft.primitive) + ft.name@ + (if ft.generics.is_empty_spec() {
        Seq::<char>::empty()
    } else {
        "<"@ + join_texts(generics_item_texts(reg, ft.generics, depth), ", "@) + ">"@
    }) + primitive_suffix_text(ft.primitive)
}

/// The rendering of the generic parameter set on its own, always bracketed.
pub open spec fn generic_params_text(reg: Seq<TypeLayout>, g: GenericParams, depth: nat) -> Seq<
    char,
> {
    "<"@ + join_texts(generics_item_texts(reg, g, depth), ", "@) + ">"@
}

/// The rendering of one field as `name:type`.
pub open spec fn field_entry_text(
    reg: Seq<TypeLayout>,
    name: Seq<char>,
    type_id: int,
    depth: nat,
) -> Seq<char> {
    name + ":"@ + type_ref_text(reg, type_id, depth)
}

/// The renderings of a function's parameters, each as `name:type`.
pub open spec fn param_entry_texts(reg: Seq<TypeLayout>, params: Seq<TLParam>, depth: nat) -> Seq<
    Seq<char>,
> {
    Seq::new(
        params.len(),
        |i: int| field_entry_text(reg, params[i].name@, params[i].type_id as int, depth),
    )
}

/// The rendering of an embedded function signature.
pub open spec fn function_text(reg: Seq<TypeLayout>, f: TLFunction, depth: nat) -> Seq<char> {
    "fn("@ + join_texts(param_entry_texts(reg, f.params@, depth), ", "@) + ")"@ + (match f.ret {
        Some(p) => "->"@ + field_entry_text(reg, p.name@, p.type_id as int, depth),
        None => Seq::<char>::empty(),
    })
}

/// Renders the type a deferred identifier stands for.
#[verifier::loop_isolation(false)]
pub fn type_ref_string(reg: &TypeRegistry, id: usize, depth: u32) -> (r: String)
    ensures
        r@ == type_ref_text(reg.layouts@, id as int, depth as nat),
    decreases depth, 1int,
{
    if id < reg.len() {
        if depth > 0 {
            full_type_string(reg, &reg.get(id).full_type, depth - 1)
        } else {
            String::from_str("<printing recursion limit>")
        }
    } else {
        String::from_str("<unresolved>")
    }
}

/// Renders the generic arguments joined with `", "`, without brackets.
#[verifier::loop_isolation(false)]
fn generics_items_string(reg: &TypeRegistry, g: &GenericParams, depth: u32) -> (r: String)
    ensures
        r@ == join_texts(generics_item_texts(reg.layouts@, *g, depth as nat), ", "@),
    decreases depth, 2int,
{
    let ghost items = generics_item_texts(reg.layouts@, *g, depth as nat);
    let ghost sep = ", "@;
    proof {
        lemma_type_param_texts_len(reg.layouts@, g.type_@, depth as nat);
    }
    let mut out = String::new();
    let mut first: bool = true;
    let ghost mut emitted: int = 0;
    let mut i: usize = 0;
    while i < g.lifetime.len()
        invariant
            i <= g.lifetime@.len(),
            emitted == i,
            first == (emitted == 0),
            out@ == join_texts(items.take(emitted), sep),
        decreases g.lifetime@.len() - i,
    {
        if first {
            first = false;
        } else {
            out.append(", ");
        }
        out.append(g.lifetime[i].as_str());
        proof {
            assert(items[emitted] == g.lifetime@[emitted]@);
            lemma_join_texts_take_step(items, sep, emitted);
            emitted = emitted + 1;
        }
        i += 1;
    }
    let mut j: usize = 0;
    while j < g.type_.len()
        invariant
            j <= g.type_@.len(),
            emitted == g.lifetime@.len() + j,
            first == (emitted == 0),
            out@ == join_texts(items.take(emitted), sep),
        decreases g.type_@.len() - j,
    {
        if first {
            first = false;
        } else {
            out.append(", ");
        }
        let t = type_ref_string(reg, g.type_[j], depth);
        out.append(t.as_str());
        proof {
            lemma_type_param_texts_index(reg.layouts@, g.type_@, depth as nat, j as int);
            assert(items[emitted] == type_ref_text(
                reg.layouts@,
                g.type_@[j as int] as int,
                depth as nat,
            ));
            lemma_join_texts_take_step(items, sep, emitted);
            emitted = emitted + 1;
        }
        j += 1;
    }
    let mut k: usize = 0;
    while k < g.const_.len()
        invariant
            k <= g.const_@.len(),
            emitted == g.lifetime@.len() + g.type_@.len() + k,
            first == (emitted == 0),
            out@ == join_texts(items.take(emitted), sep),
        decreases g.const_@.len() - k,
    {
        if first {
            first = false;
        } else {
            out.append(", ");
        }
        out.append(g.const_[k].as_str());
        proof {
            assert(items[emitted] == g.const_@[k as int]@);
            lemma_join_texts_take_step(items, sep, emitted);
            emitted = emitted + 1;
        }
        k += 1;
    }
    proof {
        assert(items.take(emitted) =~= items);
    }
    out
}

/// Renders the display identity of a type.
#[verifier::loop_isolation(false)]
pub fn full_type_string(reg: &TypeRegistry, ft: &FullType, depth: u32) -> (r: String)
    ensures
        r@ == full_type_text(reg.layouts@, *ft, depth as nat),
    decreases depth, 3int,
{
    let mut out = String::new();
    match ft.primitive {
        Some(RustPrimitive::Reference) => out.append("&"),
        Some(RustPrimitive::MutReference) => out.append("&mut "),
        Some(RustPrimitive::ConstPtr) => out.append("*const "),
        Some(RustPrimitive::MutPtr) => out.append("*mut "),
        Some(RustPrimitive::Array) => out.append("["),
        None => {},
    }
    out.append(ft.name.as_str());
    if !ft.generics.is_empty() {
        out.append("<");
        let items = generics_items_string(reg, &ft.generics, depth);
        out.append(items.as_str());
        out.append(">");
    }
    match ft.primitive {
        Some(RustPrimitive::Array) => out.append("]"),
        _ => {},
    }
    proof {
        assert(out@ =~= full_type_text(reg.layouts@, *ft, depth as nat));
    }
    out
}

/// Renders the generic parameter set on its own, always bracketed.
pub fn generic_params_string(reg: &TypeRegistry, g: &GenericParams, depth: u32) -> (r: String)
    ensures
        r@ == generic_params_text(reg.layouts@, *g, depth as nat),
{
    let mut out = String::from_str("<");
    let items = generics_items_string(reg, g, depth);
    out.append(items.as_str());
    out.append(">");
    proof {
        assert(out@ =~= generic_params_text(reg.layouts@, *g, depth as nat));
    }
    out
}

/// Renders one field as `name:type`.
pub fn field_entry_string(reg: &TypeRegistry, name: &String, type_id: usize, depth: u32) -> (r:
    String)
    ensures
        r@ == field_entry_text(reg.layouts@, name@, type_id as int, depth as nat),
{
    let mut out = name.clone();
    out.append(":");
    let t = type_ref_string(reg, type_id, depth);
    out.append(t.as_str());
    proof {
        assert(out@ =~= field_entry_text(reg.layouts@, name@, type_id as int, depth as nat));
    }
    out
}

/// Renders an embedded function signature as `fn(params)->ret`.
#[verifier::loop_isolation(false)]
pub fn function_string(reg: &TypeRegistry, f: &TLFunction, depth: u32) -> (r: String)
    ensures
        r@ == function_text(reg.layouts@, *f, depth as nat),
{
    let ghost items = param_entry_texts(reg.layouts@, f.params@, depth as nat);
    let ghost sep = ", "@;
    let mut out = String::from_str("fn(");
    let ghost opening = out@;
    let mut first: bool = true;
    let ghost mut emitted: int = 0;
    let mut i: usize = 0;
    while i < f.params.len()
        invariant
            i <= f.params@.len(),
            emitted == i,
            first == (emitted == 0),
            out@ == opening + join_texts(items.take(emitted), sep),
        decreases f.params@.len() - i,
    {
        if first {
            first = false;
        } else {
            out.append(", ");
        }
        let t = field_entry_string(reg, &f.params[i].name, f.params[i].type_id, depth);
        out.append(t.as_str());
        proof {
            lemma_join_texts_take_step(items, sep, emitted);
            emitted = emitted + 1;
            assert(out@ =~= opening + join_texts(items.take(emitted), sep));
        }
        i += 1;
    }
    out.append(")");
    match &f.ret {
        Some(p) => {
            out.append("->");
            let t = field_entry_string(reg, &p.name, p.type_id, depth);
            out.append(t.as_str());
        },
        None => {},
    }
    proof {
        assert(items.take(emitted) =~= items);
        assert(out@ =~= function_text(reg.layouts@, *f, depth as nat));
    }
    out
}

impl TLFieldAndType {
    /// Renders the field as `name:type`, expanding nested type arguments to
    /// the fixed diagnostic depth.
    pub fn display_string(&self, reg: &TypeRegistry) -> (r: String)
        ensures
            r@ == field_entry_text(
                reg.layouts@,
                self.inner.name@,
                self.inner.type_id as int,
                RENDER_DEPTH as nat,
            ),
    {
        field_entry_string(reg, &self.inner.name, self.inner.type_id, RENDER_DEPTH)
    }
}

impl TLField {
    /// Renders the field as `name:type`, expanding nested type arguments to
    /// the fixed diagnostic depth.
    pub fn display_string(&self, reg: &TypeRegistry) -> (r: String)
        ensures
            r@ == field_entry_text(
                reg.layouts@,
                self.name@,
                self.type_id as int,
                RENDER_DEPTH as nat,
            ),
    {
        field_entry_string(reg, &self.name, self.type_id, RENDER_DEPTH)
    }
}

} // verus!
