//! Cycle-safe traversal bookkeeping.
//!
//! Descriptor graphs may be self-referential, so every graph walk carries a
//! [`TraversalCtx`]: the set of registry identifiers already entered during
//! the current top-level call, plus a counter of how many were entered.  An
//! edge whose target is already in the set is treated shallowly — the walk
//! looks at the field's own attributes but does not enter the target again —
//! which breaks every cycle.  A context is created afresh inside each
//! top-level call and dropped when it returns, on every exit path, so no
//! state survives between independent calls and concurrent walks cannot
//! share one.
//!
//! Termination of the walks is measured by [`count_unvisited`]: entering a
//! node marks one more identifier, and the registry is finite.  The
//! comparison engines' recursion depth lives in their call stacks and is
//! bounded by the same measure; diagnostic rendering bounds its expansion
//! separately, by the explicit depth counter it threads through
//! [`crate::render`], independent of cycle detection.

use vstd::prelude::*;

use crate::registry::TypeRegistry;
use crate::type_layout::{
    accessor_matches, full_type_matches, function_matches, functions_match, generics_match,
    param_matches, FieldAccessor, FullType, GenericParams, LifetimeIndex, TLField, TLFunction,
    TLParam,
};

verus! {

/// How many entries of `s` are still `false`: the termination measure of
/// every traversal.
pub open spec fn count_unvisited(s: Seq<bool>) -> nat
    decreases s.len(),
{
    if s.len() == 0 {
        0
    } else {
        count_unvisited(s.drop_last()) + (if s.last() {
            0nat
        } else {
            1nat
        })
    }
}

pub proof fn lemma_count_unvisited_le_len(s: Seq<bool>)
    ensures
        count_unvisited(s) <= s.len(),
    decreases s.len(),
{
    if s.len() > 0 {
        lemma_count_unvisited_le_len(s.drop_last());
    }
}

pub proof fn lemma_count_unvisited_all_false(s: Seq<bool>)
    requires
        forall|i: int| 0 <= i < s.len() ==> !s[i],
    ensures
        count_unvisited(s) == s.len(),
    decreases s.len(),
{
    if s.len() > 0 {
        lemma_count_unvisited_all_false(s.drop_last());
    }
}

/// Marking one unvisited entry shrinks the measure by exactly one.
pub proof fn lemma_count_unvisited_update_true(s: Seq<bool>, i: int)
    requires
        0 <= i < s.len(),
        !s[i],
    ensures
        count_unvisited(s.update(i, true)) == count_unvisited(s) - 1,
    decreases s.len(),
{
    let t = s.update(i, true);
    if i == s.len() - 1 {
        assert(t.drop_last() =~= s.drop_last());
    } else {
        assert(t.drop_last() =~= s.drop_last().update(i, true));
        lemma_count_unvisited_update_true(s.drop_last(), i);
        assert(t.last() == s.last());
    }
}

/// The context's set covers the registry and its bookkeeping is consistent.
pub open spec fn ctx_ok(ctx: TraversalCtx, reg: TypeRegistry) -> bool {
    ctx.visited@.len() == reg.layouts@.len() && ctx.inv()
}

/// What every traversal step guarantees of the context: same size, no
/// visited node forgotten, and a measure that never grows.
pub open spec fn ctx_evolves(c0: TraversalCtx, c1: TraversalCtx) -> bool {
    &&& c1.visited@.len() == c0.visited@.len()
    &&& forall|i: int|
        #![trigger c0.visited@[i]]
        #![trigger c1.visited@[i]]
        0 <= i < c0.visited@.len() && c0.visited@[i] ==> c1.visited@[i]
    &&& count_unvisited(c1.visited@) <= count_unvisited(c0.visited@)
}

/// The state of one traversal: which registry identifiers have been entered
/// so far, and how many.  One context serves exactly one top-level
/// comparison; it is never shared.
pub struct TraversalCtx {
    /// `visited[i]` holds when identifier `i` was already entered.
    pub visited: Vec<bool>,
    /// How many identifiers were entered; always the number of set entries.
    pub visited_nodes: usize,
}

impl TraversalCtx {
    /// The node counter agrees with the visited set.
    pub open spec fn inv(&self) -> bool {
        self.visited_nodes + count_unvisited(self.visited@) == self.visited@.len()
    }

    /// A fresh context for a registry of `n` layouts, with nothing visited.
    pub fn new(n: usize) -> (r: Self)
        ensures
            r.visited@.len() == n,
            forall|i: int| 0 <= i < n ==> !r.visited@[i],
            r.visited_nodes == 0,
            r.inv(),
    {
        let mut visited: Vec<bool> = Vec::new();
        let mut i: usize = 0;
        while i < n
            invariant
                i <= n,
                visited@.len() == i,
                forall|j: int| 0 <= j < i ==> !visited@[j],
            decreases n - i,
        {
            visited.push(false);
            i += 1;
        }
        proof {
            lemma_count_unvisited_all_false(visited@);
        }
        TraversalCtx { visited, visited_nodes: 0 }
    }

    pub fn is_visited(&self, i: usize) -> (r: bool)
        requires
            i < self.visited@.len(),
        ensures
            r == self.visited@[i as int],
    {
        self.visited[i]
    }

    /// Enters the identifier `i`: marks it visited, for the rest of the
    /// traversal.
    pub fn mark(&mut self, i: usize)
        requires
            i < old(self).visited@.len(),
            !old(self).visited@[i as int],
            old(self).inv(),
        ensures
            final(self).visited@ == old(self).visited@.update(i as int, true),
            final(self).visited_nodes == old(self).visited_nodes + 1,
            final(self).inv(),
            count_unvisited(final(self).visited@) == count_unvisited(old(self).visited@) - 1,
    {
        proof {
            lemma_count_unvisited_update_true(self.visited@, i as int);
            lemma_count_unvisited_le_len(self.visited@);
        }
        // Reading the length teaches the prover that the set's size fits
        // in usize, which bounds the counter below.
        let _n = self.visited.len();
        self.visited.set(i, true);
        self.visited_nodes = self.visited_nodes + 1;
    }
}

fn clone_strings(v: &Vec<String>) -> (r: Vec<String>)
    ensures
        r@ == v@,
{
    let r = v.clone();
    proof {
        assert forall|i: int| 0 <= i < v@.len() implies r@[i] == v@[i] by {
            assert(cloned::<String>(v@[i], r@[i]));
        }
        assert(r@ =~= v@);
    }
    r
}

fn clone_lifetimes(v: &Vec<LifetimeIndex>) -> (r: Vec<LifetimeIndex>)
    ensures
        r@ == v@,
{
    let r = v.clone();
    proof {
        assert forall|i: int| 0 <= i < v@.len() implies r@[i] == v@[i] by {
            assert(cloned::<LifetimeIndex>(v@[i], r@[i]));
        }
        assert(r@ =~= v@);
    }
    r
}

fn clone_ids(v: &Vec<usize>) -> (r: Vec<usize>)
    ensures
        r@ == v@,
{
    let r = v.clone();
    proof {
        assert forall|i: int| 0 <= i < v@.len() implies r@[i] == v@[i] by {
            assert(cloned::<usize>(v@[i], r@[i]));
        }
        assert(r@ =~= v@);
    }
    r
}

/// A structurally identical copy of the generic parameter set.
pub fn clone_generics(g: &GenericParams) -> (r: GenericParams)
    ensures
        generics_match(r, *g),
{
    let r = GenericParams {
        lifetime: clone_strings(&g.lifetime),
        type_: clone_ids(&g.type_),
        const_: clone_strings(&g.const_),
    };
    r
}

/// A structurally identical copy of a display identity.
pub fn clone_full_type(ft: &FullType) -> (r: FullType)
    ensures
        full_type_matches(r, *ft),
{
    FullType {
        name: ft.name.clone(),
        primitive: ft.primitive,
        generics: clone_generics(&ft.generics),
    }
}

fn clone_param(p: &TLParam) -> (r: TLParam)
    ensures
        param_matches(r, *p),
{
    TLParam {
        name: p.name.clone(),
        lifetime_indices: clone_lifetimes(&p.lifetime_indices),
        type_id: p.type_id,
    }
}

fn clone_function(f: &TLFunction) -> (r: TLFunction)
    ensures
        function_matches(r, *f),
{
    let ret = match &f.ret {
        Some(p) => Some(clone_param(p)),
        None => None,
    };
    let mut params: Vec<TLParam> = Vec::new();
    let mut i: usize = 0;
    while i < f.params.len()
        invariant
            i <= f.params@.len(),
            params@.len() == i,
            forall|j: int| 0 <= j < i ==> param_matches(params@[j], f.params@[j]),
        decreases f.params@.len() - i,
    {
        params.push(clone_param(&f.params[i]));
        i += 1;
    }
    TLFunction {
        name: f.name.clone(),
        bound_lifetimes: clone_strings(&f.bound_lifetimes),
        params,
        ret,
    }
}

fn clone_functions(v: &Vec<TLFunction>) -> (r: Vec<TLFunction>)
    ensures
        functions_match(r@, v@),
{
    let mut r: Vec<TLFunction> = Vec::new();
    let mut i: usize = 0;
    while i < v.len()
        invariant
            i <= v@.len(),
            r@.len() == i,
            forall|j: int| 0 <= j < i ==> function_matches(r@[j], v@[j]),
        decreases v@.len() - i,
    {
        r.push(clone_function(&v[i]));
        i += 1;
    }
    r
}

fn clone_accessor(a: &FieldAccessor) -> (r: FieldAccessor)
    ensures
        accessor_matches(r, *a),
{
    match a {
        FieldAccessor::Direct => FieldAccessor::Direct,
        FieldAccessor::Method { name } => FieldAccessor::Method {
            name: match name {
                Some(s) => Some(s.clone()),
                None => None,
            },
        },
        FieldAccessor::MethodOption => FieldAccessor::MethodOption,
        FieldAccessor::Opaque => FieldAccessor::Opaque,
    }
}

/// A field with its target resolved one level deep: the target's display
/// identity is copied in, and the deferred identifier is kept only when the
/// target was not already visited in the current traversal.  This is the
/// record a walk looks at when a cycle forces it to stop recursing.
pub struct TLFieldShallow {
    pub name: String,
    /// The display identity of the field's type.
    pub full_type: FullType,
    pub lifetime_indices: Vec<LifetimeIndex>,
    /// The deferred identifier of the field's type, or `None` when the
    /// target was already visited and must not be entered again.
    pub type_id: Option<usize>,
    pub functions: Vec<TLFunction>,
    pub is_function: bool,
    pub field_accessor: FieldAccessor,
}

impl TLFieldShallow {
    pub fn new(reg: &TypeRegistry, field: &TLField, include_target: bool) -> (r: Self)
        requires
            field.type_id < reg.layouts@.len(),
        ensures
            r.name == field.name,
            full_type_matches(r.full_type, reg.layouts@[field.type_id as int].full_type),
            r.lifetime_indices@ == field.lifetime_indices@,
            r.type_id == (if include_target {
                Some(field.type_id)
            } else {
                None::<usize>
            }),
            functions_match(r.functions@, field.functions@),
            r.is_function == field.is_function,
            accessor_matches(r.field_accessor, field.field_accessor),
    {
        TLFieldShallow {
            name: field.name.clone(),
            full_type: clone_full_type(&reg.get(field.type_id).full_type),
            lifetime_indices: clone_lifetimes(&field.lifetime_indices),
            type_id: if include_target {
                Some(field.type_id)
            } else {
                None
            },
            functions: clone_functions(&field.functions),
            is_function: field.is_function,
            field_accessor: clone_accessor(&field.field_accessor),
        }
    }
}

} // verus!
