//! The registry that resolves the deferred type identifiers stored in
//! descriptors.
//!
//! A field does not link to its type's layout directly; it stores a
//! `type_id` that the registry maps to a [`TypeLayout`].  A registry is
//! well formed when every identifier reachable from any of its layouts
//! resolves to a slot of the registry; the traversal, rendering, equality
//! and compatibility code all rely on that invariant.

use vstd::prelude::*;

use crate::type_layout::{
    GenericParams, TLData, TLEnumVariant, TLField, TLFunction, TLParam, TypeLayout,
};

verus! {

/// The parameter's type identifier resolves in a registry of `n` layouts.
pub open spec fn param_ok(p: TLParam, n: int) -> bool {
    p.type_id < n
}

/// Every type identifier of the signature resolves in a registry of `n`
/// layouts.
pub open spec fn function_ok(f: TLFunction, n: int) -> bool {
    &&& forall|i: int| 0 <= i < f.params@.len() ==> param_ok(#[trigger] f.params@[i], n)
    &&& match f.ret {
        Some(p) => param_ok(p, n),
        None => true,
    }
}

/// Every type identifier of the field resolves in a registry of `n` layouts.
pub open spec fn field_ok(f: TLField, n: int) -> bool {
    &&& f.type_id < n
    &&& forall|i: int| 0 <= i < f.functions@.len() ==> function_ok(#[trigger] f.functions@[i], n)
}

pub open spec fn fields_ok(fs: Seq<TLField>, n: int) -> bool {
    forall|i: int| 0 <= i < fs.len() ==> field_ok(#[trigger] fs[i], n)
}

pub open spec fn variant_ok(v: TLEnumVariant, n: int) -> bool {
    fields_ok(v.fields@, n)
}

pub open spec fn variants_ok(vs: Seq<TLEnumVariant>, n: int) -> bool {
    forall|i: int| 0 <= i < vs.len() ==> variant_ok(#[trigger] vs[i], n)
}

/// Every type-parameter identifier resolves in a registry of `n` layouts.
pub open spec fn generics_ok(g: GenericParams, n: int) -> bool {
    forall|i: int| 0 <= i < g.type_@.len() ==> #[trigger] g.type_@[i] < n
}

pub open spec fn data_ok(d: TLData, n: int) -> bool {
    match d {
        TLData::Primitive => true,
        TLData::Struct { fields } => fields_ok(fields@, n),
        TLData::Enum { variants } => variants_ok(variants@, n),
        TLData::PrefixType(p) => fields_ok(p.fields@, n),
    }
}

/// Every type identifier reachable from the layout resolves in a registry of
/// `n` layouts.
pub open spec fn layout_ok(l: TypeLayout, n: int) -> bool {
    &&& data_ok(l.data, n)
    &&& generics_ok(l.full_type.generics, n)
    &&& fields_ok(l.phantom_fields@, n)
}

pub proof fn lemma_function_ok_widen(f: TLFunction, n: int, m: int)
    requires
        function_ok(f, n),
        n <= m,
    ensures
        function_ok(f, m),
{
    assert forall|i: int| 0 <= i < f.params@.len() implies param_ok(#[trigger] f.params@[i], m) by {
        assert(param_ok(f.params@[i], n));
    }
}

pub proof fn lemma_fields_ok_widen(fs: Seq<TLField>, n: int, m: int)
    requires
        fields_ok(fs, n),
        n <= m,
    ensures
        fields_ok(fs, m),
{
    assert forall|i: int| 0 <= i < fs.len() implies field_ok(#[trigger] fs[i], m) by {
        assert(field_ok(fs[i], n));
        assert forall|j: int| 0 <= j < fs[i].functions@.len() implies function_ok(
            #[trigger] fs[i].functions@[j],
            m,
        ) by {
            lemma_function_ok_widen(fs[i].functions@[j], n, m);
        }
    }
}

pub proof fn lemma_layout_ok_widen(l: TypeLayout, n: int, m: int)
    requires
        layout_ok(l, n),
        n <= m,
    ensures
        layout_ok(l, m),
{
    match l.data {
        TLData::Primitive => {},
        TLData::Struct { fields } => {
            lemma_fields_ok_widen(fields@, n, m);
        },
        TLData::Enum { variants } => {
            assert forall|i: int| 0 <= i < variants@.len() implies variant_ok(
                #[trigger] variants@[i],
                m,
            ) by {
                assert(variant_ok(variants@[i], n));
                lemma_fields_ok_widen(variants@[i].fields@, n, m);
            }
        },
        TLData::PrefixType(p) => {
            lemma_fields_ok_widen(p.fields@, n, m);
        },
    }
    lemma_fields_ok_widen(l.phantom_fields@, n, m);
}

fn check_param(p: &TLParam, n: usize) -> (r: bool)
    ensures
        r == param_ok(*p, n as int),
{
    p.type_id < n
}

fn check_function(f: &TLFunction, n: usize) -> (r: bool)
    ensures
        r == function_ok(*f, n as int),
{
    let mut i: usize = 0;
    while i < f.params.len()
        invariant
            i <= f.params@.len(),
            forall|j: int| 0 <= j < i ==> param_ok(#[trigger] f.params@[j], n as int),
        decreases f.params@.len() - i,
    {
        if !check_param(&f.params[i], n) {
            return false;
        }
        i += 1;
    }
    match &f.ret {
        Some(p) => check_param(p, n),
        None => true,
    }
}

fn check_field(f: &TLField, n: usize) -> (r: bool)
    ensures
        r == field_ok(*f, n as int),
{
    if f.type_id >= n {
        return false;
    }
    let mut i: usize = 0;
    while i < f.functions.len()
        invariant
            i <= f.functions@.len(),
            f.type_id < n,
            forall|j: int| 0 <= j < i ==> function_ok(#[trigger] f.functions@[j], n as int),
        decreases f.functions@.len() - i,
    {
        if !check_function(&f.functions[i], n) {
            return false;
        }
        i += 1;
    }
    true
}

fn check_fields(fs: &Vec<TLField>, n: usize) -> (r: bool)
    ensures
        r == fields_ok(fs@, n as int),
{
    let mut i: usize = 0;
    while i < fs.len()
        invariant
            i <= fs@.len(),
            forall|j: int| 0 <= j < i ==> field_ok(#[trigger] fs@[j], n as int),
        decreases fs@.len() - i,
    {
        if !check_field(&fs[i], n) {
            return false;
        }
        i += 1;
    }
    true
}

#[verifier::loop_isolation(false)]
fn check_data(d: &TLData, n: usize) -> (r: bool)
    ensures
        r == data_ok(*d, n as int),
{
    match d {
        TLData::Primitive => true,
        TLData::Struct { fields } => check_fields(fields, n),
        TLData::Enum { variants } => {
            let mut i: usize = 0;
            while i < variants.len()
                invariant
                    i <= variants@.len(),
                    forall|j: int| 0 <= j < i ==> variant_ok(#[trigger] variants@[j], n as int),
                decreases variants@.len() - i,
            {
                if !check_fields(&variants[i].fields, n) {
                    proof {
                        assert(!variant_ok(variants@[i as int], n as int));
                    }
                    return false;
                }
                i += 1;
            }
            true
        },
        TLData::PrefixType(p) => check_fields(&p.fields, n),
    }
}

fn check_generics(g: &GenericParams, n: usize) -> (r: bool)
    ensures
        r == generics_ok(*g, n as int),
{
    let mut i: usize = 0;
    while i < g.type_.len()
        invariant
            i <= g.type_@.len(),
            forall|j: int| 0 <= j < i ==> #[trigger] g.type_@[j] < n as int,
        decreases g.type_@.len() - i,
    {
        if g.type_[i] >= n {
            return false;
        }
        i += 1;
    }
    true
}

fn check_layout(l: &TypeLayout, n: usize) -> (r: bool)
    ensures
        r == layout_ok(*l, n as int),
{
    check_data(&l.data, n) && check_generics(&l.full_type.generics, n) && check_fields(
        &l.phantom_fields,
        n,
    )
}

/// A table of layout descriptors.  Slot `i` is the layout that the deferred
/// identifier `i` resolves to.
pub struct TypeRegistry {
    pub layouts: Vec<TypeLayout>,
}

impl TypeRegistry {
    /// Every identifier reachable from any registered layout resolves to a
    /// slot of this registry.
    pub open spec fn wf(&self) -> bool {
        forall|i: int|
            0 <= i < self.layouts@.len() ==> layout_ok(
                #[trigger] self.layouts@[i],
                self.layouts@.len() as int,
            )
    }

    pub fn new() -> (r: Self)
        ensures
            r.layouts@.len() == 0,
            r.wf(),
    {
        TypeRegistry { layouts: Vec::new() }
    }

    pub fn len(&self) -> (r: usize)
        ensures
            r == self.layouts@.len(),
    {
        self.layouts.len()
    }

    pub fn get(&self, id: usize) -> (r: &TypeLayout)
        requires
            id < self.layouts@.len(),
        ensures
            *r == self.layouts@[id as int],
    {
        &self.layouts[id]
    }

    /// Registers one more layout and returns its identifier.  The layout may
    /// reference any already registered identifier and the one being
    /// assigned to it, so a self-referential type can be registered in one
    /// step; `None` is returned, and nothing changes, when some identifier
    /// would not resolve.
    pub fn register(&mut self, layout: TypeLayout) -> (r: Option<usize>)
        ensures
            match r {
                Some(id) => {
                    &&& final(self).layouts@ == old(self).layouts@.push(layout)
                    &&& id == old(self).layouts@.len()
                    &&& layout_ok(layout, old(self).layouts@.len() as int + 1)
                    &&& old(self).wf() ==> final(self).wf()
                },
                None => {
                    &&& *final(self) == *old(self)
                    &&& !(old(self).layouts@.len() < usize::MAX && layout_ok(
                        layout,
                        old(self).layouts@.len() as int + 1,
                    ))
                },
            },
    {
        let n = self.layouts.len();
        if n == usize::MAX {
            return None;
        }
        if !check_layout(&layout, n + 1) {
            return None;
        }
        proof {
            if self.wf() {
                assert forall|i: int| 0 <= i < self.layouts@.len() + 1 implies layout_ok(
                    #[trigger] self.layouts@.push(layout)[i],
                    self.layouts@.len() as int + 1,
                ) by {
                    if i < self.layouts@.len() {
                        assert(self.layouts@.push(layout)[i] == self.layouts@[i]);
                        lemma_layout_ok_widen(
                            self.layouts@[i],
                            self.layouts@.len() as int,
                            self.layouts@.len() as int + 1,
                        );
                    } else {
                        assert(self.layouts@.push(layout)[i] == layout);
                    }
                }
            }
        }
        self.layouts.push(layout);
        Some(n)
    }

    /// Builds a registry from a complete table of layouts, so that mutually
    /// recursive layouts can reference each other by their final indices.
    /// `None` is returned when some identifier would not resolve.
    pub fn from_layouts(layouts: Vec<TypeLayout>) -> (r: Option<Self>)
        ensures
            match r {
                Some(reg) => {
                    &&& reg.layouts == layouts
                    &&& reg.wf()
                },
                None => !(forall|i: int|
                    0 <= i < layouts@.len() ==> layout_ok(
                        #[trigger] layouts@[i],
                        layouts@.len() as int,
                    )),
            },
    {
        let n = layouts.len();
        let mut i: usize = 0;
        while i < n
            invariant
                n == layouts@.len(),
                i <= n,
                forall|j: int| 0 <= j < i ==> layout_ok(#[trigger] layouts@[j], n as int),
            decreases n - i,
        {
            if !check_layout(&layouts[i], n) {
                return None;
            }
            i += 1;
        }
        Some(TypeRegistry { layouts })
    }
}

} // verus!
