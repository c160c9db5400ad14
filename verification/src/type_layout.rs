//! The layout-descriptor data model: the types that describe how a datatype
//! is laid out in memory, together with their constructors and builders.
//!
//! Descriptors are immutable once built.  A descriptor never links to the
//! layouts of its fields directly: it stores identifiers that a
//! [`crate::registry::TypeRegistry`] resolves, which is what allows
//! self-referential and mutually recursive type graphs to be described
//! without construction-order cycles.

use vstd::prelude::*;

use crate::registry::TypeRegistry;
use vstd::string::StringExecFns;

verus! {

/// Which lifetime of the surrounding type a field references.
/// Lifetimes may be renamed freely, so only the position is recorded.
#[derive(Clone, Copy, Debug, PartialEq, Eq, Structural)]
pub enum LifetimeIndex {
    Static,
    Param(usize),
}

/// Which primitive type a layout stands for; used mostly when printing.
#[derive(Clone, Copy, Debug, PartialEq, Eq, Structural)]
pub enum RustPrimitive {
    Reference,
    MutReference,
    ConstPtr,
    MutPtr,
    Array,
}

/// A discriminant-only summary of [`TLData`].
#[derive(Clone, Copy, Debug, PartialEq, Eq, Structural)]
pub enum TLDataDiscriminant {
    Primitive,
    Struct,
    Enum,
    PrefixType,
}

/// How the discriminant of an enum is represented in memory.
#[derive(Clone, Copy, Debug, PartialEq, Eq, Structural)]
pub enum DiscriminantRepr {
    U8,
    I8,
    U16,
    I16,
    U32,
    I32,
    U64,
    I64,
    U128,
    I128,
    Usize,
    Isize,
}

/// The storage width of a stored discriminant value, up to 64 bits.
#[derive(Clone, Copy, Debug, PartialEq, Eq, Structural)]
pub enum DiscriminantWidth {
    W8,
    W16,
    W32,
    W64,
}

/// The representation attribute a type was declared with.
#[derive(Clone, Copy, Debug, PartialEq, Eq, Structural)]
pub enum ReprAttr {
    C(Option<DiscriminantRepr>),
    Transparent,
    Int(DiscriminantRepr),
}

/// How much of a module is visible to reflection.
#[derive(Clone, Copy, Debug, PartialEq, Eq, Structural)]
pub enum ModReflMode {
    Module,
    Opaque,
}

/// The discriminant of one enum variant: absent, or a signed or unsigned
/// value of an explicit storage width.  Two discriminants with the same
/// numeric value but different widths are distinct, since the width changes
/// the in-memory representation.
#[derive(Clone, Copy, Debug, PartialEq, Eq, Structural)]
pub enum TLDiscriminant {
    No,
    Signed { width: DiscriminantWidth, value: i64 },
    Unsigned { width: DiscriminantWidth, value: u64 },
}

impl TLDiscriminant {
    pub fn from_u8(n: u8) -> (r: Self)
        ensures
            r == (TLDiscriminant::Unsigned { width: DiscriminantWidth::W8, value: n as u64 }),
    {
        TLDiscriminant::Unsigned { width: DiscriminantWidth::W8, value: n as u64 }
    }

    pub fn from_u16(n: u16) -> (r: Self)
        ensures
            r == (TLDiscriminant::Unsigned { width: DiscriminantWidth::W16, value: n as u64 }),
    {
        TLDiscriminant::Unsigned { width: DiscriminantWidth::W16, value: n as u64 }
    }

    pub fn from_u32(n: u32) -> (r: Self)
        ensures
            r == (TLDiscriminant::Unsigned { width: DiscriminantWidth::W32, value: n as u64 }),
    {
        TLDiscriminant::Unsigned { width: DiscriminantWidth::W32, value: n as u64 }
    }

    pub fn from_u64(n: u64) -> (r: Self)
        ensures
            r == (TLDiscriminant::Unsigned { width: DiscriminantWidth::W64, value: n }),
    {
        TLDiscriminant::Unsigned { width: DiscriminantWidth::W64, value: n }
    }

    pub fn from_i8(n: i8) -> (r: Self)
        ensures
            r == (TLDiscriminant::Signed { width: DiscriminantWidth::W8, value: n as i64 }),
    {
        TLDiscriminant::Signed { width: DiscriminantWidth::W8, value: n as i64 }
    }

    pub fn from_i16(n: i16) -> (r: Self)
        ensures
            r == (TLDiscriminant::Signed { width: DiscriminantWidth::W16, value: n as i64 }),
    {
        TLDiscriminant::Signed { width: DiscriminantWidth::W16, value: n as i64 }
    }

    pub fn from_i32(n: i32) -> (r: Self)
        ensures
            r == (TLDiscriminant::Signed { width: DiscriminantWidth::W32, value: n as i64 }),
    {
        TLDiscriminant::Signed { width: DiscriminantWidth::W32, value: n as i64 }
    }

    pub fn from_i64(n: i64) -> (r: Self)
        ensures
            r == (TLDiscriminant::Signed { width: DiscriminantWidth::W64, value: n }),
    {
        TLDiscriminant::Signed { width: DiscriminantWidth::W64, value: n }
    }
}

/// An opaque extensible metadata tag attached to a layout.
#[derive(Clone, Copy, Debug, PartialEq, Eq, Structural)]
pub struct Tag {
    pub value: u64,
}

impl Tag {
    /// The tag of a layout that carries no metadata.
    pub fn null() -> (r: Self)
        ensures
            r.value == 0,
    {
        Tag { value: 0 }
    }

    pub fn new(value: u64) -> (r: Self)
        ensures
            r.value == value,
    {
        Tag { value }
    }
}

/// Whether a prefix field is compiled in only under some configuration.
#[derive(Clone, Copy, Debug, PartialEq, Eq, Structural)]
pub struct IsConditional {
    pub value: bool,
}

/// The version of the package a type was defined in, kept as strings so the
/// same descriptor shape works for any versioning scheme.
#[derive(Clone, Debug)]
pub struct VersionStrings {
    pub major: String,
    pub minor: String,
    pub patch: String,
}

impl VersionStrings {
    pub fn new(major: String, minor: String, patch: String) -> (r: Self)
        ensures
            r.major == major,
            r.minor == minor,
            r.patch == patch,
    {
        VersionStrings { major, minor, patch }
    }
}

/// How a field of a stable type is reached from outside the component.
#[derive(Clone, Debug)]
pub enum FieldAccessor {
    /// Accessible as `self.field_name`.
    Direct,
    /// Accessible through a method, under the given name if it differs from
    /// the field's.
    Method { name: Option<String> },
    /// Accessible through a method that returns an optional value.
    MethodOption,
    /// Completely inaccessible.
    Opaque,
}

impl FieldAccessor {
    pub fn method_named(name: String) -> (r: Self)
        ensures
            r == (FieldAccessor::Method { name: Some(name) }),
    {
        FieldAccessor::Method { name: Some(name) }
    }
}

/// For each suffix field of an extensible prefix type, whether its accessor
/// is guaranteed to find the field in every compatible version.  Indices past
/// the end of the record are not guaranteed.
#[derive(Clone, Debug)]
pub struct FieldAccessibility {
    pub guaranteed: Vec<bool>,
}

impl FieldAccessibility {
    /// Whether the field at index `i` is guaranteed to be present.
    pub open spec fn is_accessible_spec(&self, i: int) -> bool {
        0 <= i < self.guaranteed@.len() && self.guaranteed@[i]
    }

    pub fn new(guaranteed: Vec<bool>) -> (r: Self)
        ensures
            r.guaranteed == guaranteed,
    {
        FieldAccessibility { guaranteed }
    }

    pub fn is_accessible(&self, i: usize) -> (r: bool)
        ensures
            r == self.is_accessible_spec(i as int),
    {
        i < self.guaranteed.len() && self.guaranteed[i]
    }
}

/// One parameter (or the return value) of a function signature embedded in a
/// field: its name and the deferred identifier of its type's layout.
#[derive(Clone, Debug)]
pub struct TLParam {
    pub name: String,
    pub lifetime_indices: Vec<LifetimeIndex>,
    pub type_id: usize,
}

impl TLParam {
    pub fn new(name: String, lifetime_indices: Vec<LifetimeIndex>, type_id: usize) -> (r: Self)
        ensures
            r.name == name,
            r.lifetime_indices == lifetime_indices,
            r.type_id == type_id,
    {
        TLParam { name, lifetime_indices, type_id }
    }
}

/// The signature of one function pointer type appearing in a field.
#[derive(Clone, Debug)]
pub struct TLFunction {
    /// The name of the field this signature appears inside of.
    pub name: String,
    /// The named lifetime parameters of the function itself.
    pub bound_lifetimes: Vec<String>,
    /// The parameters of the function, in order.
    pub params: Vec<TLParam>,
    /// The return value, if the function has one.
    pub ret: Option<TLParam>,
}

impl TLFunction {
    pub fn new(
        name: String,
        bound_lifetimes: Vec<String>,
        params: Vec<TLParam>,
        ret: Option<TLParam>,
    ) -> (r: Self)
        ensures
            r.name == name,
            r.bound_lifetimes == bound_lifetimes,
            r.params == params,
            r.ret == ret,
    {
        TLFunction { name, bound_lifetimes, params, ret }
    }
}

/// The layout of one field.  The field's own layout descriptor is referenced
/// through `type_id`, a deferred identifier resolved in the registry, so a
/// field may refer back to the type that contains it.
#[derive(Clone, Debug)]
pub struct TLField {
    /// The field's name.
    pub name: String,
    /// Which lifetimes of the surrounding type the field's type references.
    pub lifetime_indices: Vec<LifetimeIndex>,
    /// The registry identifier of the field's own layout descriptor.
    pub type_id: usize,
    /// The function pointer signatures appearing in the field's type.
    pub functions: Vec<TLFunction>,
    /// Whether the field is itself a single function pointer.
    pub is_function: bool,
    /// How the field is reached from outside the component.
    pub field_accessor: FieldAccessor,
}

impl TLField {
    pub fn new(name: String, lifetime_indices: Vec<LifetimeIndex>, type_id: usize) -> (r: Self)
        ensures
            r.name == name,
            r.lifetime_indices == lifetime_indices,
            r.type_id == type_id,
            r.functions@ =~= Seq::<TLFunction>::empty(),
            r.is_function == false,
            r.field_accessor == (FieldAccessor::Direct),
    {
        TLField {
            name,
            lifetime_indices,
            type_id,
            functions: Vec::new(),
            is_function: false,
            field_accessor: FieldAccessor::Direct,
        }
    }

    pub fn with_functions(
        name: String,
        lifetime_indices: Vec<LifetimeIndex>,
        type_id: usize,
        functions: Vec<TLFunction>,
        is_function: bool,
    ) -> (r: Self)
        ensures
            r.name == name,
            r.lifetime_indices == lifetime_indices,
            r.type_id == type_id,
            r.functions == functions,
            r.is_function == is_function,
            r.field_accessor == (FieldAccessor::Direct),
    {
        TLField {
            name,
            lifetime_indices,
            type_id,
            functions,
            is_function,
            field_accessor: FieldAccessor::Direct,
        }
    }

    pub fn set_field_accessor(self, field_accessor: FieldAccessor) -> (r: Self)
        ensures
            r.name == self.name,
            r.lifetime_indices == self.lifetime_indices,
            r.type_id == self.type_id,
            r.functions == self.functions,
            r.is_function == self.is_function,
            r.field_accessor == field_accessor,
    {
        TLField { field_accessor, ..self }
    }
}

/// The layout of one enum variant.
#[derive(Clone, Debug)]
pub struct TLEnumVariant {
    pub name: String,
    pub discriminant: TLDiscriminant,
    pub fields: Vec<TLField>,
}

impl TLEnumVariant {
    pub fn new(name: String, fields: Vec<TLField>) -> (r: Self)
        ensures
            r.name == name,
            r.discriminant == (TLDiscriminant::No),
            r.fields == fields,
    {
        TLEnumVariant { name, discriminant: TLDiscriminant::No, fields }
    }

    pub fn set_discriminant(self, discriminant: TLDiscriminant) -> (r: Self)
        ensures
            r.name == self.name,
            r.discriminant == discriminant,
            r.fields == self.fields,
    {
        TLEnumVariant { discriminant, ..self }
    }
}

/// A struct-like shape that can be extended in minor versions: a fixed
/// prefix of fields that every version shares, then a suffix that newer
/// versions may append to.
#[derive(Clone, Debug)]
pub struct TLPrefixType {
    /// The index of the first field of the extensible suffix.
    pub first_suffix_field: usize,
    /// Which suffix fields an accessor is guaranteed to find.
    pub accessible_fields: FieldAccessibility,
    /// Which prefix fields are compiled in only conditionally.  Recorded
    /// independently of `accessible_fields`; neither is derived from the
    /// other.
    pub conditional_prefix_fields: Vec<IsConditional>,
    /// All fields, prefix and suffix.
    pub fields: Vec<TLField>,
}

/// What kind of type a layout describes.  Unions are treated as structs.
#[derive(Clone, Debug)]
pub enum TLData {
    /// All bytes of the type are valid layout-wise; the bit pattern is
    /// trusted and carries no further structure to check.
    Primitive,
    /// A struct or union: an ordered field list.
    Struct { fields: Vec<TLField> },
    /// An enum: an ordered variant list.
    Enum { variants: Vec<TLEnumVariant> },
    /// A vtable or module that can be extended in minor versions.
    PrefixType(TLPrefixType),
}

impl TLData {
    pub open spec fn as_discriminant_spec(self) -> TLDataDiscriminant {
        match self {
            TLData::Primitive => TLDataDiscriminant::Primitive,
            TLData::Struct { .. } => TLDataDiscriminant::Struct,
            TLData::Enum { .. } => TLDataDiscriminant::Enum,
            TLData::PrefixType(..) => TLDataDiscriminant::PrefixType,
        }
    }

    pub fn struct_(fields: Vec<TLField>) -> (r: Self)
        ensures
            r == (TLData::Struct { fields }),
    {
        TLData::Struct { fields }
    }

    pub fn enum_(variants: Vec<TLEnumVariant>) -> (r: Self)
        ensures
            r == (TLData::Enum { variants }),
    {
        TLData::Enum { variants }
    }

    pub fn prefix_type(
        first_suffix_field: usize,
        accessible_fields: FieldAccessibility,
        conditional_prefix_fields: Vec<IsConditional>,
        fields: Vec<TLField>,
    ) -> (r: Self)
        ensures
            r == (TLData::PrefixType(TLPrefixType {
                first_suffix_field,
                accessible_fields,
                conditional_prefix_fields,
                fields,
            })),
    {
        TLData::PrefixType(TLPrefixType {
            first_suffix_field,
            accessible_fields,
            conditional_prefix_fields,
            fields,
        })
    }

    pub fn as_discriminant(&self) -> (r: TLDataDiscriminant)
        ensures
            r == self.as_discriminant_spec(),
    {
        match self {
            TLData::Primitive => TLDataDiscriminant::Primitive,
            TLData::Struct { .. } => TLDataDiscriminant::Struct,
            TLData::Enum { .. } => TLDataDiscriminant::Enum,
            TLData::PrefixType(..) => TLDataDiscriminant::PrefixType,
        }
    }
}

/// All generic parameters of a type, in declaration order.
#[derive(Clone, Debug)]
pub struct GenericParams {
    /// Lifetime parameter names; identity only, never layout-relevant.
    pub lifetime: Vec<String>,
    /// Registry identifiers of the type parameters' layouts.
    pub type_: Vec<usize>,
    /// Const parameter literals.
    pub const_: Vec<String>,
}

impl GenericParams {
    pub open spec fn is_empty_spec(&self) -> bool {
        self.lifetime@.len() == 0 && self.type_@.len() == 0 && self.const_@.len() == 0
    }

    pub fn new(lifetime: Vec<String>, type_: Vec<usize>, const_: Vec<String>) -> (r: Self)
        ensures
            r.lifetime == lifetime,
            r.type_ == type_,
            r.const_ == const_,
    {
        GenericParams { lifetime, type_, const_ }
    }

    pub fn is_empty(&self) -> (r: bool)
        ensures
            r == self.is_empty_spec(),
    {
        self.lifetime.len() == 0 && self.type_.len() == 0 && self.const_.len() == 0
    }
}

/// The display identity of a type: its name, an optional primitive kind, and
/// its generic parameters.  Two types whose generics differ structurally are
/// distinct identities even when their sizes and alignments coincide.
#[derive(Clone, Debug)]
pub struct FullType {
    pub name: String,
    pub primitive: Option<RustPrimitive>,
    pub generics: GenericParams,
}

impl FullType {
    pub fn new(name: String, primitive: Option<RustPrimitive>, generics: GenericParams) -> (r:
        Self)
        ensures
            r.name == name,
            r.primitive == primitive,
            r.generics == generics,
    {
        FullType { name, primitive, generics }
    }
}

/// Structural equivalence of accessor kinds, comparing method names by
/// their characters.
pub open spec fn accessor_matches(a: FieldAccessor, b: FieldAccessor) -> bool {
    match (a, b) {
        (FieldAccessor::Direct, FieldAccessor::Direct) => true,
        (FieldAccessor::Method { name: Some(x) }, FieldAccessor::Method { name: Some(y) }) => x@
            == y@,
        (FieldAccessor::Method { name: None }, FieldAccessor::Method { name: None }) => true,
        (FieldAccessor::MethodOption, FieldAccessor::MethodOption) => true,
        (FieldAccessor::Opaque, FieldAccessor::Opaque) => true,
        _ => false,
    }
}

/// The two string sequences agree character for character.
pub open spec fn strings_match(a: Seq<String>, b: Seq<String>) -> bool {
    a.len() == b.len() && forall|i: int| 0 <= i < a.len() ==> a[i]@ == b[i]@
}

pub open spec fn version_matches(a: VersionStrings, b: VersionStrings) -> bool {
    a.major@ == b.major@ && a.minor@ == b.minor@ && a.patch@ == b.patch@
}

/// Structural equivalence of function parameters, including the deferred
/// identifiers of their types.
pub open spec fn param_matches(a: TLParam, b: TLParam) -> bool {
    a.name@ == b.name@ && a.lifetime_indices@ == b.lifetime_indices@ && a.type_id == b.type_id
}

pub open spec fn params_match(a: Seq<TLParam>, b: Seq<TLParam>) -> bool {
    a.len() == b.len() && forall|i: int| 0 <= i < a.len() ==> param_matches(a[i], b[i])
}

/// Structural equivalence of embedded function signatures.
pub open spec fn function_matches(a: TLFunction, b: TLFunction) -> bool {
    &&& a.name@ == b.name@
    &&& strings_match(a.bound_lifetimes@, b.bound_lifetimes@)
    &&& params_match(a.params@, b.params@)
    &&& match (a.ret, b.ret) {
        (Some(x), Some(y)) => param_matches(x, y),
        (None, None) => true,
        _ => false,
    }
}

pub open spec fn functions_match(a: Seq<TLFunction>, b: Seq<TLFunction>) -> bool {
    a.len() == b.len() && forall|i: int| 0 <= i < a.len() ==> function_matches(a[i], b[i])
}

/// Structural equivalence of generic parameter sets, including the deferred
/// identifiers of the type parameters.
pub open spec fn generics_match(a: GenericParams, b: GenericParams) -> bool {
    strings_match(a.lifetime@, b.lifetime@) && a.type_@ == b.type_@ && strings_match(
        a.const_@,
        b.const_@,
    )
}

/// Structural equivalence of display identities.
pub open spec fn full_type_matches(a: FullType, b: FullType) -> bool {
    a.name@ == b.name@ && a.primitive == b.primitive && generics_match(a.generics, b.generics)
}

/// Everything two fields must agree on besides their targets: the shallow
/// part of field equality, which is all that is compared once a cycle makes
/// the walk stop recursing.
pub open spec fn field_shallow_matches(a: TLField, b: TLField) -> bool {
    &&& a.name@ == b.name@
    &&& a.lifetime_indices@ == b.lifetime_indices@
    &&& functions_match(a.functions@, b.functions@)
    &&& a.is_function == b.is_function
    &&& accessor_matches(a.field_accessor, b.field_accessor)
}

/// The caller-supplied parameters of [`TypeLayout::from_params`]: everything
/// except what is derived mechanically from the described type itself.
#[derive(Clone, Debug)]
pub struct TypeLayoutParams {
    pub name: String,
    pub package: String,
    pub package_version: VersionStrings,
    pub file: String,
    pub line: u32,
    pub data: TLData,
    pub generics: GenericParams,
}

/// The layout of a type, together with metadata about where it was defined.
///
/// The `size` and `alignment` fields are always derived from the real,
/// in-memory representation of the described type by the constructors; they
/// can never be supplied by hand, which is the integrity invariant the
/// compatibility checker builds on.  `file` and `line` exist for diagnostics
/// only and take no part in equality or compatibility.
#[derive(Clone, Debug)]
pub struct TypeLayout {
    pub name: String,
    pub package: String,
    pub package_version: VersionStrings,
    /// Recorded for diagnostics only; excluded from equality.
    pub file: String,
    /// Recorded for diagnostics only; excluded from equality.
    pub line: u32,
    pub size: usize,
    pub alignment: usize,
    pub data: TLData,
    pub full_type: FullType,
    pub phantom_fields: Vec<TLField>,
    /// Extra metadata stored for reflection, opaque to this crate.
    pub reflection_tag: Tag,
    /// Extra metadata, opaque to this crate.
    pub tag: Tag,
    pub mod_refl_mode: ModReflMode,
    pub repr_attr: ReprAttr,
}

impl TypeLayout {
    /// Builds the layout of the standard-library type `T`, deriving size and
    /// alignment from `T` itself.
    pub fn from_std_lib<T>(name: String, data: TLData, generics: GenericParams) -> (r: Self)
        ensures
            r.name == name,
            r.package@ == "std"@,
            r.package_version.major@ == "1"@,
            r.package_version.minor@ == "0"@,
            r.package_version.patch@ == "0"@,
            r.file@ == "<standard_library>"@,
            r.line == 0,
            r.size as nat == vstd::layout::size_of::<T>(),
            r.alignment as nat == vstd::layout::align_of::<T>(),
            r.data == data,
            r.full_type.name == name,
            r.full_type.primitive == None::<RustPrimitive>,
            r.full_type.generics == generics,
            r.phantom_fields@.len() == 0,
            r.reflection_tag.value == 0,
            r.tag.value == 0,
            r.mod_refl_mode == (ModReflMode::Module),
            r.repr_attr == (ReprAttr::C(None::<DiscriminantRepr>)),
    {
        Self::from_std_lib_phantom::<T>(name, None, data, generics, Vec::new())
    }

    /// Builds the layout of the standard-library type `T`, with an optional
    /// primitive kind and phantom fields.
    pub fn from_std_lib_phantom<T>(
        name: String,
        prim: Option<RustPrimitive>,
        data: TLData,
        genparams: GenericParams,
        phantom: Vec<TLField>,
    ) -> (r: Self)
        ensures
            r.name == name,
            r.package@ == "std"@,
            r.package_version.major@ == "1"@,
            r.package_version.minor@ == "0"@,
            r.package_version.patch@ == "0"@,
            r.file@ == "<standard_library>"@,
            r.line == 0,
            r.size as nat == vstd::layout::size_of::<T>(),
            r.alignment as nat == vstd::layout::align_of::<T>(),
            r.data == data,
            r.full_type.name == name,
            r.full_type.primitive == prim,
            r.full_type.generics == genparams,
            r.phantom_fields == phantom,
            r.reflection_tag.value == 0,
            r.tag.value == 0,
            r.mod_refl_mode == (ModReflMode::Module),
            r.repr_attr == (ReprAttr::C(None::<DiscriminantRepr>)),
    {
        TypeLayout {
            name: name.clone(),
            package: String::from_str("std"),
            package_version: VersionStrings {
                major: String::from_str("1"),
                minor: String::from_str("0"),
                patch: String::from_str("0"),
            },
            file: String::from_str("<standard_library>"),
            line: 0,
            size: core::mem::size_of::<T>(),
            alignment: core::mem::align_of::<T>(),
            data,
            full_type: FullType { name: name, primitive: prim, generics: genparams },
            phantom_fields: phantom,
            reflection_tag: Tag { value: 0 },
            tag: Tag { value: 0 },
            mod_refl_mode: ModReflMode::Module,
            repr_attr: ReprAttr::C(None),
        }
    }

    /// The display identity of the described type.
    pub fn full_type(&self) -> (r: &FullType)
        ensures
            *r == self.full_type,
    {
        &self.full_type
    }

    /// Builds the layout of the user type `T`, deriving size and alignment
    /// from `T` itself; everything else comes from `p`.
    pub fn from_params<T>(p: TypeLayoutParams) -> (r: Self)
        ensures
            r.name == p.name,
            r.package == p.package,
            r.package_version == p.package_version,
            r.file == p.file,
            r.line == p.line,
            r.size as nat == vstd::layout::size_of::<T>(),
            r.alignment as nat == vstd::layout::align_of::<T>(),
            r.data == p.data,
            r.full_type.name == p.name,
            r.full_type.primitive == None::<RustPrimitive>,
            r.full_type.generics == p.generics,
            r.phantom_fields@.len() == 0,
            r.reflection_tag.value == 0,
            r.tag.value == 0,
            r.mod_refl_mode == (ModReflMode::Module),
            r.repr_attr == (ReprAttr::C(None::<DiscriminantRepr>)),
    {
        let name = p.name;
        TypeLayout {
            name: name.clone(),
            package: p.package,
            package_version: p.package_version,
            file: p.file,
            line: p.line,
            size: core::mem::size_of::<T>(),
            alignment: core::mem::align_of::<T>(),
            data: p.data,
            full_type: FullType { name, primitive: None, generics: p.generics },
            phantom_fields: Vec::new(),
            reflection_tag: Tag { value: 0 },
            tag: Tag { value: 0 },
            mod_refl_mode: ModReflMode::Module,
            repr_attr: ReprAttr::C(None),
        }
    }

    pub fn set_phantom_fields(self, phantom_fields: Vec<TLField>) -> (r: Self)
        ensures
            r == (TypeLayout { phantom_fields, ..self }),
    {
        TypeLayout { phantom_fields, ..self }
    }

    pub fn set_tag(self, tag: Tag) -> (r: Self)
        ensures
            r == (TypeLayout { tag, ..self }),
    {
        TypeLayout { tag, ..self }
    }

    pub fn set_reflection_tag(self, reflection_tag: Tag) -> (r: Self)
        ensures
            r == (TypeLayout { reflection_tag, ..self }),
    {
        TypeLayout { reflection_tag, ..self }
    }

    pub fn set_mod_refl_mode(self, mod_refl_mode: ModReflMode) -> (r: Self)
        ensures
            r == (TypeLayout { mod_refl_mode, ..self }),
    {
        TypeLayout { mod_refl_mode, ..self }
    }

    pub fn set_repr_attr(self, repr_attr: ReprAttr) -> (r: Self)
        ensures
            r == (TypeLayout { repr_attr, ..self }),
    {
        TypeLayout { repr_attr, ..self }
    }
}

/// A field paired with the registry that resolves its type, for printing a
/// field as `name:type`.
#[derive(Clone, Debug)]
pub struct TLFieldAndType {
    pub inner: TLField,
}

impl TLFieldAndType {
    pub fn new(inner: TLField) -> (r: Self)
        ensures
            r.inner == inner,
    {
        TLFieldAndType { inner }
    }

    pub fn name(&self) -> (r: String)
        ensures
            r == self.inner.name,
    {
        self.inner.name.clone()
    }

    /// The display identity of the field's type, resolved in `reg`.
    pub fn full_type<'a>(&self, reg: &'a TypeRegistry) -> (r: &'a FullType)
        requires
            self.inner.type_id < reg.layouts@.len(),
        ensures
            *r == reg.layouts@[self.inner.type_id as int].full_type,
    {
        &reg.get(self.inner.type_id).full_type
    }
}

} // verus!
