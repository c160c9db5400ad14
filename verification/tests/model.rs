use abi_stable::registry::TypeRegistry;
use abi_stable::traversal::{TLFieldShallow, TraversalCtx};
use abi_stable::type_layout::{
    DiscriminantWidth, FieldAccessibility, FieldAccessor, GenericParams, IsConditional,
    LifetimeIndex, ModReflMode, ReprAttr, TLData, TLDataDiscriminant, TLDiscriminant,
    TLEnumVariant, TLField, TLFieldAndType, TLFunction, TLParam, Tag, TypeLayout,
    TypeLayoutParams, VersionStrings,
};

fn no_generics() -> GenericParams {
    GenericParams::new(vec![], vec![], vec![])
}

fn version_demo() -> VersionStrings {
    VersionStrings::new("1".to_string(), "2".to_string(), "3".to_string())
}

fn leaf_i32() -> TypeLayout {
    TypeLayout::from_std_lib::<i32>("i32".to_string(), TLData::Primitive, no_generics())
}

fn params_named(name: &str, data: TLData) -> TypeLayoutParams {
    TypeLayoutParams {
        name: name.to_string(),
        package: "demo".to_string(),
        package_version: version_demo(),
        file: "demo.rs".to_string(),
        line: 7,
        data,
        generics: no_generics(),
    }
}

#[test]
fn unsigned_discriminant_constructors() {
    assert_eq!(
        TLDiscriminant::from_u8(5),
        TLDiscriminant::Unsigned { width: DiscriminantWidth::W8, value: 5 }
    );
    assert_eq!(
        TLDiscriminant::from_u16(500),
        TLDiscriminant::Unsigned { width: DiscriminantWidth::W16, value: 500 }
    );
    assert_eq!(
        TLDiscriminant::from_u32(70_000),
        TLDiscriminant::Unsigned { width: DiscriminantWidth::W32, value: 70_000 }
    );
    assert_eq!(
        TLDiscriminant::from_u64(1 << 40),
        TLDiscriminant::Unsigned { width: DiscriminantWidth::W64, value: 1 << 40 }
    );
}

#[test]
fn signed_discriminant_constructors() {
    assert_eq!(
        TLDiscriminant::from_i8(-5),
        TLDiscriminant::Signed { width: DiscriminantWidth::W8, value: -5 }
    );
    assert_eq!(
        TLDiscriminant::from_i16(-500),
        TLDiscriminant::Signed { width: DiscriminantWidth::W16, value: -500 }
    );
    assert_eq!(
        TLDiscriminant::from_i32(-70_000),
        TLDiscriminant::Signed { width: DiscriminantWidth::W32, value: -70_000 }
    );
    assert_eq!(
        TLDiscriminant::from_i64(-(1 << 40)),
        TLDiscriminant::Signed { width: DiscriminantWidth::W64, value: -(1 << 40) }
    );
}

#[test]
fn method_named_accessor() {
    let a = FieldAccessor::method_named("get_x".to_string());
    match a {
        FieldAccessor::Method { name: Some(n) } => assert_eq!(n, "get_x"),
        _ => panic!("expected a named method accessor"),
    }
}

#[test]
fn field_new_and_builders() {
    let f = TLField::new("x".to_string(), vec![LifetimeIndex::Static], 0);
    assert_eq!(f.name, "x");
    assert_eq!(f.lifetime_indices, vec![LifetimeIndex::Static]);
    assert_eq!(f.type_id, 0);
    assert!(f.functions.is_empty());
    assert!(!f.is_function);
    assert!(matches!(f.field_accessor, FieldAccessor::Direct));

    let f = f.set_field_accessor(FieldAccessor::MethodOption);
    assert_eq!(f.name, "x");
    assert!(matches!(f.field_accessor, FieldAccessor::MethodOption));

    let sig = TLFunction::new(
        "cb".to_string(),
        vec!["'a".to_string()],
        vec![TLParam::new("n".to_string(), vec![], 0)],
        None,
    );
    let g = TLField::with_functions("cb".to_string(), vec![], 0, vec![sig.clone()], true);
    assert_eq!(g.name, "cb");
    assert_eq!(g.functions.len(), 1);
    assert_eq!(g.functions[0].name, "cb");
    assert_eq!(g.functions[0].bound_lifetimes, vec!["'a".to_string()]);
    assert_eq!(g.functions[0].params[0].name, "n");
    assert!(g.functions[0].ret.is_none());
    assert!(g.is_function);
    let _ = sig;
}

#[test]
fn enum_variant_builders() {
    let v = TLEnumVariant::new("First".to_string(), vec![]);
    assert_eq!(v.name, "First");
    assert_eq!(v.discriminant, TLDiscriminant::No);
    let v = v.set_discriminant(TLDiscriminant::from_u8(3));
    assert_eq!(
        v.discriminant,
        TLDiscriminant::Unsigned { width: DiscriminantWidth::W8, value: 3 }
    );
}

#[test]
fn data_discriminants() {
    assert_eq!(TLData::Primitive.as_discriminant(), TLDataDiscriminant::Primitive);
    assert_eq!(TLData::struct_(vec![]).as_discriminant(), TLDataDiscriminant::Struct);
    assert_eq!(TLData::enum_(vec![]).as_discriminant(), TLDataDiscriminant::Enum);
    let p = TLData::prefix_type(0, FieldAccessibility::new(vec![]), vec![], vec![]);
    assert_eq!(p.as_discriminant(), TLDataDiscriminant::PrefixType);
}

#[test]
fn generic_params_emptiness() {
    assert!(no_generics().is_empty());
    let g = GenericParams::new(vec!["'a".to_string()], vec![], vec![]);
    assert!(!g.is_empty());
    let g = GenericParams::new(vec![], vec![0], vec![]);
    assert!(!g.is_empty());
    let g = GenericParams::new(vec![], vec![], vec!["3".to_string()]);
    assert!(!g.is_empty());
}

#[test]
fn accessibility_record() {
    let acc = FieldAccessibility::new(vec![true, false]);
    assert!(acc.is_accessible(0));
    assert!(!acc.is_accessible(1));
    // Indices past the end of the record are never guaranteed.
    assert!(!acc.is_accessible(2));
    let c = IsConditional { value: true };
    assert!(c.value);
}

#[test]
fn std_lib_layout_metadata() {
    let l = leaf_i32();
    assert_eq!(l.name, "i32");
    assert_eq!(l.package, "std");
    assert_eq!(l.package_version.major, "1");
    assert_eq!(l.package_version.minor, "0");
    assert_eq!(l.package_version.patch, "0");
    assert_eq!(l.file, "<standard_library>");
    assert_eq!(l.line, 0);
    assert_eq!(l.size, 4);
    assert_eq!(l.alignment, 4);
    assert_eq!(l.full_type().name, "i32");
    assert!(l.full_type.primitive.is_none());
    assert!(l.phantom_fields.is_empty());
    assert_eq!(l.tag, Tag::null());
    assert_eq!(l.reflection_tag, Tag::null());
    assert_eq!(l.mod_refl_mode, ModReflMode::Module);
    assert_eq!(l.repr_attr, ReprAttr::C(None));
}

#[test]
fn from_params_derives_size_and_alignment() {
    let l = TypeLayout::from_params::<u64>(params_named("Wide", TLData::Primitive));
    assert_eq!(l.name, "Wide");
    assert_eq!(l.package, "demo");
    assert_eq!(l.file, "demo.rs");
    assert_eq!(l.line, 7);
    assert_eq!(l.size, 8);
    assert_eq!(l.alignment, 8);
    assert_eq!(l.full_type.name, "Wide");
}

#[test]
fn layout_builders() {
    let l = TypeLayout::from_params::<i32>(params_named("A", TLData::Primitive));
    let l = l
        .set_tag(Tag::new(9))
        .set_reflection_tag(Tag::new(8))
        .set_mod_refl_mode(ModReflMode::Opaque)
        .set_repr_attr(ReprAttr::Transparent)
        .set_phantom_fields(vec![TLField::new("ph".to_string(), vec![], 0)]);
    assert_eq!(l.tag, Tag::new(9));
    assert_eq!(l.reflection_tag, Tag::new(8));
    assert_eq!(l.mod_refl_mode, ModReflMode::Opaque);
    assert_eq!(l.repr_attr, ReprAttr::Transparent);
    assert_eq!(l.phantom_fields.len(), 1);
    assert_eq!(l.name, "A");
}

#[test]
fn registry_register_and_get() {
    let mut reg = TypeRegistry::new();
    assert_eq!(reg.len(), 0);
    let id = reg.register(leaf_i32()).unwrap();
    assert_eq!(id, 0);
    assert_eq!(reg.len(), 1);
    assert_eq!(reg.get(0).name, "i32");
}

#[test]
fn registry_rejects_dangling_identifier() {
    let mut reg = TypeRegistry::new();
    let bad = TypeLayout::from_params::<i32>(
        params_named("Bad", TLData::struct_(vec![TLField::new("x".to_string(), vec![], 5)])),
    );
    assert!(reg.register(bad).is_none());
    assert_eq!(reg.len(), 0);
}

#[test]
fn registry_accepts_self_reference() {
    let mut reg = TypeRegistry::new();
    let node = TypeLayout::from_params::<i32>(
        params_named("Node", TLData::struct_(vec![TLField::new("next".to_string(), vec![], 0)])),
    );
    let id = reg.register(node).unwrap();
    assert_eq!(id, 0);
}

#[test]
fn registry_from_layouts_mutual_recursion() {
    let a = TypeLayout::from_params::<i32>(
        params_named("A", TLData::struct_(vec![TLField::new("b".to_string(), vec![], 1)])),
    );
    let b = TypeLayout::from_params::<i32>(
        params_named("B", TLData::struct_(vec![TLField::new("a".to_string(), vec![], 0)])),
    );
    let reg = TypeRegistry::from_layouts(vec![a, b]).unwrap();
    assert_eq!(reg.len(), 2);
    assert_eq!(reg.get(0).name, "A");
    assert_eq!(reg.get(1).name, "B");

    let dangling = TypeLayout::from_params::<i32>(
        params_named("C", TLData::struct_(vec![TLField::new("x".to_string(), vec![], 2)])),
    );
    assert!(TypeRegistry::from_layouts(vec![dangling]).is_none());
}

#[test]
fn traversal_context_bookkeeping() {
    let mut ctx = TraversalCtx::new(3);
    assert_eq!(ctx.visited_nodes, 0);
    assert!(!ctx.is_visited(0));
    ctx.mark(1);
    assert!(ctx.is_visited(1));
    assert!(!ctx.is_visited(0));
    assert_eq!(ctx.visited_nodes, 1);
}

#[test]
fn field_and_type_accessors() {
    let mut reg = TypeRegistry::new();
    let id = reg.register(leaf_i32()).unwrap();
    let fat = TLFieldAndType::new(TLField::new("x".to_string(), vec![], id));
    assert_eq!(fat.name(), "x");
    assert_eq!(fat.full_type(&reg).name, "i32");
}

#[test]
fn shallow_field_projection() {
    let mut reg = TypeRegistry::new();
    let id = reg.register(leaf_i32()).unwrap();
    let f = TLField::new("x".to_string(), vec![LifetimeIndex::Param(0)], id);
    let deep = TLFieldShallow::new(&reg, &f, true);
    assert_eq!(deep.name, "x");
    assert_eq!(deep.full_type.name, "i32");
    assert_eq!(deep.type_id, Some(id));
    assert_eq!(deep.lifetime_indices, vec![LifetimeIndex::Param(0)]);
    let cut = TLFieldShallow::new(&reg, &f, false);
    assert_eq!(cut.type_id, None);
}
