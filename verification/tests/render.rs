use abi_stable::registry::TypeRegistry;
use abi_stable::render::{
    field_entry_string, full_type_string, function_string, generic_params_string, type_ref_string,
    RENDER_DEPTH,
};
use abi_stable::type_layout::{
    GenericParams, RustPrimitive, TLData, TLField, TLFieldAndType, TLFunction, TLParam,
    TypeLayout, TypeLayoutParams, VersionStrings,
};

fn no_generics() -> GenericParams {
    GenericParams::new(vec![], vec![], vec![])
}

fn leaf(name: &str) -> TypeLayout {
    TypeLayout::from_std_lib::<u32>(name.to_string(), TLData::Primitive, no_generics())
}

fn params_named(name: &str, generics: GenericParams) -> TypeLayoutParams {
    TypeLayoutParams {
        name: name.to_string(),
        package: "demo".to_string(),
        package_version: VersionStrings::new("1".to_string(), "0".to_string(), "0".to_string()),
        file: "demo.rs".to_string(),
        line: 1,
        data: TLData::Primitive,
        generics,
    }
}

#[test]
fn plain_type_renders_as_its_name() {
    let mut reg = TypeRegistry::new();
    let id = reg.register(leaf("u32")).unwrap();
    assert_eq!(full_type_string(&reg, &reg.get(id).full_type.clone(), RENDER_DEPTH), "u32");
}

#[test]
fn generic_type_renders_with_arguments() {
    let mut reg = TypeRegistry::new();
    let u32_id = reg.register(leaf("u32")).unwrap();
    let v = TypeLayout::from_params::<usize>(params_named(
        "Vec",
        GenericParams::new(vec![], vec![u32_id], vec![]),
    ));
    let vid = reg.register(v).unwrap();
    assert_eq!(full_type_string(&reg, &reg.get(vid).full_type.clone(), RENDER_DEPTH), "Vec<u32>");
}

#[test]
fn primitive_markers_render() {
    let reg = TypeRegistry::new();
    let r = TypeLayout::from_std_lib_phantom::<&u32>(
        "u32".to_string(),
        Some(RustPrimitive::Reference),
        TLData::Primitive,
        no_generics(),
        vec![],
    );
    assert_eq!(full_type_string(&reg, &r.full_type, RENDER_DEPTH), "&u32");
    let m = TypeLayout::from_std_lib_phantom::<&u32>(
        "u32".to_string(),
        Some(RustPrimitive::MutReference),
        TLData::Primitive,
        no_generics(),
        vec![],
    );
    assert_eq!(full_type_string(&reg, &m.full_type, RENDER_DEPTH), "&mut u32");
}

#[test]
fn generic_params_render_in_declaration_order() {
    let mut reg = TypeRegistry::new();
    let u32_id = reg.register(leaf("u32")).unwrap();
    let g = GenericParams::new(
        vec!["'a".to_string()],
        vec![u32_id],
        vec!["3".to_string()],
    );
    assert_eq!(generic_params_string(&reg, &g, RENDER_DEPTH), "<'a, u32, 3>");
}

#[test]
fn field_entries_render_name_and_type() {
    let mut reg = TypeRegistry::new();
    let u32_id = reg.register(leaf("u32")).unwrap();
    assert_eq!(field_entry_string(&reg, &"x".to_string(), u32_id, RENDER_DEPTH), "x:u32");
    let fat = TLFieldAndType::new(TLField::new("x".to_string(), vec![], u32_id));
    assert_eq!(fat.display_string(&reg), "x:u32");
    let f = TLField::new("y".to_string(), vec![], u32_id);
    assert_eq!(f.display_string(&reg), "y:u32");
}

#[test]
fn function_signatures_render() {
    let mut reg = TypeRegistry::new();
    let u32_id = reg.register(leaf("u32")).unwrap();
    let sig = TLFunction::new(
        "cb".to_string(),
        vec![],
        vec![
            TLParam::new("a".to_string(), vec![], u32_id),
            TLParam::new("b".to_string(), vec![], u32_id),
        ],
        Some(TLParam::new("r".to_string(), vec![], u32_id)),
    );
    assert_eq!(function_string(&reg, &sig, RENDER_DEPTH), "fn(a:u32, b:u32)->r:u32");
    let no_ret = TLFunction::new("cb".to_string(), vec![], vec![], None);
    assert_eq!(function_string(&reg, &no_ret, RENDER_DEPTH), "fn()");
}

#[test]
fn unresolved_identifier_renders_placeholder() {
    let reg = TypeRegistry::new();
    assert_eq!(type_ref_string(&reg, 42, RENDER_DEPTH), "<unresolved>");
}

/// Rendering a self-referential type is bounded by the fixed expansion
/// depth, independent of cycle detection.
#[test]
fn self_referential_rendering_is_bounded() {
    let mut reg = TypeRegistry::new();
    let l = TypeLayout::from_params::<usize>(params_named(
        "L",
        GenericParams::new(vec![], vec![0], vec![]),
    ));
    let id = reg.register(l).unwrap();
    let text = full_type_string(&reg, &reg.get(id).full_type.clone(), RENDER_DEPTH);
    assert_eq!(text, "L<L<L<<printing recursion limit>>>>");
}
