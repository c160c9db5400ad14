use abi_stable::equality::{field_equal, layout_equal};
use abi_stable::type_layout::{FieldAccessor, TLFunction, TLParam};
use abi_stable::registry::TypeRegistry;
use abi_stable::type_layout::{
    GenericParams, TLData, TLField, TypeLayout, TypeLayoutParams, VersionStrings,
};

fn no_generics() -> GenericParams {
    GenericParams::new(vec![], vec![], vec![])
}

fn params_named(name: &str, data: TLData) -> TypeLayoutParams {
    TypeLayoutParams {
        name: name.to_string(),
        package: "demo".to_string(),
        package_version: VersionStrings::new("1".to_string(), "0".to_string(), "0".to_string()),
        file: "demo.rs".to_string(),
        line: 1,
        data,
        generics: no_generics(),
    }
}

fn leaf_i32() -> TypeLayout {
    TypeLayout::from_std_lib::<i32>("i32".to_string(), TLData::Primitive, no_generics())
}

#[test]
fn equality_is_reflexive() {
    let mut reg = TypeRegistry::new();
    let leaf = reg.register(leaf_i32()).unwrap();
    let s = TypeLayout::from_params::<i32>(params_named(
        "S",
        TLData::struct_(vec![TLField::new("x".to_string(), vec![], leaf)]),
    ));
    let id = reg.register(s).unwrap();
    assert!(layout_equal(&reg, id, id));
}

#[test]
fn isomorphic_graphs_are_equal() {
    let mut reg = TypeRegistry::new();
    let a = reg.register(leaf_i32()).unwrap();
    let b = reg.register(leaf_i32()).unwrap();
    assert_ne!(a, b);
    assert!(layout_equal(&reg, a, b));
}

#[test]
fn differing_name_is_unequal() {
    let mut reg = TypeRegistry::new();
    let a = reg.register(leaf_i32()).unwrap();
    let other = TypeLayout::from_std_lib::<i32>(
        "int32".to_string(),
        TLData::Primitive,
        no_generics(),
    );
    let b = reg.register(other).unwrap();
    assert!(!layout_equal(&reg, a, b));
}

/// The recorded source file and line are diagnostics only: they never make
/// two layouts unequal.
#[test]
fn file_and_line_are_ignored() {
    let mut reg = TypeRegistry::new();
    let a = reg.register(TypeLayout::from_params::<i32>(params_named("T", TLData::Primitive)))
        .unwrap();
    let moved = TypeLayoutParams {
        file: "elsewhere.rs".to_string(),
        line: 99,
        ..params_named("T", TLData::Primitive)
    };
    let b = reg.register(TypeLayout::from_params::<i32>(moved)).unwrap();
    assert!(layout_equal(&reg, a, b));
}

/// A self-referential struct terminates the equality comparison.
#[test]
fn self_referential_equality_terminates() {
    let mut reg = TypeRegistry::new();
    let node = TypeLayout::from_params::<usize>(params_named(
        "Node",
        TLData::struct_(vec![TLField::new("next".to_string(), vec![], 0)]),
    ));
    let id = reg.register(node).unwrap();
    assert!(layout_equal(&reg, id, id));
    let other = TypeLayout::from_params::<usize>(params_named(
        "Node",
        TLData::struct_(vec![TLField::new("next".to_string(), vec![], 1)]),
    ));
    let oid = reg.register(other).unwrap();
    assert!(layout_equal(&reg, id, oid));
}

#[test]
fn fields_compare_through_their_targets() {
    let mut reg = TypeRegistry::new();
    let leaf4 = reg.register(leaf_i32()).unwrap();
    let leaf8 = reg
        .register(TypeLayout::from_std_lib::<u64>(
            "u64".to_string(),
            TLData::Primitive,
            no_generics(),
        ))
        .unwrap();
    let fa = TLField::new("x".to_string(), vec![], leaf4);
    let fb = TLField::new("x".to_string(), vec![], leaf4);
    let fc = TLField::new("x".to_string(), vec![], leaf8);
    let fd = TLField::new("y".to_string(), vec![], leaf4);
    assert!(field_equal(&reg, &fa, &fb));
    assert!(!field_equal(&reg, &fa, &fc));
    assert!(!field_equal(&reg, &fa, &fd));
}

#[test]
fn function_signatures_compared_in_fields() {
    let mut reg = TypeRegistry::new();
    let leaf = reg.register(leaf_i32()).unwrap();
    let sig = |param: &str| {
        TLFunction::new(
            "cb".to_string(),
            vec![],
            vec![TLParam::new(param.to_string(), vec![], leaf)],
            None,
        )
    };
    let fa = TLField::with_functions(
        "cb".to_string(),
        vec![],
        leaf,
        vec![sig("n")],
        true,
    );
    let fb = TLField::with_functions(
        "cb".to_string(),
        vec![],
        leaf,
        vec![sig("n")],
        true,
    );
    let fc = TLField::with_functions(
        "cb".to_string(),
        vec![],
        leaf,
        vec![sig("m")],
        true,
    );
    assert!(field_equal(&reg, &fa, &fb));
    assert!(!field_equal(&reg, &fa, &fc));
}

#[test]
fn accessor_kind_part_of_field_equality() {
    let mut reg = TypeRegistry::new();
    let leaf = reg.register(leaf_i32()).unwrap();
    let direct = TLField::new("x".to_string(), vec![], leaf);
    let named = TLField::new("x".to_string(), vec![], leaf)
        .set_field_accessor(FieldAccessor::method_named("x".to_string()));
    let named_too = TLField::new("x".to_string(), vec![], leaf)
        .set_field_accessor(FieldAccessor::method_named("x".to_string()));
    assert!(!field_equal(&reg, &direct, &named));
    assert!(field_equal(&reg, &named, &named_too));
}
