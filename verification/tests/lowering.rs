//! End-to-end tests of the parameter lowering engine on concrete signatures.

use param_lowering::config::ParameterConfig;
use param_lowering::function_parameters::{
    analyze, async_param_to_remove, get_length_type, has_length, is_length, Parameters,
    TransformationType,
};
use param_lowering::library::{
    ConversionType, Env, Parameter, ParameterDirection, ParameterScope, Transfer, TypeDef,
    TypeShape,
};
use param_lowering::nameutil::mangle_keywords;
use param_lowering::ref_mode::RefMode;

fn typedef(category: ConversionType, shape: TypeShape, printable: &str) -> TypeDef {
    TypeDef {
        category,
        shape,
        is_interface: false,
        is_class: false,
        is_final_type: false,
        rust_type_name: printable.to_string(),
        out_parameter_as_return: false,
    }
}

fn param(name: &str, typ: usize, direction: ParameterDirection) -> Parameter {
    Parameter {
        name: name.to_string(),
        typ,
        c_type: format!("c_{}", name),
        instance_parameter: false,
        direction,
        nullable: false,
        transfer: Transfer::Nothing,
        caller_allocates: false,
        is_error: false,
        scope: ParameterScope::CallBound,
        array_length: None,
        closure: None,
        destroy: None,
    }
}

fn no_config() -> Vec<ParameterConfig> {
    Vec::new()
}

fn config(name: &str) -> ParameterConfig {
    ParameterConfig {
        ident: name.to_string(),
        nullable: None,
        constant: false,
        length_of: None,
        string_type: None,
    }
}

/// Bytes array at type 0, unsigned integer at type 1.
fn array_env() -> Env {
    Env {
        types: vec![
            typedef(ConversionType::Pointer, TypeShape::CArray, "Vec<u8>"),
            typedef(ConversionType::Direct, TypeShape::Other, "usize"),
        ],
    }
}

#[test]
fn scenario_array_with_length_is_folded() {
    let env = array_env();
    let fps = vec![
        param("data", 0, ParameterDirection::In),
        param("len", 1, ParameterDirection::In),
    ];
    let r = analyze(&env, &fps, &no_config(), false, false, false);

    assert_eq!(r.c_parameters.len(), 2);
    assert_eq!(r.rust_parameters.len(), 1);
    assert_eq!(r.rust_parameters[0].name.as_str(), "data");
    assert_eq!(r.rust_parameters[0].ind_c, 0);

    assert_eq!(r.transformations.len(), 2);
    assert_eq!(r.transformations[0].ind_c, 0);
    assert_eq!(r.transformations[0].ind_rust, Some(0));
    match &r.transformations[0].transformation_type {
        TransformationType::ToGlibPointer { name, .. } => assert_eq!(name.as_str(), "data"),
        other => panic!("expected a pointer conversion, got {:?}", other),
    }

    assert_eq!(r.transformations[1].ind_c, 1);
    assert_eq!(r.transformations[1].ind_rust, None);
    match &r.transformations[1].transformation_type {
        TransformationType::Length { array_name, array_length_name, array_length_type } => {
            assert_eq!(array_name.as_str(), "data");
            assert_eq!(array_length_name.as_str(), "len");
            assert_eq!(array_length_type.as_str(), "usize");
        }
        other => panic!("expected a length link, got {:?}", other),
    }
}

#[test]
fn scenario_detection_disabled_keeps_length_param() {
    let env = array_env();
    let fps = vec![
        param("data", 0, ParameterDirection::In),
        param("len", 1, ParameterDirection::In),
    ];
    let r = analyze(&env, &fps, &no_config(), true, false, false);

    assert_eq!(r.rust_parameters.len(), 2);
    assert_eq!(r.rust_parameters[1].name.as_str(), "len");
    assert_eq!(r.transformations.len(), 2);
    match &r.transformations[1].transformation_type {
        TransformationType::ToGlibDirect { name } => assert_eq!(name.as_str(), "len"),
        other => panic!("expected a direct conversion, got {:?}", other),
    }
    assert_eq!(r.transformations[1].ind_rust, Some(1));
}

#[test]
fn scenario_async_callback_and_user_data() {
    let env = Env {
        types: vec![
            typedef(ConversionType::Direct, TypeShape::Other, "FnPtr"),
            typedef(ConversionType::Pointer, TypeShape::Other, "RawPtr"),
        ],
    };
    let fps = vec![
        param("callback", 0, ParameterDirection::In),
        param("user_data", 1, ParameterDirection::In),
    ];
    let r = analyze(&env, &fps, &no_config(), false, true, false);

    assert_eq!(r.c_parameters.len(), 2);
    assert_eq!(r.rust_parameters.len(), 1);
    assert_eq!(r.rust_parameters[0].name.as_str(), "callback");

    match &r.transformations[0].transformation_type {
        TransformationType::ToSome(name) => assert_eq!(name.as_str(), "callback"),
        other => panic!("expected a present-value wrap, got {:?}", other),
    }
    assert_eq!(r.transformations[1].ind_rust, None);
    match &r.transformations[1].transformation_type {
        TransformationType::IntoRaw(name) => assert_eq!(name.as_str(), "user_data"),
        other => panic!("expected a raw-pointer conversion, got {:?}", other),
    }
}

#[test]
fn scenario_async_data_suffix_is_not_surfaced() {
    let env = Env {
        types: vec![typedef(ConversionType::Pointer, TypeShape::Other, "RawPtr")],
    };
    let fps = vec![param("progress_data", 0, ParameterDirection::In)];
    let r = analyze(&env, &fps, &no_config(), false, true, false);
    assert_eq!(r.rust_parameters.len(), 0);
    assert_eq!(r.transformations[0].ind_rust, None);
    // only the literally named user-data slot is retargeted
    match &r.transformations[0].transformation_type {
        TransformationType::ToGlibPointer { name, .. } => {
            assert_eq!(name.as_str(), "progress_data")
        }
        other => panic!("expected a pointer conversion, got {:?}", other),
    }
}

#[test]
fn sync_user_data_stays_ordinary() {
    let env = Env {
        types: vec![typedef(ConversionType::Pointer, TypeShape::Other, "RawPtr")],
    };
    let fps = vec![param("user_data", 0, ParameterDirection::In)];
    let r = analyze(&env, &fps, &no_config(), false, false, false);
    assert_eq!(r.rust_parameters.len(), 1);
    match &r.transformations[0].transformation_type {
        TransformationType::ToGlibPointer { name, .. } => assert_eq!(name.as_str(), "user_data"),
        other => panic!("expected a pointer conversion, got {:?}", other),
    }
}

#[test]
fn scenario_scalar_erases_ownership_flags() {
    let env = Env {
        types: vec![typedef(ConversionType::Scalar, TypeShape::Other, "i32")],
    };
    let mut p = param("value", 0, ParameterDirection::In);
    p.transfer = Transfer::Full;
    p.caller_allocates = true;
    let r = analyze(&env, &vec![p], &no_config(), false, false, false);

    assert_eq!(r.c_parameters[0].transfer, Transfer::Nothing);
    assert!(!r.c_parameters[0].caller_allocates);
    match &r.transformations[0].transformation_type {
        TransformationType::ToGlibScalar { name, nullable } => {
            assert_eq!(name.as_str(), "value");
            assert!(!*nullable);
        }
        other => panic!("expected a scalar conversion, got {:?}", other),
    }
}

#[test]
fn pointer_keeps_ownership_flags() {
    let env = Env {
        types: vec![typedef(ConversionType::Pointer, TypeShape::Other, "Obj")],
    };
    let mut p = param("value", 0, ParameterDirection::In);
    p.transfer = Transfer::Full;
    p.caller_allocates = true;
    let r = analyze(&env, &vec![p], &no_config(), false, false, false);
    assert_eq!(r.c_parameters[0].transfer, Transfer::Full);
    assert!(r.c_parameters[0].caller_allocates);
}

#[test]
fn scenario_nullable_class_pointer_gets_as_ref() {
    let mut class_def = typedef(ConversionType::Pointer, TypeShape::Other, "Widget");
    class_def.is_class = true;
    let env = Env { types: vec![class_def] };
    let mut p = param("widget", 0, ParameterDirection::In);
    p.nullable = true;
    let r = analyze(&env, &vec![p], &no_config(), false, false, false);

    match &r.transformations[0].transformation_type {
        TransformationType::ToGlibPointer { to_glib_extra, nullable, .. } => {
            assert_eq!(to_glib_extra.as_str(), ".as_ref()");
            assert!(*nullable);
        }
        other => panic!("expected a pointer conversion, got {:?}", other),
    }
}

#[test]
fn nullable_final_class_pointer_has_no_suffix() {
    let mut class_def = typedef(ConversionType::Pointer, TypeShape::Other, "Widget");
    class_def.is_class = true;
    class_def.is_final_type = true;
    let env = Env { types: vec![class_def] };
    let mut p = param("widget", 0, ParameterDirection::In);
    p.nullable = true;
    let r = analyze(&env, &vec![p], &no_config(), false, false, false);

    match &r.transformations[0].transformation_type {
        TransformationType::ToGlibPointer { to_glib_extra, nullable, .. } => {
            assert_eq!(to_glib_extra.as_str(), "");
            assert!(*nullable);
        }
        other => panic!("expected a pointer conversion, got {:?}", other),
    }
}

#[test]
fn non_nullable_class_pointer_has_no_suffix() {
    let mut class_def = typedef(ConversionType::Pointer, TypeShape::Other, "Widget");
    class_def.is_class = true;
    let env = Env { types: vec![class_def] };
    let p = param("widget", 0, ParameterDirection::In);
    let r = analyze(&env, &vec![p], &no_config(), false, false, false);

    match &r.transformations[0].transformation_type {
        TransformationType::ToGlibPointer { to_glib_extra, nullable, .. } => {
            assert_eq!(to_glib_extra.as_str(), "");
            assert!(!*nullable);
        }
        other => panic!("expected a pointer conversion, got {:?}", other),
    }
}

#[test]
fn out_parameter_promoted_to_return_is_not_surfaced() {
    let mut def = typedef(ConversionType::Pointer, TypeShape::Other, "Obj");
    def.out_parameter_as_return = true;
    let env = Env { types: vec![def] };
    let fps = vec![param("result", 0, ParameterDirection::Out)];
    let r = analyze(&env, &fps, &no_config(), false, false, false);
    assert_eq!(r.rust_parameters.len(), 0);
    assert_eq!(r.transformations[0].ind_rust, None);
}

#[test]
fn out_parameter_not_promotable_stays_surfaced() {
    let env = Env {
        types: vec![typedef(ConversionType::Pointer, TypeShape::Other, "Obj")],
    };
    let fps = vec![param("result", 0, ParameterDirection::Out)];
    let r = analyze(&env, &fps, &no_config(), false, false, false);
    assert_eq!(r.rust_parameters.len(), 1);
    assert_eq!(r.transformations[0].ind_rust, Some(0));
}

#[test]
fn out_parameter_in_async_function_is_not_surfaced() {
    let env = Env {
        types: vec![typedef(ConversionType::Pointer, TypeShape::Other, "Obj")],
    };
    let fps = vec![param("result", 0, ParameterDirection::Out)];
    let r = analyze(&env, &fps, &no_config(), false, true, false);
    assert_eq!(r.rust_parameters.len(), 0);
}

#[test]
fn return_direction_is_never_surfaced() {
    let env = Env {
        types: vec![typedef(ConversionType::Pointer, TypeShape::Other, "Obj")],
    };
    let fps = vec![param("ret", 0, ParameterDirection::Return)];
    let r = analyze(&env, &fps, &no_config(), false, false, false);
    assert_eq!(r.rust_parameters.len(), 0);
    assert_eq!(r.c_parameters.len(), 1);
}

#[test]
fn back_link_folds_length_without_heuristic_name() {
    let env = Env {
        types: vec![
            typedef(ConversionType::Pointer, TypeShape::CArray, "Vec<u8>"),
            typedef(ConversionType::Direct, TypeShape::Other, "usize"),
        ],
    };
    let mut array = param("items", 0, ParameterDirection::In);
    array.array_length = Some(1);
    let count = param("n", 1, ParameterDirection::In);
    let r = analyze(&env, &vec![array, count], &no_config(), false, false, false);

    assert_eq!(r.rust_parameters.len(), 1);
    match &r.transformations[1].transformation_type {
        TransformationType::Length { array_name, array_length_name, .. } => {
            assert_eq!(array_name.as_str(), "items");
            assert_eq!(array_length_name.as_str(), "n");
        }
        other => panic!("expected a length link, got {:?}", other),
    }
}

#[test]
fn config_length_of_wins_over_everything() {
    let env = Env {
        types: vec![typedef(ConversionType::Direct, TypeShape::Other, "usize")],
    };
    let mut cfg = config("n");
    cfg.length_of = Some("items".to_string());
    let fps = vec![param("n", 0, ParameterDirection::In)];
    let r = analyze(&env, &fps, &vec![cfg], false, false, false);

    assert_eq!(r.rust_parameters.len(), 0);
    match &r.transformations[0].transformation_type {
        TransformationType::Length { array_name, array_length_name, .. } => {
            assert_eq!(array_name.as_str(), "items");
            assert_eq!(array_length_name.as_str(), "n");
        }
        other => panic!("expected a length link, got {:?}", other),
    }
}

#[test]
fn length_link_array_name_is_mangled() {
    let env = Env {
        types: vec![
            typedef(ConversionType::Pointer, TypeShape::CArray, "Vec<u8>"),
            typedef(ConversionType::Direct, TypeShape::Other, "usize"),
        ],
    };
    let array = param("in", 0, ParameterDirection::In);
    let r = analyze(
        &env,
        &vec![array, param("len", 1, ParameterDirection::In)],
        &no_config(),
        false,
        false,
        false,
    );

    // the array parameter itself is mangled on the surface, and the length
    // link names the mangled spelling
    assert_eq!(r.rust_parameters[0].name.as_str(), "in_");
    match &r.transformations[1].transformation_type {
        TransformationType::Length { array_name, .. } => assert_eq!(array_name.as_str(), "in_"),
        other => panic!("expected a length link, got {:?}", other),
    }
}

#[test]
fn first_parameter_named_len_is_not_folded() {
    let env = Env {
        types: vec![typedef(ConversionType::Direct, TypeShape::Other, "usize")],
    };
    let fps = vec![param("len", 0, ParameterDirection::In)];
    let r = analyze(&env, &fps, &no_config(), false, false, false);
    assert_eq!(r.rust_parameters.len(), 1);
    match &r.transformations[0].transformation_type {
        TransformationType::ToGlibDirect { name } => assert_eq!(name.as_str(), "len"),
        other => panic!("expected a direct conversion, got {:?}", other),
    }
}

#[test]
fn out_length_parameter_is_not_folded() {
    let env = array_env();
    let fps = vec![
        param("data", 0, ParameterDirection::In),
        param("len", 1, ParameterDirection::Out),
    ];
    let r = analyze(&env, &fps, &no_config(), false, false, false);
    // the heuristic only accepts inbound length parameters
    assert!(matches!(
        r.transformations[1].transformation_type,
        TransformationType::ToGlibDirect { .. }
    ));
}

#[test]
fn length_detected_through_alias_and_length_in_name() {
    let env = Env {
        types: vec![
            typedef(ConversionType::Pointer, TypeShape::Alias(2), "StrList"),
            typedef(ConversionType::Direct, TypeShape::Other, "u32"),
            typedef(ConversionType::Pointer, TypeShape::GrowableArray, "Vec<String>"),
        ],
    };
    let fps = vec![
        param("strings", 0, ParameterDirection::In),
        param("string_length_hint", 1, ParameterDirection::In),
    ];
    let r = analyze(&env, &fps, &no_config(), false, false, false);
    assert!(matches!(
        r.transformations[1].transformation_type,
        TransformationType::Length { .. }
    ));
}

#[test]
fn nullable_override_changes_native_not_surface() {
    let env = Env {
        types: vec![typedef(ConversionType::Pointer, TypeShape::Other, "Obj")],
    };
    let mut p = param("obj", 0, ParameterDirection::In);
    p.nullable = true;
    let mut cfg = config("obj");
    cfg.nullable = Some(false);
    let r = analyze(&env, &vec![p], &vec![cfg], false, false, false);

    assert!(!r.c_parameters[0].nullable);
    // the surface allow-absent flag keeps the declared nullability
    assert!(r.rust_parameters[0].allow_none);
}

#[test]
fn constant_override_downgrades_exclusive_reference() {
    let env = Env {
        types: vec![typedef(ConversionType::Pointer, TypeShape::Other, "Obj")],
    };
    let p = param("obj", 0, ParameterDirection::InOut);
    let r = analyze(&env, &vec![p.clone()], &no_config(), false, false, false);
    assert_eq!(r.c_parameters[0].ref_mode, RefMode::ByRefMut);

    let mut cfg = config("obj");
    cfg.constant = true;
    let r2 = analyze(&env, &vec![p], &vec![cfg], false, false, false);
    assert_eq!(r2.c_parameters[0].ref_mode, RefMode::ByRef);
}

#[test]
fn trait_receiver_avoids_exclusive_reference() {
    let env = Env {
        types: vec![typedef(ConversionType::Pointer, TypeShape::Other, "Obj")],
    };
    let mut receiver = param("self", 0, ParameterDirection::InOut);
    receiver.instance_parameter = true;
    let r = analyze(&env, &vec![receiver.clone()], &no_config(), false, false, true);
    assert_eq!(r.c_parameters[0].ref_mode, RefMode::ByRef);
    // outside a trait context the receiver keeps exclusive access
    let r2 = analyze(&env, &vec![receiver], &no_config(), false, false, false);
    assert_eq!(r2.c_parameters[0].ref_mode, RefMode::ByRefMut);
}

#[test]
fn string_type_override_changes_working_type() {
    let env = Env {
        types: vec![
            typedef(ConversionType::Direct, TypeShape::Other, "u32"),
            typedef(ConversionType::Pointer, TypeShape::NativeString, "String"),
        ],
    };
    let mut cfg = config("path");
    cfg.string_type = Some(1);
    let fps = vec![param("path", 0, ParameterDirection::In)];
    let r = analyze(&env, &fps, &vec![cfg], false, false, false);

    assert_eq!(r.c_parameters[0].typ, 1);
    assert!(matches!(
        r.transformations[0].transformation_type,
        TransformationType::ToGlibPointer { .. }
    ));
}

#[test]
fn keyword_parameter_is_mangled_receiver_is_not() {
    let env = Env {
        types: vec![typedef(ConversionType::Pointer, TypeShape::Other, "Obj")],
    };
    let keyword = param("type", 0, ParameterDirection::In);
    let mut receiver = param("type", 0, ParameterDirection::In);
    receiver.instance_parameter = true;
    let r = analyze(&env, &vec![keyword, receiver], &no_config(), false, false, false);

    assert_eq!(r.c_parameters[0].name.as_str(), "type_");
    assert_eq!(r.c_parameters[1].name.as_str(), "type");
}

#[test]
fn unknown_type_identifier_degrades_to_unknown() {
    let env = Env { types: vec![] };
    let fps = vec![param("mystery", 7, ParameterDirection::In)];
    let r = analyze(&env, &fps, &no_config(), false, false, false);
    assert!(matches!(
        r.transformations[0].transformation_type,
        TransformationType::ToGlibUnknown { .. }
    ));
}

#[test]
fn borrow_category_gives_borrow_step() {
    let env = Env {
        types: vec![typedef(ConversionType::Borrow, TypeShape::Other, "B")],
    };
    let fps = vec![param("b", 0, ParameterDirection::In)];
    let r = analyze(&env, &fps, &no_config(), false, false, false);
    assert!(matches!(
        r.transformations[0].transformation_type,
        TransformationType::ToGlibBorrow
    ));
}

#[test]
fn classification_is_idempotent_and_resolves_aliases() {
    let env = Env {
        types: vec![
            typedef(ConversionType::Unknown, TypeShape::Alias(1), "A"),
            typedef(ConversionType::Scalar, TypeShape::Other, "i64"),
        ],
    };
    let first = ConversionType::of(&env, 0);
    let second = ConversionType::of(&env, 0);
    assert_eq!(first, second);
    assert_eq!(first, ConversionType::Scalar);
}

#[test]
fn alias_cycle_degrades_to_unknown() {
    let env = Env {
        types: vec![
            typedef(ConversionType::Pointer, TypeShape::Alias(1), "A"),
            typedef(ConversionType::Pointer, TypeShape::Alias(0), "B"),
        ],
    };
    assert_eq!(ConversionType::of(&env, 0), ConversionType::Unknown);
    assert!(!has_length(&env, 0));
}

#[test]
fn has_length_sees_through_aliases() {
    let env = Env {
        types: vec![
            typedef(ConversionType::Pointer, TypeShape::Alias(1), "A"),
            typedef(ConversionType::Pointer, TypeShape::HashTable, "Map"),
            typedef(ConversionType::Scalar, TypeShape::Other, "i64"),
        ],
    };
    assert!(has_length(&env, 0));
    assert!(has_length(&env, 1));
    assert!(!has_length(&env, 2));
    assert!(!has_length(&env, 9));
}

#[test]
fn is_length_checks_direction_and_name() {
    let env = array_env();
    assert!(is_length(&param("buflen", 1, ParameterDirection::In)));
    assert!(is_length(&param("the_length_of_it", 1, ParameterDirection::In)));
    assert!(!is_length(&param("buflen", 1, ParameterDirection::Out)));
    assert!(!is_length(&param("count", 1, ParameterDirection::In)));
    let _ = &env;
}

#[test]
fn async_param_to_remove_matches_data_suffix() {
    assert!(async_param_to_remove("user_data"));
    assert!(async_param_to_remove("progress_data"));
    assert!(!async_param_to_remove("callback"));
    assert!(!async_param_to_remove("datastore"));
}

#[test]
fn mangle_keywords_appends_underscore() {
    assert_eq!(mangle_keywords("in").as_str(), "in_");
    assert_eq!(mangle_keywords("type").as_str(), "type_");
    assert_eq!(mangle_keywords("data").as_str(), "data");
    assert_eq!(mangle_keywords("").as_str(), "");
}

#[test]
fn analyze_return_appends_one_length_link() {
    let env = array_env();
    let fps = vec![param("out_items", 0, ParameterDirection::Out)];
    let mut r = analyze(&env, &fps, &no_config(), false, false, false);
    let mut ret = param("ret", 0, ParameterDirection::Return);
    ret.array_length = Some(0);
    r.analyze_return(&env, &Some(ret));

    assert_eq!(r.transformations.len(), 2);
    let appended = &r.transformations[1];
    assert_eq!(appended.ind_c, 0);
    assert_eq!(appended.ind_rust, None);
    match &appended.transformation_type {
        TransformationType::Length { array_name, array_length_name, array_length_type } => {
            assert_eq!(array_name.as_str(), "");
            assert_eq!(array_length_name.as_str(), "out_items");
            assert_eq!(array_length_type.as_str(), "Vec<u8>");
        }
        other => panic!("expected a length link, got {:?}", other),
    }
}

#[test]
fn analyze_return_without_link_changes_nothing() {
    let env = array_env();
    let fps = vec![param("data", 0, ParameterDirection::In)];
    let mut r = analyze(&env, &fps, &no_config(), false, false, false);
    r.analyze_return(&env, &None);
    assert_eq!(r.transformations.len(), 1);
    let ret = param("ret", 0, ParameterDirection::Return);
    r.analyze_return(&env, &Some(ret));
    assert_eq!(r.transformations.len(), 1);
}

#[test]
fn analyze_return_ignores_out_of_range_link() {
    let env = array_env();
    let fps = vec![param("data", 0, ParameterDirection::In)];
    let mut r = analyze(&env, &fps, &no_config(), false, false, false);
    let mut ret = param("ret", 0, ParameterDirection::Return);
    ret.array_length = Some(9);
    r.analyze_return(&env, &Some(ret));
    assert_eq!(r.transformations.len(), 1);
}

#[test]
fn is_to_glib_is_false_only_for_length_links() {
    let env = array_env();
    let link = get_length_type(&env, "data", "len", 1);
    assert!(!link.is_to_glib());
    assert!(TransformationType::ToGlibBorrow.is_to_glib());
    assert!(TransformationType::ToSome("callback".to_string()).is_to_glib());
    assert!(TransformationType::IntoRaw("user_data".to_string()).is_to_glib());
    assert!(TransformationType::ToGlibDirect { name: "x".to_string() }.is_to_glib());
}

#[test]
fn set_to_glib_extra_rewrites_only_pointer_steps() {
    let env = Env {
        types: vec![typedef(ConversionType::Pointer, TypeShape::Other, "Obj")],
    };
    let fps = vec![param("obj", 0, ParameterDirection::In)];
    let mut r = analyze(&env, &fps, &no_config(), false, false, false);
    r.transformations[0]
        .transformation_type
        .set_to_glib_extra(".upcast()");
    match &r.transformations[0].transformation_type {
        TransformationType::ToGlibPointer { name, to_glib_extra, .. } => {
            assert_eq!(name.as_str(), "obj");
            assert_eq!(to_glib_extra.as_str(), ".upcast()");
        }
        other => panic!("expected a pointer conversion, got {:?}", other),
    }

    let mut direct = TransformationType::ToGlibDirect { name: "x".to_string() };
    direct.set_to_glib_extra(".upcast()");
    assert!(matches!(direct, TransformationType::ToGlibDirect { .. }));
}

#[test]
fn get_length_type_renders_the_length_type() {
    let env = array_env();
    let step = get_length_type(&env, "buf", "n", 1);
    match step {
        TransformationType::Length { array_name, array_length_name, array_length_type } => {
            assert_eq!(array_name.as_str(), "buf");
            assert_eq!(array_length_name.as_str(), "n");
            assert_eq!(array_length_type.as_str(), "usize");
        }
        other => panic!("expected a length link, got {:?}", other),
    }
    // an unknown identifier renders as empty text
    let unknown = get_length_type(&env, "buf", "n", 42);
    match unknown {
        TransformationType::Length { array_length_type, .. } => {
            assert_eq!(array_length_type.as_str(), "");
        }
        other => panic!("expected a length link, got {:?}", other),
    }
}

#[test]
fn parameters_new_and_default_are_empty() {
    let fresh = Parameters::new(8);
    assert_eq!(fresh.rust_parameters.len(), 0);
    assert_eq!(fresh.c_parameters.len(), 0);
    assert_eq!(fresh.transformations.len(), 0);
    let defaulted = Parameters::default();
    assert_eq!(defaulted.transformations.len(), 0);
}

#[test]
fn native_list_matches_descriptor_list_one_to_one() {
    let env = array_env();
    let fps = vec![
        param("data", 0, ParameterDirection::In),
        param("len", 1, ParameterDirection::In),
        param("extra", 1, ParameterDirection::Out),
        param("ret", 0, ParameterDirection::Return),
    ];
    let r = analyze(&env, &fps, &no_config(), false, false, false);
    assert_eq!(r.c_parameters.len(), fps.len());
    for (k, t) in r.transformations.iter().enumerate() {
        assert!(t.ind_c < r.c_parameters.len());
        assert_eq!(t.ind_c, k);
        if let Some(j) = t.ind_rust {
            assert!(j < r.rust_parameters.len());
        }
    }
}

#[test]
fn native_fields_pass_through() {
    let env = array_env();
    let mut p = param("data", 0, ParameterDirection::InOut);
    p.is_error = true;
    p.scope = ParameterScope::Notified;
    p.closure = Some(4);
    p.destroy = Some(5);
    let r = analyze(&env, &vec![p], &no_config(), false, false, false);
    let cp = &r.c_parameters[0];
    assert!(cp.is_error);
    assert_eq!(cp.scope, ParameterScope::Notified);
    assert_eq!(cp.user_data_index, Some(4));
    assert_eq!(cp.destroy_index, Some(5));
    assert_eq!(cp.c_type.as_str(), "c_data");
    assert_eq!(cp.direction, ParameterDirection::InOut);
}

#[test]
fn config_entries_match_the_mangled_name() {
    let env = Env {
        types: vec![typedef(ConversionType::Pointer, TypeShape::Other, "Obj")],
    };
    let p = param("in", 0, ParameterDirection::In);

    let mut mangled_cfg = config("in_");
    mangled_cfg.nullable = Some(true);
    let r = analyze(&env, &vec![p.clone()], &vec![mangled_cfg], false, false, false);
    assert!(r.c_parameters[0].nullable);

    let mut declared_cfg = config("in");
    declared_cfg.nullable = Some(true);
    let r2 = analyze(&env, &vec![p], &vec![declared_cfg], false, false, false);
    assert!(!r2.c_parameters[0].nullable);
}

#[test]
fn first_matching_override_wins() {
    let env = Env {
        types: vec![typedef(ConversionType::Pointer, TypeShape::Other, "Obj")],
    };
    let p = param("obj", 0, ParameterDirection::In);
    let mut first = config("obj");
    first.nullable = Some(true);
    let mut second = config("obj");
    second.nullable = Some(false);
    let r = analyze(&env, &vec![p], &vec![first, second], false, false, false);
    assert!(r.c_parameters[0].nullable);
}
