use cpp_glue::conversion::{
    GenError, RustConversionType, TypeConversionPolicy, TypeDatabase, UnwrappedType,
};
use cpp_glue::generator::{
    AdditionalCppGenerator, AdditionalNeed, FunctionWrapper, FunctionWrapperPayload,
};

fn none_policy(id: &str) -> TypeConversionPolicy {
    TypeConversionPolicy {
        unwrapped_type: UnwrappedType::Plain { id: id.to_string() },
        rust_conversion: RustConversionType::NoConversion,
    }
}

fn wrapper_need(
    name: &str,
    is_a_method: bool,
    payload: FunctionWrapperPayload,
    args: Vec<TypeConversionPolicy>,
    ret: Option<TypeConversionPolicy>,
) -> AdditionalNeed {
    AdditionalNeed::FunctionWrapper(Box::new(FunctionWrapper {
        payload,
        wrapper_function_name: name.to_string(),
        is_a_method,
        argument_conversion: args,
        return_conversion: ret,
    }))
}

#[test]
fn materialize_none_when_no_needs() {
    let gen = AdditionalCppGenerator::new(String::new());
    assert!(gen.generate().is_none());

    let mut gen = AdditionalCppGenerator::new(String::new());
    let db = TypeDatabase::new();
    assert!(gen.add_needs(Vec::new(), &db).is_ok());
    assert!(gen.generate().is_none());
}

#[test]
fn materialize_some_after_one_need() {
    let mut gen = AdditionalCppGenerator::new(String::new());
    let db = TypeDatabase::new();
    gen.add_needs(vec![AdditionalNeed::MakeStringConstructor], &db)
        .unwrap();
    assert!(gen.generate().is_some());
}

#[test]
fn string_constructor_exact_text() {
    let mut gen = AdditionalCppGenerator::new(String::new());
    let db = TypeDatabase::new();
    gen.add_needs(vec![AdditionalNeed::MakeStringConstructor], &db)
        .unwrap();
    let out = gen.generate().unwrap();
    assert_eq!(
        out.declarations,
        "#include <memory>\n#include <string>\n#include \"cxx.h\"\n\n\
         std::unique_ptr<std::string> make_string(::rust::Str str);\n"
    );
    assert_eq!(
        out.definitions,
        "#include \"autocxxgen.h\"\n\
         std::unique_ptr<std::string> make_string(::rust::Str str) \
         { return std::make_unique<std::string>(std::string(str)); }\n"
    );
}

#[test]
fn free_function_wrapper_two_args_with_return() {
    let mut gen = AdditionalCppGenerator::new(String::new());
    let db = TypeDatabase::new();
    let need = wrapper_need(
        "wrap",
        false,
        FunctionWrapperPayload::FunctionCall {
            namespace: Vec::new(),
            id: "foo".to_string(),
        },
        vec![none_policy("int"), none_policy("int")],
        Some(none_policy("int")),
    );
    gen.add_needs(vec![need], &db).unwrap();
    let out = gen.generate().unwrap();
    assert!(out
        .declarations
        .contains("int wrap(int arg0, int arg1);"));
    assert!(out
        .definitions
        .contains("int wrap(int arg0, int arg1) { return foo(arg0, arg1); }"));
}

#[test]
fn method_wrapper_uses_receiver_name_and_bare_statement() {
    let mut gen = AdditionalCppGenerator::new(String::new());
    let db = TypeDatabase::new();
    let need = wrapper_need(
        "A_bar",
        true,
        FunctionWrapperPayload::FunctionCall {
            namespace: Vec::new(),
            id: "bar".to_string(),
        },
        vec![none_policy("A"), none_policy("int")],
        None,
    );
    gen.add_needs(vec![need], &db).unwrap();
    let out = gen.generate().unwrap();
    assert!(out
        .declarations
        .contains("void A_bar(A autocxx_gen_this, int arg1);"));
    assert!(out
        .definitions
        .contains("void A_bar(A autocxx_gen_this, int arg1) { autocxx_gen_this.bar(arg1); }"));
    assert!(!out.definitions.contains("return"));
}

#[test]
fn namespaced_free_function_and_static_method() {
    let mut gen = AdditionalCppGenerator::new(String::new());
    let db = TypeDatabase::new();
    let free = wrapper_need(
        "make_thing",
        false,
        FunctionWrapperPayload::FunctionCall {
            namespace: vec!["outer".to_string(), "inner".to_string()],
            id: "thing".to_string(),
        },
        Vec::new(),
        None,
    );
    let stat = wrapper_need(
        "T_create",
        false,
        FunctionWrapperPayload::StaticMethodCall {
            namespace: vec!["ns1".to_string()],
            ty_id: "T".to_string(),
            fn_id: "create".to_string(),
        },
        vec![none_policy("int")],
        None,
    );
    gen.add_needs(vec![free, stat], &db).unwrap();
    let out = gen.generate().unwrap();
    assert!(out
        .definitions
        .contains("void make_thing() { outer::inner::thing(); }"));
    assert!(out
        .definitions
        .contains("void T_create(int arg0) { ns1::T::create(arg0); }"));
}

#[test]
fn constructor_payload_emits_argument_list() {
    let mut gen = AdditionalCppGenerator::new(String::new());
    let db = TypeDatabase::new();
    let need = wrapper_need(
        "A_make",
        false,
        FunctionWrapperPayload::Constructor,
        vec![none_policy("int"), none_policy("char")],
        None,
    );
    gen.add_needs(vec![need], &db).unwrap();
    let out = gen.generate().unwrap();
    assert!(out
        .definitions
        .contains("void A_make(int arg0, char arg1) { arg0, arg1; }"));
}

#[test]
fn one_function_per_need_in_submission_order() {
    let mut gen = AdditionalCppGenerator::new(String::new());
    let db = TypeDatabase::new();
    let w1 = wrapper_need(
        "first",
        false,
        FunctionWrapperPayload::FunctionCall {
            namespace: Vec::new(),
            id: "f1".to_string(),
        },
        Vec::new(),
        None,
    );
    let w2 = wrapper_need(
        "second",
        false,
        FunctionWrapperPayload::FunctionCall {
            namespace: Vec::new(),
            id: "f2".to_string(),
        },
        Vec::new(),
        None,
    );
    gen.add_needs(vec![AdditionalNeed::MakeStringConstructor, w1, w2], &db)
        .unwrap();
    let out = gen.generate().unwrap();
    let i_ctor = out.declarations.find("make_string").unwrap();
    let i_first = out.declarations.find("void first()").unwrap();
    let i_second = out.declarations.find("void second()").unwrap();
    assert!(i_ctor < i_first && i_first < i_second);
    assert_eq!(out.declarations.matches("void first();").count(), 1);
    assert_eq!(out.declarations.matches("void second();").count(), 1);
}

#[test]
fn headers_deduplicated_and_order_stable() {
    let db = TypeDatabase::new();
    let build = || {
        let mut gen = AdditionalCppGenerator::new(String::new());
        let w = wrapper_need(
            "w",
            false,
            FunctionWrapperPayload::FunctionCall {
                namespace: Vec::new(),
                id: "f".to_string(),
            },
            Vec::new(),
            None,
        );
        gen.add_needs(
            vec![
                AdditionalNeed::MakeStringConstructor,
                AdditionalNeed::MakeStringConstructor,
                w,
            ],
            &db,
        )
        .unwrap();
        gen
    };
    let out1 = build().generate().unwrap();
    // Three needs all require <memory>; it appears exactly once.
    assert_eq!(out1.declarations.matches("#include <memory>").count(), 1);
    assert_eq!(out1.declarations.matches("#include <string>").count(), 1);
    assert_eq!(out1.declarations.matches("#include \"cxx.h\"").count(), 1);
    // System headers come first, sorted by name, then local headers.
    assert!(
        out1.declarations
            .starts_with("#include <memory>\n#include <string>\n#include \"cxx.h\"\n")
    );
    // Repeated runs over the same input give byte-identical output.
    let out2 = build().generate().unwrap();
    assert_eq!(out1.declarations, out2.declarations);
    assert_eq!(out1.definitions, out2.definitions);
    let again = build();
    assert_eq!(
        again.generate().unwrap().declarations,
        again.generate().unwrap().declarations
    );
}

#[test]
fn inclusions_preamble_stands_between_headers_and_declarations() {
    let mut gen = AdditionalCppGenerator::new("#include \"extra.h\"".to_string());
    let db = TypeDatabase::new();
    gen.add_needs(vec![AdditionalNeed::MakeStringConstructor], &db)
        .unwrap();
    let out = gen.generate().unwrap();
    assert_eq!(
        out.declarations,
        "#include <memory>\n#include <string>\n#include \"cxx.h\"\n\
         #include \"extra.h\"\n\
         std::unique_ptr<std::string> make_string(::rust::Str str);\n"
    );
}

#[test]
fn argument_names_carry_decimal_positions_past_nine() {
    let mut gen = AdditionalCppGenerator::new(String::new());
    let db = TypeDatabase::new();
    let args: Vec<_> = (0..11).map(|_| none_policy("int")).collect();
    let need = wrapper_need(
        "many",
        false,
        FunctionWrapperPayload::FunctionCall {
            namespace: Vec::new(),
            id: "f".to_string(),
        },
        args,
        None,
    );
    gen.add_needs(vec![need], &db).unwrap();
    let out = gen.generate().unwrap();
    assert!(out.declarations.contains("int arg9, int arg10);"));
    assert!(out.definitions.contains("f(arg0, arg1, arg2, arg3, arg4, arg5, arg6, arg7, arg8, arg9, arg10);"));
}

#[test]
fn method_with_only_receiver_calls_without_arguments() {
    let mut gen = AdditionalCppGenerator::new(String::new());
    let db = TypeDatabase::new();
    let need = wrapper_need(
        "A_go",
        true,
        FunctionWrapperPayload::FunctionCall {
            namespace: Vec::new(),
            id: "go".to_string(),
        },
        vec![none_policy("A")],
        None,
    );
    gen.add_needs(vec![need], &db).unwrap();
    let out = gen.generate().unwrap();
    assert!(out
        .definitions
        .contains("void A_go(A autocxx_gen_this) { autocxx_gen_this.go(); }"));
}

#[test]
fn receiver_without_arguments_is_refused() {
    let mut gen = AdditionalCppGenerator::new(String::new());
    let db = TypeDatabase::new();
    let bad = wrapper_need(
        "broken",
        true,
        FunctionWrapperPayload::FunctionCall {
            namespace: Vec::new(),
            id: "m".to_string(),
        },
        Vec::new(),
        None,
    );
    let res = gen.add_needs(vec![AdditionalNeed::MakeStringConstructor, bad], &db);
    assert_eq!(res, Err(GenError::ReceiverWithoutArguments));
    // The failed submission left the generator untouched.
    assert!(gen.generate().is_none());
}

#[test]
fn type_database_resolves_known_identifiers() {
    let mut db = TypeDatabase::new();
    db.insert("A", "ns::A");
    let mut gen = AdditionalCppGenerator::new(String::new());
    let need = wrapper_need(
        "use_a",
        false,
        FunctionWrapperPayload::FunctionCall {
            namespace: Vec::new(),
            id: "f".to_string(),
        },
        vec![
            none_policy("A"),
            TypeConversionPolicy {
                unwrapped_type: UnwrappedType::Pointer {
                    pointee: "A".to_string(),
                },
                rust_conversion: RustConversionType::NoConversion,
            },
            none_policy("B"),
        ],
        None,
    );
    gen.add_needs(vec![need], &db).unwrap();
    let out = gen.generate().unwrap();
    assert!(out
        .declarations
        .contains("void use_a(ns::A arg0, ns::A* arg1, B arg2);"));
}
