use cpp_glue::conversion::{
    GenError, RustConversionType, RustPattern, TypeConversionPolicy, TypeDatabase, UnwrappedType,
};

fn plain(id: &str) -> UnwrappedType {
    UnwrappedType::Plain { id: id.to_string() }
}

fn pointer(pointee: &str) -> UnwrappedType {
    UnwrappedType::Pointer {
        pointee: pointee.to_string(),
    }
}

fn policy(t: UnwrappedType, c: RustConversionType) -> TypeConversionPolicy {
    TypeConversionPolicy {
        unwrapped_type: t,
        rust_conversion: c,
    }
}

fn ident(name: &str) -> RustPattern {
    RustPattern::Ident {
        name: name.to_string(),
    }
}

#[test]
fn rust_wrapper_types_for_each_policy() {
    assert_eq!(
        policy(plain("i32"), RustConversionType::NoConversion)
            .rust_wrapper_unconverted_type()
            .unwrap(),
        "i32"
    );
    assert_eq!(
        policy(pointer("A"), RustConversionType::NoConversion)
            .rust_wrapper_unconverted_type()
            .unwrap(),
        "*mut A"
    );
    assert_eq!(
        policy(plain("i32"), RustConversionType::FromStr)
            .rust_wrapper_unconverted_type()
            .unwrap(),
        "impl ToCppString"
    );
    assert_eq!(
        policy(
            plain("A"),
            RustConversionType::ToBoxedUpHolder {
                subclass: "MySub".to_string()
            }
        )
        .rust_wrapper_unconverted_type()
        .unwrap(),
        "autocxx::subclass::CppSubclassRustPeerHolder<super::super::super::MySub>"
    );
    assert_eq!(
        policy(pointer("A"), RustConversionType::FromPinMaybeUninitToPtr)
            .rust_wrapper_unconverted_type()
            .unwrap(),
        "::std::pin::Pin<&mut ::std::mem::MaybeUninit<A>>"
    );
    assert_eq!(
        policy(pointer("A"), RustConversionType::FromPinMoveRefToPtr)
            .rust_wrapper_unconverted_type()
            .unwrap(),
        "::std::pin::Pin<autocxx::moveit::MoveRef<'_, A>>"
    );
    assert_eq!(
        policy(pointer("A"), RustConversionType::FromTypeToPtr)
            .rust_wrapper_unconverted_type()
            .unwrap(),
        "&mut A"
    );
    assert_eq!(
        policy(plain("A"), RustConversionType::FromValueParamToPtr)
            .rust_wrapper_unconverted_type()
            .unwrap(),
        "impl autocxx::ValueParam<A>"
    );
}

#[test]
fn pointer_deriving_policy_on_non_pointer_is_refused() {
    for c in [
        RustConversionType::FromPinMaybeUninitToPtr,
        RustConversionType::FromPinMoveRefToPtr,
        RustConversionType::FromTypeToPtr,
    ] {
        let p = policy(plain("A"), c);
        assert_eq!(
            p.rust_wrapper_unconverted_type(),
            Err(GenError::NotAPointer)
        );
    }
}

#[test]
fn conversion_expressions_without_setup() {
    let db_free = |p: TypeConversionPolicy, var: RustPattern| {
        let (setup, expr) = p.rust_conversion(&var, false).unwrap();
        assert!(setup.is_none());
        expr
    };
    assert_eq!(
        db_free(policy(plain("i32"), RustConversionType::NoConversion), ident("x")),
        "x"
    );
    assert_eq!(
        db_free(policy(plain("i32"), RustConversionType::FromStr), ident("s")),
        "s.into_cpp()"
    );
    assert_eq!(
        db_free(
            policy(
                plain("A"),
                RustConversionType::ToBoxedUpHolder {
                    subclass: "MySub".to_string()
                }
            ),
            ident("x")
        ),
        "Box::new(MySubHolder(x))"
    );
    assert_eq!(
        db_free(
            policy(pointer("A"), RustConversionType::FromPinMaybeUninitToPtr),
            ident("v")
        ),
        "v.get_unchecked_mut().as_mut_ptr()"
    );
    assert_eq!(
        db_free(
            policy(pointer("A"), RustConversionType::FromPinMoveRefToPtr),
            ident("v")
        ),
        "{ let r: &mut _ = ::std::pin::Pin::into_inner_unchecked(v.as_mut()); r }"
    );
    assert_eq!(
        db_free(policy(pointer("A"), RustConversionType::FromTypeToPtr), ident("v")),
        "v"
    );
}

#[test]
fn value_param_adaptation_for_ident_binding() {
    let p = policy(plain("A"), RustConversionType::FromValueParamToPtr);
    let (setup, expr) = p.rust_conversion(&ident("x"), false).unwrap();
    assert_eq!(
        setup.unwrap(),
        "let mut x_space = autocxx::ValueParamHandler::new(x); \
         let x_space = &mut x_space; x_space.populate();"
    );
    assert_eq!(expr, "x_space.get_ptr()");

    let (setup, expr) = p.rust_conversion(&ident("x"), true).unwrap();
    assert_eq!(
        setup.unwrap(),
        "let mut x_space = autocxx::ValueParamHandler::new(x); \
         let x_space = &mut x_space; unsafe { x_space.populate() };"
    );
    assert_eq!(expr, "x_space.get_ptr()");
}

#[test]
fn value_param_on_non_ident_binding_is_refused() {
    let p = policy(plain("A"), RustConversionType::FromValueParamToPtr);
    let destructuring = RustPattern::Other {
        text: "(a, b)".to_string(),
    };
    assert_eq!(
        p.rust_conversion(&destructuring, false),
        Err(GenError::NonIdentPattern)
    );
}

#[test]
fn cpp_side_types_and_passthrough_conversion() {
    let mut db = TypeDatabase::new();
    db.insert("A", "ns::A");
    assert_eq!(
        policy(plain("A"), RustConversionType::NoConversion).unconverted_type(&db),
        "ns::A"
    );
    assert_eq!(
        policy(pointer("A"), RustConversionType::NoConversion).unconverted_type(&db),
        "ns::A*"
    );
    assert_eq!(
        policy(plain("B"), RustConversionType::NoConversion).unconverted_type(&db),
        "B"
    );
    assert_eq!(
        policy(plain("A"), RustConversionType::NoConversion).converted_type(&db),
        "ns::A"
    );
    assert_eq!(
        policy(plain("A"), RustConversionType::NoConversion).conversion("arg0", &db),
        "arg0"
    );
}

#[test]
fn type_database_first_entry_wins() {
    let mut db = TypeDatabase::new();
    db.insert("A", "first::A");
    db.insert("A", "second::A");
    let p = policy(plain("A"), RustConversionType::NoConversion);
    assert_eq!(p.unconverted_type(&db), "first::A");
}
