use ffi_gen::abi::signature::DeriveError;
use ffi_gen::abi::{
    Abi, AbiFunction, AbiFuture, AbiObject, AbiStream, AbiType, FunctionType, NumType,
};
use ffi_gen::parser::{Function, Interface, Object, Type};

fn function(ident: &str, args: Vec<(&str, Type)>, ret: Option<Type>) -> Function {
    Function {
        doc: vec![format!("about {}", ident)],
        is_static: false,
        ident: ident.to_string(),
        args: args.into_iter().map(|(n, ty)| (n.to_string(), ty)).collect(),
        ret,
    }
}

fn greeter() -> Interface {
    let mut new = function("new", vec![], Some(Type::Ident("Greeter".to_string())));
    new.is_static = true;
    Interface {
        doc: vec!["A greeter".to_string()],
        functions: vec![
            function("hello", vec![("who", Type::Ref(Box::new(Type::String)))], None),
            function(
                "fetch",
                vec![("id", Type::U32)],
                Some(Type::Future(Box::new(Type::Result(Box::new(Type::Vec(Box::new(Type::U8))))))),
            ),
        ],
        objects: vec![Object {
            doc: vec!["The main entry point.".to_string()],
            ident: "Greeter".to_string(),
            methods: vec![
                new,
                function("greet", vec![], Some(Type::String)),
                function(
                    "watch",
                    vec![("other", Type::Ref(Box::new(Type::Ident("Greeter".to_string()))))],
                    Some(Type::Option(Box::new(Type::Stream(Box::new(Type::Bool))))),
                ),
            ],
        }],
    }
}

#[test]
fn is_object_finds_declared_objects_only() {
    let iface = greeter();
    assert!(iface.is_object("Greeter"));
    assert!(!iface.is_object("greeter"));
    assert!(!iface.is_object("Greete"));
    assert!(!iface.is_object(""));
}

#[test]
fn to_type_maps_every_written_form() {
    let iface = greeter();
    let cases = vec![
        (Type::U8, AbiType::Num(NumType::U8)),
        (Type::U16, AbiType::Num(NumType::U16)),
        (Type::U32, AbiType::Num(NumType::U32)),
        (Type::U64, AbiType::Num(NumType::U64)),
        (Type::Usize, AbiType::Usize),
        (Type::I8, AbiType::Num(NumType::I8)),
        (Type::I16, AbiType::Num(NumType::I16)),
        (Type::I32, AbiType::Num(NumType::I32)),
        (Type::I64, AbiType::Num(NumType::I64)),
        (Type::Isize, AbiType::Isize),
        (Type::F32, AbiType::Num(NumType::F32)),
        (Type::F64, AbiType::Num(NumType::F64)),
        (Type::Bool, AbiType::Bool),
        (Type::String, AbiType::String),
        (Type::Ref(Box::new(Type::String)), AbiType::RefStr),
        (
            Type::Ref(Box::new(Type::Slice(Box::new(Type::I16)))),
            AbiType::RefSlice(NumType::I16),
        ),
        (Type::Vec(Box::new(Type::F64)), AbiType::Vec(NumType::F64)),
        (Type::Ident("Greeter".to_string()), AbiType::Object("Greeter".to_string())),
        (
            Type::Ref(Box::new(Type::Ident("Greeter".to_string()))),
            AbiType::RefObject("Greeter".to_string()),
        ),
        (
            Type::Option(Box::new(Type::Result(Box::new(Type::Future(Box::new(Type::Stream(
                Box::new(Type::String),
            ))))))),
            AbiType::Option(Box::new(AbiType::Result(Box::new(AbiType::Future(Box::new(
                AbiType::Stream(Box::new(AbiType::String)),
            )))))),
        ),
    ];
    for (written, portable) in cases {
        assert_eq!(iface.try_to_type(&written), Some(portable.clone()));
        assert_eq!(iface.to_type(&written), portable);
    }
}

#[test]
fn to_type_knows_no_type_for_unsupported_forms() {
    let iface = greeter();
    let cases = vec![
        Type::Ident("Unknown".to_string()),
        Type::Ref(Box::new(Type::Ident("Unknown".to_string()))),
        Type::Slice(Box::new(Type::U8)),
        Type::Ref(Box::new(Type::U8)),
        Type::Ref(Box::new(Type::Vec(Box::new(Type::U8)))),
        Type::Ref(Box::new(Type::Slice(Box::new(Type::String)))),
        Type::Vec(Box::new(Type::String)),
        Type::Vec(Box::new(Type::Usize)),
        Type::Option(Box::new(Type::Ident("Unknown".to_string()))),
        Type::Future(Box::new(Type::Slice(Box::new(Type::U8)))),
    ];
    for written in cases {
        assert_eq!(iface.try_to_type(&written), None);
    }
}

#[test]
fn functions_are_derived_in_order() {
    let iface = greeter();
    assert!(iface.check());
    assert_eq!(
        iface.functions(),
        vec![
            AbiFunction {
                doc: vec!["about hello".to_string()],
                ty: FunctionType::Function,
                name: "hello".to_string(),
                args: vec![("who".to_string(), AbiType::RefStr)],
                ret: None,
            },
            AbiFunction {
                doc: vec!["about fetch".to_string()],
                ty: FunctionType::Function,
                name: "fetch".to_string(),
                args: vec![("id".to_string(), AbiType::Num(NumType::U32))],
                ret: Some(AbiType::Future(Box::new(AbiType::Result(Box::new(AbiType::Vec(
                    NumType::U8
                )))))),
            },
        ]
    );
}

fn methods() -> Vec<AbiFunction> {
    vec![
        AbiFunction {
            doc: vec!["about new".to_string()],
            ty: FunctionType::Constructor("Greeter".to_string()),
            name: "new".to_string(),
            args: vec![],
            ret: Some(AbiType::Object("Greeter".to_string())),
        },
        AbiFunction {
            doc: vec!["about greet".to_string()],
            ty: FunctionType::Method("Greeter".to_string()),
            name: "greet".to_string(),
            args: vec![],
            ret: Some(AbiType::String),
        },
        AbiFunction {
            doc: vec!["about watch".to_string()],
            ty: FunctionType::Method("Greeter".to_string()),
            name: "watch".to_string(),
            args: vec![("other".to_string(), AbiType::RefObject("Greeter".to_string()))],
            ret: Some(AbiType::Option(Box::new(AbiType::Stream(Box::new(AbiType::Bool))))),
        },
    ]
}

#[test]
fn objects_are_derived_with_their_destructor() {
    let iface = greeter();
    assert_eq!(
        iface.objects(),
        vec![AbiObject {
            doc: vec!["The main entry point.".to_string()],
            name: "Greeter".to_string(),
            methods: methods(),
            destructor: "drop_box_Greeter".to_string(),
        }]
    );
}

#[test]
fn all_functions_are_free_functions_then_methods() {
    let iface = greeter();
    let mut expected = iface.functions();
    expected.extend(methods());
    assert_eq!(iface.all_functions(), expected);
}

#[test]
fn futures_and_streams_are_found_through_option_and_result() {
    let iface = greeter();
    assert_eq!(
        iface.futures(),
        vec![AbiFuture {
            ty: AbiType::Result(Box::new(AbiType::Vec(NumType::U8))),
            symbol: "__fetch".to_string(),
        }]
    );
    assert_eq!(
        iface.streams(),
        vec![AbiStream { ty: AbiType::Bool, symbol: "__Greeter_watch".to_string() }]
    );
}

#[test]
fn imports_cover_functions_methods_and_polls() {
    let iface = greeter();
    for abi in [Abi::Native32, Abi::Native64, Abi::Wasm32, Abi::Wasm64] {
        assert!(iface.can_import(abi));
        let imports = iface.imports(&abi);
        let symbols: Vec<&str> = imports.iter().map(|i| i.symbol.as_str()).collect();
        assert_eq!(
            symbols,
            vec![
                "__hello",
                "__fetch",
                "__Greeter_new",
                "__Greeter_greet",
                "__Greeter_watch",
                "__fetch_future_poll",
                "__Greeter_watch_stream_poll",
            ]
        );
        for (import, func) in imports.iter().zip(iface.all_functions()) {
            assert_eq!(*import, abi.import(&func));
        }
        assert_eq!(imports[5], abi.import(&iface.futures()[0].poll()));
        assert_eq!(imports[6], abi.import(&iface.streams()[0].poll()));
    }
}

#[test]
fn check_rejects_static_free_functions_and_unknown_types() {
    let mut iface = greeter();
    iface.functions[0].is_static = true;
    assert!(!iface.check());
    let mut iface = greeter();
    iface.functions[1].args[0].1 = Type::Ident("Unknown".to_string());
    assert!(!iface.check());
    let mut iface = greeter();
    iface.objects[0].methods[1].ret = Some(Type::Slice(Box::new(Type::U8)));
    assert!(!iface.check());
    let mut iface = greeter();
    iface.objects[0].ident = "Other".to_string();
    assert!(!iface.check());
    assert!(Interface { doc: vec![], functions: vec![], objects: vec![] }.check());
}

#[test]
fn validate_names_the_declaration_that_stands_in_the_way() {
    assert_eq!(greeter().validate(), Ok(()));
    let mut iface = greeter();
    iface.objects.push(iface.objects[0].clone());
    iface.functions[0].is_static = true;
    assert_eq!(iface.validate(), Err(DeriveError::DuplicateObject("Greeter".to_string())));
    assert!(!iface.check());
    let mut iface = greeter();
    iface.functions[1].is_static = true;
    iface.functions[0].ret = Some(Type::Ident("Unknown".to_string()));
    assert_eq!(iface.validate(), Err(DeriveError::StaticFunction("fetch".to_string())));
    let mut iface = greeter();
    iface.functions[0].ret = Some(Type::Ident("Unknown".to_string()));
    assert_eq!(iface.validate(), Err(DeriveError::UnsupportedType("hello".to_string())));
    let mut iface = greeter();
    iface.objects[0].methods[2].args[0].1 = Type::Result(Box::new(Type::U8));
    assert_eq!(iface.validate(), Err(DeriveError::UnsupportedType("watch".to_string())));
    let mut iface = greeter();
    iface.functions[0].args[0].1 = Type::Option(Box::new(Type::Result(Box::new(Type::U8))));
    assert_eq!(iface.validate(), Err(DeriveError::UnsupportedType("hello".to_string())));
    let mut iface = greeter();
    iface.functions[0].ret = Some(Type::Result(Box::new(Type::U8)));
    assert_eq!(iface.validate(), Ok(()));
}

#[test]
fn derive_error_messages() {
    assert_eq!(
        DeriveError::DuplicateObject("A".to_string()).message(),
        "duplicate object identifier A"
    );
    assert_eq!(
        DeriveError::StaticFunction("f".to_string()).message(),
        "static function outside of an object: f"
    );
    assert_eq!(
        DeriveError::UnsupportedType("g".to_string()).message(),
        "unsupported type in the declaration of g"
    );
}

#[test]
fn can_import_rejects_an_interface_with_a_method_that_returns_a_borrow() {
    let mut iface = greeter();
    iface.objects[0].methods[1].ret =
        Some(Type::Ref(Box::new(Type::Ident("Greeter".to_string()))));
    assert!(iface.check());
    assert!(!iface.can_import(Abi::Native64));
}
