use ffi_gen::abi::{Abi, AbiFunction, AbiFuture, AbiStream, AbiType, FunctionType, NumType};
use ffi_gen::naming::{
    destructor_name, future_drop_name, future_poll_name, stream_drop_name, stream_poll_name,
    suffixed, var_name,
};
use ffi_gen::parser::{Function, Interface, Object, Type};
use ffi_gen::shim::WasmMultiValueShim;
use ffi_gen::{dart, js, rust};

const NUMS: [NumType; 10] = [
    NumType::U8,
    NumType::U16,
    NumType::U32,
    NumType::U64,
    NumType::I8,
    NumType::I16,
    NumType::I32,
    NumType::I64,
    NumType::F32,
    NumType::F64,
];

fn function(name: &str, ret: Option<AbiType>) -> AbiFunction {
    AbiFunction {
        doc: vec![],
        ty: FunctionType::Function,
        name: name.to_string(),
        args: vec![],
        ret,
    }
}

#[test]
fn locals_are_named_after_their_binding() {
    assert_eq!(var_name(0), "tmp0");
    assert_eq!(var_name(42), "tmp42");
    assert_eq!(var_name(u32::MAX), "tmp4294967295");
}

#[test]
fn derived_symbols() {
    assert_eq!(destructor_name("Greeter"), "drop_box_Greeter");
    assert_eq!(future_poll_name("__fetch"), "__fetch_future_poll");
    assert_eq!(future_drop_name("__fetch"), "__fetch_future_drop");
    assert_eq!(stream_poll_name("__Obj_watch"), "__Obj_watch_stream_poll");
    assert_eq!(stream_drop_name("__Obj_watch"), "__Obj_watch_stream_drop");
    assert_eq!(suffixed("a", "b"), "ab");
    let future = AbiFuture { ty: AbiType::Bool, symbol: "__fetch".to_string() };
    assert_eq!(future.poll().symbol(), future_poll_name("__fetch"));
    let stream = AbiStream { ty: AbiType::Bool, symbol: "__Obj_watch".to_string() };
    assert_eq!(stream.poll().symbol(), stream_poll_name("__Obj_watch"));
}

#[test]
fn rust_names_of_types() {
    let names = ["u8", "u16", "u32", "u64", "i8", "i16", "i32", "i64", "f32", "f64"];
    for (num, name) in NUMS.iter().zip(names) {
        assert_eq!(rust::num_type(*num), name);
    }
    let cases = [
        (AbiType::Num(NumType::F32), "f32"),
        (AbiType::Isize, "isize"),
        (AbiType::Usize, "usize"),
        (AbiType::Bool, "bool"),
        (AbiType::RefStr, "&str"),
        (AbiType::String, "String"),
        (AbiType::RefSlice(NumType::U8), "&[u8]"),
        (AbiType::Vec(NumType::I64), "Vec<i64>"),
        (
            AbiType::Option(Box::new(AbiType::Result(Box::new(AbiType::Vec(NumType::U8))))),
            "Option<Result<Vec<u8>>>",
        ),
    ];
    for (ty, name) in cases {
        assert!(rust::can_name(&ty));
        assert_eq!(rust::ty(&ty), name);
    }
    for ty in [
        AbiType::Object("T".to_string()),
        AbiType::RefObject("T".to_string()),
        AbiType::Future(Box::new(AbiType::Bool)),
        AbiType::RefFuture(Box::new(AbiType::Bool)),
        AbiType::Stream(Box::new(AbiType::Bool)),
        AbiType::RefStream(Box::new(AbiType::Bool)),
        AbiType::Tuple(vec![]),
        AbiType::Option(Box::new(AbiType::Object("T".to_string()))),
    ] {
        assert!(!rust::can_name(&ty));
    }
    assert_eq!(rust::ret_field(0), "ret0");
    assert_eq!(rust::ret_field(12), "ret12");
}

#[test]
fn dart_names_of_types() {
    let native = [
        "ffi.Uint8",
        "ffi.Uint16",
        "ffi.Uint32",
        "ffi.Uint64",
        "ffi.Int8",
        "ffi.Int16",
        "ffi.Int32",
        "ffi.Int64",
        "ffi.Float",
        "ffi.Double",
    ];
    let wrapped = ["int", "int", "int", "int", "int", "int", "int", "int", "double", "double"];
    for ((num, native), wrapped) in NUMS.iter().zip(native).zip(wrapped) {
        assert_eq!(dart::generate_native_num_type(*num), native);
        assert_eq!(dart::generate_wrapped_num_type(*num), wrapped);
    }
    let cases = [
        (AbiType::Num(NumType::F32), "double"),
        (AbiType::Num(NumType::U64), "int"),
        (AbiType::Isize, "int"),
        (AbiType::Usize, "int"),
        (AbiType::Bool, "bool"),
        (AbiType::RefStr, "String"),
        (AbiType::String, "String"),
        (AbiType::RefSlice(NumType::F64), "List<double>"),
        (AbiType::Vec(NumType::I8), "List<int>"),
        (AbiType::Object("Thing".to_string()), "Thing"),
        (AbiType::RefObject("Thing".to_string()), "Thing"),
        (AbiType::Option(Box::new(AbiType::Bool)), "bool?"),
        (AbiType::Result(Box::new(AbiType::Option(Box::new(AbiType::String)))), "String?"),
        (AbiType::Future(Box::new(AbiType::Bool)), "Future"),
        (AbiType::Stream(Box::new(AbiType::Bool)), "Stream"),
    ];
    for (ty, name) in cases {
        assert!(dart::can_name(&ty));
        assert_eq!(dart::generate_type(&ty), name);
    }
    for ty in [
        AbiType::RefFuture(Box::new(AbiType::Bool)),
        AbiType::RefStream(Box::new(AbiType::Bool)),
        AbiType::Tuple(vec![AbiType::Bool]),
        AbiType::Option(Box::new(AbiType::Tuple(vec![]))),
    ] {
        assert!(!dart::can_name(&ty));
    }
    assert_eq!(dart::ret_field(3), "arg3");
}

#[test]
fn dart_names_follow_the_case_conventions() {
    assert_eq!(dart::ident("hello_world"), "helloWorld");
    assert_eq!(dart::ident("post_cobject"), "postCobject");
    assert_eq!(dart::symbol_name("__hello_world"), "_helloWorld");
    assert_eq!(dart::pointer_name("__Greeter_greet"), "_greeterGreetPtr");
    assert_eq!(dart::struct_name("__hello_worldReturn"), "_HelloWorldReturn");
    assert_eq!(dart::function_name(&function("make_greeting", None)), "makeGreeting");
    let poll = AbiFuture { ty: AbiType::Bool, symbol: "__fetch_all".to_string() }.poll();
    assert_eq!(dart::function_name(&poll), "__fetchAllFuturePoll");
    let poll = AbiStream { ty: AbiType::Bool, symbol: "__watch".to_string() }.poll();
    assert_eq!(dart::function_name(&poll), "__watchStreamPoll");
    assert_eq!(dart::symbol_member("x"), "_x");
    assert_eq!(dart::pointer_member("x"), "_xPtr");
    assert_eq!(dart::poll_method("x"), "__x");
    assert_eq!(dart::prefixed("a", "b"), "ab");
}

#[test]
fn js_names_of_types() {
    let arrays = [
        "Uint8Array",
        "Uint16Array",
        "Uint32Array",
        "BigUint64Array",
        "Int8Array",
        "Int16Array",
        "Int32Array",
        "BigInt64Array",
        "Float32Array",
        "Float64Array",
    ];
    let numbers = [
        "number", "number", "number", "BigInt", "number", "number", "number", "BigInt", "number",
        "number",
    ];
    for ((num, array), number) in NUMS.iter().zip(arrays).zip(numbers) {
        assert_eq!(js::generate_array(*num), array);
        assert_eq!(js::number_type(*num), number);
    }
    let cases = [
        (AbiType::Num(NumType::I64), "BigInt"),
        (AbiType::Num(NumType::F64), "number"),
        (AbiType::Isize, "number"),
        (AbiType::Usize, "number"),
        (AbiType::Bool, "boolean"),
        (AbiType::RefStr, "string"),
        (AbiType::String, "string"),
        (AbiType::RefSlice(NumType::U64), "Array<BigInt>"),
        (AbiType::Vec(NumType::U8), "Array<number>"),
        (AbiType::Object("Thing".to_string()), "Thing"),
        (AbiType::RefObject("Thing".to_string()), "Thing"),
    ];
    for (ty, name) in cases {
        assert!(js::can_declare(&ty));
        assert_eq!(js::generate_return_type(Some(&ty)), name);
    }
    assert_eq!(js::generate_return_type(None), "void");
    for ty in [
        AbiType::Option(Box::new(AbiType::Bool)),
        AbiType::Result(Box::new(AbiType::Bool)),
        AbiType::Future(Box::new(AbiType::Bool)),
        AbiType::RefFuture(Box::new(AbiType::Bool)),
        AbiType::Stream(Box::new(AbiType::Bool)),
        AbiType::RefStream(Box::new(AbiType::Bool)),
        AbiType::Tuple(vec![]),
    ] {
        assert!(!js::can_declare(&ty));
    }
}

#[test]
fn shim_lists_the_machine_types_of_aggregate_returns() {
    let shim = WasmMultiValueShim::new();
    assert_eq!(shim.generate_return(&function("none", None)), None);
    assert_eq!(shim.generate_return(&function("one", Some(AbiType::Bool))), None);
    assert_eq!(
        shim.generate_return(&function("text", Some(AbiType::String))),
        Some("\"__text i32 i32 i32 \"".to_string())
    );
    assert_eq!(
        shim.generate_return(&function("wide", Some(AbiType::Num(NumType::U64)))),
        Some("\"__wide i32 i32 \"".to_string())
    );
    assert_eq!(
        shim.generate_return(&function(
            "mixed",
            Some(AbiType::Tuple(vec![
                AbiType::Num(NumType::F64),
                AbiType::Num(NumType::U8),
                AbiType::Num(NumType::F32),
            ]))
        )),
        Some("\"__mixed i64 i32 i32 \"".to_string())
    );
}

#[test]
fn shim_looks_at_methods_then_functions_then_futures() {
    let declaration = |ident: &str, ret: Type| Function {
        doc: vec![],
        is_static: false,
        ident: ident.to_string(),
        args: vec![],
        ret: Some(ret),
    };
    let iface = Interface {
        doc: vec![],
        functions: vec![
            declaration("name", Type::String),
            declaration("count", Type::U32),
            declaration("fetch", Type::Future(Box::new(Type::String))),
            declaration("watch", Type::Stream(Box::new(Type::String))),
        ],
        objects: vec![Object {
            doc: vec![],
            ident: "Thing".to_string(),
            methods: vec![declaration("label", Type::Ref(Box::new(Type::String)))],
        }],
    };
    let shim = WasmMultiValueShim::new();
    assert!(iface.check());
    assert!(shim.can_generate(&iface));
    assert_eq!(
        shim.generate_args(&iface),
        vec![
            "\"__Thing_label i32 i32 \"".to_string(),
            "\"__name i32 i32 i32 \"".to_string(),
            "\"__fetch_future_poll i32 i32 i32 i32 \"".to_string(),
        ]
    );
    let mut broken = iface.clone();
    broken.functions[1].args.push(("r".to_string(), Type::Result(Box::new(Type::U8))));
    assert!(!broken.check());
    assert!(shim
        .generate_args(&Interface { doc: vec![], functions: vec![], objects: vec![] })
        .is_empty());
    assert!(Abi::Wasm32.can_export(&function("f", None)));
}
