use ffi_gen::abi::count::Pass;
use ffi_gen::abi::{
    Abi, AbiFunction, AbiFuture, AbiStream, AbiType, FunctionType, NumType, Return, Var, VarGen,
};
use ffi_gen::naming::indexed_name;

const ABIS: [Abi; 4] = [Abi::Native32, Abi::Native64, Abi::Wasm32, Abi::Wasm64];

const NUMS: [NumType; 10] = [
    NumType::U8,
    NumType::U16,
    NumType::U32,
    NumType::U64,
    NumType::I8,
    NumType::I16,
    NumType::I32,
    NumType::I64,
    NumType::F32,
    NumType::F64,
];

#[test]
fn pointer_types_follow_the_width() {
    assert_eq!(Abi::Native32.uptr(), NumType::U32);
    assert_eq!(Abi::Wasm32.uptr(), NumType::U32);
    assert_eq!(Abi::Native64.uptr(), NumType::U64);
    assert_eq!(Abi::Wasm64.uptr(), NumType::U64);
    assert_eq!(Abi::Native32.iptr(), NumType::I32);
    assert_eq!(Abi::Wasm32.iptr(), NumType::I32);
    assert_eq!(Abi::Native64.iptr(), NumType::I64);
    assert_eq!(Abi::Wasm64.iptr(), NumType::I64);
}

#[test]
fn native_is_the_width_of_this_machine() {
    let native = Abi::native();
    if usize::BITS == 32 {
        assert_eq!(native, Abi::Native32);
    } else {
        assert_eq!(native, Abi::Native64);
    }
}

#[test]
fn layout_is_natural_on_native_targets() {
    let sizes = [1, 2, 4, 8, 1, 2, 4, 8, 4, 8];
    for abi in [Abi::Native32, Abi::Native64] {
        for (num, size) in NUMS.iter().zip(sizes) {
            assert_eq!(abi.layout(*num), (size, size));
        }
    }
}

#[test]
fn layout_is_at_least_four_bytes_on_wasm_targets() {
    let sizes = [4, 4, 4, 8, 4, 4, 4, 8, 4, 8];
    for abi in [Abi::Wasm32, Abi::Wasm64] {
        for (num, size) in NUMS.iter().zip(sizes) {
            assert_eq!(abi.layout(*num), (size, size));
        }
    }
}

#[test]
fn num_of_a_number_type() {
    for num in NUMS {
        assert_eq!(AbiType::Num(num).num(), num);
    }
}

#[test]
fn var_gen_counts_from_zero() {
    let mut gen = VarGen::new();
    assert_eq!(gen.gen(AbiType::Bool), Var { binding: 0, ty: AbiType::Bool });
    assert_eq!(gen.gen_num(NumType::I16), Var { binding: 1, ty: AbiType::Num(NumType::I16) });
    assert_eq!(gen.gen(AbiType::String), Var { binding: 2, ty: AbiType::String });
}

fn function(ty: FunctionType, name: &str) -> AbiFunction {
    AbiFunction { doc: vec![], ty, name: name.to_string(), args: vec![], ret: None }
}

#[test]
fn symbols_follow_the_kind_of_function() {
    assert_eq!(function(FunctionType::Function, "hello").symbol(), "__hello");
    assert_eq!(function(FunctionType::Method("Obj".to_string()), "run").symbol(), "__Obj_run");
    assert_eq!(function(FunctionType::Constructor("Obj".to_string()), "new").symbol(), "__Obj_new");
    assert_eq!(
        function(FunctionType::PollFuture("__hello".to_string(), AbiType::Bool), "poll").symbol(),
        "__hello_future_poll"
    );
    assert_eq!(
        function(FunctionType::PollStream("__Obj_run".to_string(), AbiType::Bool), "poll").symbol(),
        "__Obj_run_stream_poll"
    );
}

#[test]
fn ret_depends_on_the_number_of_slots() {
    let func = function(FunctionType::Function, "f");
    let a = Var { binding: 3, ty: AbiType::Num(NumType::U8) };
    let b = Var { binding: 4, ty: AbiType::Num(NumType::I64) };
    assert_eq!(func.ret(vec![]), Return::Void);
    assert_eq!(func.ret(vec![a.clone()]), Return::Num(a.clone()));
    assert_eq!(
        func.ret(vec![a.clone(), b.clone()]),
        Return::Struct(vec![a, b], "__fReturn".to_string())
    );
}

#[test]
fn future_poll_takes_callback_and_port() {
    let fut = AbiFuture { ty: AbiType::Num(NumType::U8), symbol: "__hello".to_string() };
    let poll = fut.poll();
    assert_eq!(
        poll,
        AbiFunction {
            doc: vec![],
            ty: FunctionType::PollFuture("__hello".to_string(), AbiType::Num(NumType::U8)),
            name: "poll".to_string(),
            args: vec![
                ("post_cobject".to_string(), AbiType::Isize),
                ("port".to_string(), AbiType::Num(NumType::I64)),
            ],
            ret: Some(AbiType::Option(Box::new(AbiType::Num(NumType::U8)))),
        }
    );
    assert_eq!(poll.symbol(), "__hello_future_poll");
}

#[test]
fn stream_poll_takes_callback_and_two_ports() {
    let stream = AbiStream { ty: AbiType::String, symbol: "__S_items".to_string() };
    let poll = stream.poll();
    assert_eq!(
        poll,
        AbiFunction {
            doc: vec![],
            ty: FunctionType::PollStream("__S_items".to_string(), AbiType::String),
            name: "poll".to_string(),
            args: vec![
                ("post_cobject".to_string(), AbiType::Isize),
                ("port".to_string(), AbiType::Num(NumType::I64)),
                ("done".to_string(), AbiType::Num(NumType::I64)),
            ],
            ret: Some(AbiType::Option(Box::new(AbiType::String))),
        }
    );
    assert_eq!(poll.symbol(), "__S_items_stream_poll");
}

#[test]
fn clone_keeps_a_nested_type() {
    let ty = AbiType::Option(Box::new(AbiType::Result(Box::new(AbiType::Tuple(vec![
        AbiType::Vec(NumType::U8),
        AbiType::Object("Thing".to_string()),
        AbiType::Future(Box::new(AbiType::RefStr)),
    ])))));
    assert_eq!(ty.clone(), ty);
}

#[test]
fn indexed_names_are_decimal() {
    assert_eq!(indexed_name("arg", 0), "arg0");
    assert_eq!(indexed_name("arg", 7), "arg7");
    assert_eq!(indexed_name("arg", 10), "arg10");
    assert_eq!(indexed_name("p", 1234567890), "p1234567890");
    assert_eq!(indexed_name("", usize::MAX), usize::MAX.to_string());
}

#[test]
fn vars_count_the_slots_of_each_pass() {
    let text = AbiType::RefStr;
    assert_eq!(text.vars(Abi::Native64, Pass::ExportArg), 2);
    assert_eq!(text.vars(Abi::Native64, Pass::ImportArg), 3);
    let wide = AbiType::Num(NumType::I64);
    assert_eq!(wide.vars(Abi::Wasm32, Pass::ExportArg), 1);
    assert_eq!(wide.vars(Abi::Wasm32, Pass::ExportReturn), 2);
    assert_eq!(wide.vars(Abi::Wasm32, Pass::ImportReturn), 2);
    assert_eq!(wide.vars(Abi::Wasm64, Pass::ImportReturn), 1);
    let result = AbiType::Result(Box::new(AbiType::Num(NumType::U32)));
    assert_eq!(result.vars(Abi::Native64, Pass::ExportReturn), 7);
    assert_eq!(result.vars(Abi::Native64, Pass::ImportReturn), 5);
    let pair = AbiType::Tuple(vec![AbiType::Bool, AbiType::String]);
    assert_eq!(pair.vars(Abi::Native64, Pass::ExportArg), 6);
    for abi in ABIS {
        assert_eq!(AbiType::Tuple(vec![]).vars(abi, Pass::ExportReturn), 0);
    }
}
