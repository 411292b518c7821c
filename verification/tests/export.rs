use ffi_gen::abi::export::Instr;
use ffi_gen::abi::{Abi, AbiFunction, AbiType, FunctionType, NumType, Return, Var};

const ABIS: [Abi; 4] = [Abi::Native32, Abi::Native64, Abi::Wasm32, Abi::Wasm64];

fn num(binding: u32, num: NumType) -> Var {
    Var { binding, ty: AbiType::Num(num) }
}

fn var(binding: u32, ty: AbiType) -> Var {
    Var { binding, ty }
}

fn function(name: &str, args: Vec<(&str, AbiType)>, ret: Option<AbiType>) -> AbiFunction {
    AbiFunction {
        doc: vec![],
        ty: FunctionType::Function,
        name: name.to_string(),
        args: args.into_iter().map(|(n, ty)| (n.to_string(), ty)).collect(),
        ret,
    }
}

fn nums(vars: &[Var]) -> Vec<NumType> {
    vars.iter().map(|v| v.ty.num()).collect()
}

#[test]
fn export_strlen_native64() {
    let func = function("strlen", vec![("s", AbiType::RefStr)], Some(AbiType::Usize));
    assert!(Abi::Native64.can_export(&func));
    let export = Abi::Native64.export(&func);
    assert_eq!(export.symbol, "__strlen");
    assert_eq!(export.ffi_args, vec![num(1, NumType::I64), num(2, NumType::U64)]);
    assert_eq!(export.ffi_ret, Return::Num(num(4, NumType::U64)));
    let s = var(0, AbiType::RefStr);
    let ret = var(3, AbiType::Usize);
    assert_eq!(
        export.instr,
        vec![
            Instr::LiftStr(num(1, NumType::I64), num(2, NumType::U64), s.clone()),
            Instr::CallAbi(
                FunctionType::Function,
                None,
                "strlen".to_string(),
                Some(ret.clone()),
                vec![s],
            ),
            Instr::DefineRets(vec![num(4, NumType::U64)]),
            Instr::LowerUsize(ret, num(4, NumType::U64)),
        ]
    );
    for slot in export.ffi_args.iter().chain([num(4, NumType::U64)].iter()) {
        assert_eq!(Abi::Native64.layout(slot.ty.num()), (8, 8));
    }
}

#[test]
fn export_void_function_has_no_return() {
    let func = function("hello", vec![], None);
    for abi in ABIS {
        let export = abi.export(&func);
        assert_eq!(export.symbol, "__hello");
        assert!(export.ffi_args.is_empty());
        assert_eq!(export.ffi_ret, Return::Void);
        assert_eq!(
            export.instr,
            vec![Instr::CallAbi(FunctionType::Function, None, "hello".to_string(), None, vec![])]
        );
    }
}

#[test]
fn export_result_u32_shape_native64() {
    let func = function("f", vec![], Some(AbiType::Result(Box::new(AbiType::Num(NumType::U32)))));
    let export = Abi::Native64.export(&func);
    let ret = var(0, AbiType::Result(Box::new(AbiType::Num(NumType::U32))));
    let disc = num(1, NumType::U8);
    let ok = var(2, AbiType::Num(NumType::U32));
    let err = var(3, AbiType::String);
    let ptr = num(4, NumType::I64);
    let len = num(5, NumType::U64);
    let cap = num(6, NumType::U64);
    let value = num(7, NumType::U32);
    let slots = vec![disc.clone(), ptr.clone(), len.clone(), cap.clone(), value.clone()];
    assert_eq!(export.ffi_ret, Return::Struct(slots.clone(), "__fReturn".to_string()));
    assert_eq!(
        nums(&slots),
        vec![NumType::U8, NumType::I64, NumType::U64, NumType::U64, NumType::U32]
    );
    let sizes: Vec<usize> = slots.iter().map(|v| Abi::Native64.layout(v.ty.num()).0).collect();
    assert_eq!(sizes, vec![1, 8, 8, 8, 4]);
    assert_eq!(
        export.instr,
        vec![
            Instr::CallAbi(FunctionType::Function, None, "f".to_string(), Some(ret.clone()), vec![]),
            Instr::DefineRets(slots),
            Instr::LowerResult(
                ret,
                disc,
                ok.clone(),
                vec![Instr::LowerNum(ok, value)],
                err.clone(),
                vec![Instr::LowerString(err, ptr, len, cap)],
            ),
        ]
    );
}

#[test]
fn export_method_lifts_receiver_first() {
    let func = AbiFunction {
        doc: vec![],
        ty: FunctionType::Method("Greeter".to_string()),
        name: "greet".to_string(),
        args: vec![("loud".to_string(), AbiType::Bool)],
        ret: Some(AbiType::String),
    };
    let export = Abi::Wasm32.export(&func);
    assert_eq!(export.symbol, "__Greeter_greet");
    let this = var(0, AbiType::RefObject("Greeter".to_string()));
    let loud = var(2, AbiType::Bool);
    let ret = var(4, AbiType::String);
    assert_eq!(export.ffi_args, vec![num(1, NumType::I32), num(3, NumType::U8)]);
    assert_eq!(
        export.ffi_ret,
        Return::Struct(
            vec![num(5, NumType::I32), num(6, NumType::U32), num(7, NumType::U32)],
            "__Greeter_greetReturn".to_string()
        )
    );
    assert_eq!(
        export.instr,
        vec![
            Instr::LiftRefObject(num(1, NumType::I32), this.clone(), "Greeter".to_string()),
            Instr::LiftBool(num(3, NumType::U8), loud.clone()),
            Instr::CallAbi(
                FunctionType::Method("Greeter".to_string()),
                Some(this),
                "greet".to_string(),
                Some(ret.clone()),
                vec![loud],
            ),
            Instr::DefineRets(vec![
                num(5, NumType::I32),
                num(6, NumType::U32),
                num(7, NumType::U32)
            ]),
            Instr::LowerString(
                ret,
                num(5, NumType::I32),
                num(6, NumType::U32),
                num(7, NumType::U32)
            ),
        ]
    );
}

#[test]
fn export_constructor_has_no_receiver() {
    let func = AbiFunction {
        doc: vec![],
        ty: FunctionType::Constructor("Greeter".to_string()),
        name: "new".to_string(),
        args: vec![],
        ret: Some(AbiType::Object("Greeter".to_string())),
    };
    let export = Abi::Native64.export(&func);
    assert_eq!(export.symbol, "__Greeter_new");
    assert!(export.ffi_args.is_empty());
    let ret = var(0, AbiType::Object("Greeter".to_string()));
    assert_eq!(export.ffi_ret, Return::Num(num(1, NumType::I64)));
    assert_eq!(
        export.instr,
        vec![
            Instr::CallAbi(
                FunctionType::Constructor("Greeter".to_string()),
                None,
                "new".to_string(),
                Some(ret.clone()),
                vec![],
            ),
            Instr::DefineRets(vec![num(1, NumType::I64)]),
            Instr::LowerObject(ret, num(1, NumType::I64)),
        ]
    );
}

#[test]
fn export_u64_return_is_split_on_wasm32_only() {
    let func = function("big", vec![], Some(AbiType::Num(NumType::U64)));
    let export = Abi::Wasm32.export(&func);
    let ret = var(0, AbiType::Num(NumType::U64));
    assert_eq!(
        export.ffi_ret,
        Return::Struct(vec![num(1, NumType::U32), num(2, NumType::U32)], "__bigReturn".to_string())
    );
    assert_eq!(
        export.instr[2],
        Instr::LowerNumAsU32Tuple(
            ret.clone(),
            num(1, NumType::U32),
            num(2, NumType::U32),
            NumType::U64
        )
    );
    for abi in [Abi::Native32, Abi::Native64, Abi::Wasm64] {
        let export = abi.export(&func);
        assert_eq!(export.ffi_ret, Return::Num(num(1, NumType::U64)));
        assert_eq!(export.instr[2], Instr::LowerNum(ret.clone(), num(1, NumType::U64)));
    }
    let arg = function("take", vec![("x", AbiType::Num(NumType::I64))], None);
    let export = Abi::Wasm32.export(&arg);
    assert_eq!(export.ffi_args, vec![num(1, NumType::I64)]);
}

#[test]
fn export_option_argument_nests_the_payload() {
    let opt = AbiType::Option(Box::new(AbiType::Vec(NumType::U8)));
    let func = function("f", vec![("x", opt.clone())], None);
    let export = Abi::Native64.export(&func);
    let x = var(0, opt);
    let some = var(2, AbiType::Vec(NumType::U8));
    assert_eq!(
        export.ffi_args,
        vec![
            num(1, NumType::U8),
            num(3, NumType::I64),
            num(4, NumType::U64),
            num(5, NumType::U64)
        ]
    );
    assert_eq!(
        export.instr[0],
        Instr::LiftOption(
            num(1, NumType::U8),
            x,
            some.clone(),
            vec![Instr::LiftVec(
                num(3, NumType::I64),
                num(4, NumType::U64),
                num(5, NumType::U64),
                some,
                NumType::U8
            )],
        )
    );
}

#[test]
fn export_tuple_argument_and_return_are_flattened() {
    let pair = AbiType::Tuple(vec![AbiType::Num(NumType::U8), AbiType::RefStr]);
    let func = function("f", vec![("p", pair.clone())], Some(pair.clone()));
    let export = Abi::Native32.export(&func);
    let p = var(0, pair.clone());
    let p0 = var(1, AbiType::Num(NumType::U8));
    let p1 = var(3, AbiType::RefStr);
    assert_eq!(
        export.ffi_args,
        vec![num(2, NumType::U8), num(4, NumType::I32), num(5, NumType::U32)]
    );
    let ret = var(6, pair);
    let r0 = var(7, AbiType::Num(NumType::U8));
    let r1 = var(9, AbiType::RefStr);
    let rets = vec![num(8, NumType::U8), num(10, NumType::I32), num(11, NumType::U32)];
    assert_eq!(export.ffi_ret, Return::Struct(rets.clone(), "__fReturn".to_string()));
    assert_eq!(
        export.instr,
        vec![
            Instr::LiftNum(num(2, NumType::U8), p0.clone()),
            Instr::LiftStr(num(4, NumType::I32), num(5, NumType::U32), p1.clone()),
            Instr::LiftTuple(vec![p0, p1], p.clone()),
            Instr::CallAbi(
                FunctionType::Function,
                None,
                "f".to_string(),
                Some(ret.clone()),
                vec![p]
            ),
            Instr::DefineRets(rets),
            Instr::LowerTuple(ret, vec![r0.clone(), r1.clone()]),
            Instr::LowerNum(r0, num(8, NumType::U8)),
            Instr::LowerStr(r1, num(10, NumType::I32), num(11, NumType::U32)),
        ]
    );
}

#[test]
fn export_empty_tuple_return_is_void() {
    let func = function("f", vec![], Some(AbiType::Tuple(vec![])));
    let export = Abi::Native64.export(&func);
    let ret = var(0, AbiType::Tuple(vec![]));
    assert_eq!(export.ffi_ret, Return::Void);
    assert_eq!(
        export.instr,
        vec![
            Instr::CallAbi(FunctionType::Function, None, "f".to_string(), Some(ret.clone()), vec![]),
            Instr::LowerTuple(ret, vec![]),
        ]
    );
}

#[test]
fn export_future_and_stream_return_one_pointer() {
    let payload = AbiType::Result(Box::new(AbiType::String));
    for abi in ABIS {
        let func = function("f", vec![], Some(AbiType::Future(Box::new(payload.clone()))));
        let export = abi.export(&func);
        assert_eq!(export.ffi_ret, Return::Num(num(1, abi.iptr())));
        assert_eq!(
            export.instr[2],
            Instr::LowerFuture(
                var(0, AbiType::Future(Box::new(payload.clone()))),
                num(1, abi.iptr()),
                payload.clone()
            )
        );
        let func = function("g", vec![], Some(AbiType::Stream(Box::new(payload.clone()))));
        let export = abi.export(&func);
        assert_eq!(
            export.instr[2],
            Instr::LowerStream(
                var(0, AbiType::Stream(Box::new(payload.clone()))),
                num(1, abi.iptr()),
                payload.clone()
            )
        );
    }
}

#[test]
fn export_rejects_result_argument() {
    let result = AbiType::Result(Box::new(AbiType::Bool));
    for abi in ABIS {
        assert!(!abi.can_export(&function("f", vec![("x", result.clone())], None)));
        assert!(!abi.can_export(&function(
            "f",
            vec![("x", AbiType::Option(Box::new(result.clone())))],
            None
        )));
        assert!(!abi.can_export(&function(
            "f",
            vec![("x", AbiType::Tuple(vec![AbiType::Bool, result.clone()]))],
            None
        )));
        assert!(abi.can_export(&function("f", vec![], Some(result.clone()))));
    }
}

#[test]
fn export_bindings_are_fresh() {
    let func = function(
        "f",
        vec![
            ("a", AbiType::String),
            ("b", AbiType::Option(Box::new(AbiType::RefSlice(NumType::F64)))),
        ],
        Some(AbiType::Option(Box::new(AbiType::Result(Box::new(AbiType::Vec(NumType::U8)))))),
    );
    for abi in ABIS {
        let export = abi.export(&func);
        let mut seen: Vec<u32> = export.ffi_args.iter().map(|v| v.binding).collect();
        if let Return::Struct(vars, _) = &export.ffi_ret {
            seen.extend(vars.iter().map(|v| v.binding));
        }
        let mut sorted = seen.clone();
        sorted.sort();
        sorted.dedup();
        assert_eq!(sorted, seen);
    }
}
