use ffi_gen::abi::import::Instr;
use ffi_gen::abi::{Abi, AbiFunction, AbiFuture, AbiStream, AbiType, FunctionType, NumType, Return, Var};

const ABIS: [Abi; 4] = [Abi::Native32, Abi::Native64, Abi::Wasm32, Abi::Wasm64];

fn num(binding: u32, num: NumType) -> Var {
    Var { binding, ty: AbiType::Num(num) }
}

fn var(binding: u32, ty: AbiType) -> Var {
    Var { binding, ty }
}

fn function(name: &str, args: Vec<(&str, AbiType)>, ret: Option<AbiType>) -> AbiFunction {
    AbiFunction {
        doc: vec![],
        ty: FunctionType::Function,
        name: name.to_string(),
        args: args.into_iter().map(|(n, ty)| (n.to_string(), ty)).collect(),
        ret,
    }
}

fn nums(vars: &[Var]) -> Vec<NumType> {
    vars.iter().map(|v| v.ty.num()).collect()
}

fn ret_slots(ret: &Return) -> Vec<Var> {
    match ret {
        Return::Void => vec![],
        Return::Num(var) => vec![var.clone()],
        Return::Struct(vars, _) => vars.clone(),
    }
}

#[test]
fn import_strlen_native64() {
    let func = function("strlen", vec![("s", AbiType::RefStr)], Some(AbiType::Usize));
    assert!(Abi::Native64.can_import(&func));
    let import = Abi::Native64.import(&func);
    let s = var(0, AbiType::RefStr);
    let ptr = num(1, NumType::I64);
    let len = num(2, NumType::U64);
    let cap = num(3, NumType::U64);
    let ret = var(4, AbiType::Usize);
    let out = var(5, AbiType::Usize);
    let raw = num(6, NumType::U64);
    assert_eq!(import.symbol, "__strlen");
    assert_eq!(import.abi_args, vec![("s".to_string(), AbiType::RefStr)]);
    assert_eq!(import.abi_ret, Some(AbiType::Usize));
    assert_eq!(import.ffi_args, vec![ptr.clone(), len.clone()]);
    assert_eq!(import.ffi_ret, Return::Num(raw.clone()));
    assert_eq!(
        import.instr,
        vec![
            Instr::BindArg("s".to_string(), s.clone()),
            Instr::DefineArgs(vec![ptr.clone(), len.clone()]),
            Instr::DefineArgs(vec![cap.clone()]),
            Instr::LowerString(s, ptr.clone(), len.clone(), cap.clone(), 1, 1),
            Instr::Call("__strlen".to_string(), Some(ret.clone()), vec![ptr.clone(), len]),
            Instr::BindRets(ret, vec![raw.clone()]),
            Instr::LiftNum(raw, out.clone(), NumType::U64),
            Instr::Deallocate(ptr, cap, 1, 1),
            Instr::ReturnValue(out),
        ]
    );
}

#[test]
fn import_result_u32_handles_the_error_first() {
    let result = AbiType::Result(Box::new(AbiType::Num(NumType::U32)));
    let func = function("f", vec![], Some(result.clone()));
    let import = Abi::Native64.import(&func);
    let ret = var(0, result.clone());
    let out = var(1, result);
    let disc = num(2, NumType::U8);
    let ptr = num(3, NumType::I64);
    let len = num(4, NumType::U64);
    let cap = num(5, NumType::U64);
    let value = num(6, NumType::U32);
    let slots = vec![disc.clone(), ptr.clone(), len.clone(), cap.clone(), value.clone()];
    assert_eq!(
        nums(&slots),
        vec![NumType::U8, NumType::I64, NumType::U64, NumType::U64, NumType::U32]
    );
    assert_eq!(import.ffi_ret, Return::Struct(slots.clone(), "__fReturn".to_string()));
    assert!(import.ffi_args.is_empty());
    assert_eq!(
        import.instr,
        vec![
            Instr::Call("__f".to_string(), Some(ret.clone()), vec![]),
            Instr::BindRets(ret, slots),
            Instr::HandleError(disc, ptr, len, cap),
            Instr::LiftNum(value, out.clone(), NumType::U32),
            Instr::ReturnValue(out),
        ]
    );
}

#[test]
fn import_void_function() {
    let func = function("hello", vec![], None);
    for abi in ABIS {
        let import = abi.import(&func);
        assert_eq!(import.ffi_ret, Return::Void);
        assert_eq!(import.abi_ret, None);
        assert_eq!(
            import.instr,
            vec![Instr::Call("__hello".to_string(), None, vec![]), Instr::ReturnVoid]
        );
    }
}

#[test]
fn import_method_borrows_the_receiver() {
    let func = AbiFunction {
        doc: vec![],
        ty: FunctionType::Method("Greeter".to_string()),
        name: "greet".to_string(),
        args: vec![("loud".to_string(), AbiType::Bool)],
        ret: Some(AbiType::String),
    };
    let import = Abi::Wasm32.import(&func);
    let this = num(0, NumType::I32);
    let loud = var(1, AbiType::Bool);
    let raw_loud = num(2, NumType::U8);
    let ret = var(3, AbiType::String);
    let out = var(4, AbiType::String);
    let ptr = num(5, NumType::I32);
    let len = num(6, NumType::U32);
    let cap = num(7, NumType::U32);
    assert_eq!(import.abi_args, vec![("loud".to_string(), AbiType::Bool)]);
    assert_eq!(import.ffi_args, vec![this.clone(), raw_loud.clone()]);
    assert_eq!(
        import.instr,
        vec![
            Instr::BindArg("loud".to_string(), loud.clone()),
            Instr::DefineArgs(vec![this.clone(), raw_loud.clone()]),
            Instr::BorrowSelf(this.clone()),
            Instr::LowerBool(loud, raw_loud.clone()),
            Instr::Call("__Greeter_greet".to_string(), Some(ret.clone()), vec![this, raw_loud]),
            Instr::BindRets(ret, vec![ptr.clone(), len.clone(), cap.clone()]),
            Instr::LiftString(ptr.clone(), len, out.clone()),
            Instr::Deallocate(ptr, cap, 1, 1),
            Instr::ReturnValue(out),
        ]
    );
}

#[test]
fn import_poll_takes_the_boxed_receiver_as_argument() {
    let fut = AbiFuture { ty: AbiType::Num(NumType::U8), symbol: "__hello".to_string() };
    let import = Abi::Native64.import(&fut.poll());
    assert_eq!(import.symbol, "__hello_future_poll");
    assert_eq!(
        import.abi_args,
        vec![
            ("boxed".to_string(), AbiType::Isize),
            ("post_cobject".to_string(), AbiType::Isize),
            ("port".to_string(), AbiType::Num(NumType::I64)),
        ]
    );
    assert_eq!(nums(&import.ffi_args), vec![NumType::I64, NumType::I64, NumType::I64]);
    let option = AbiType::Option(Box::new(AbiType::Num(NumType::U8)));
    assert_eq!(import.abi_ret, Some(option.clone()));
    let out = var(7, option);
    assert_eq!(
        import.instr[9..],
        [
            Instr::HandleNull(num(8, NumType::U8)),
            Instr::LiftNum(num(9, NumType::U8), out.clone(), NumType::U8),
            Instr::ReturnValue(out),
        ]
    );
    let stream = AbiStream { ty: AbiType::String, symbol: "__items".to_string() };
    let import = Abi::Wasm32.import(&stream.poll());
    assert_eq!(import.symbol, "__items_stream_poll");
    assert_eq!(
        nums(&import.ffi_args),
        vec![NumType::I32, NumType::I32, NumType::I64, NumType::I64]
    );
}

#[test]
fn import_takes_tuple_arguments_apart() {
    let pair = AbiType::Tuple(vec![AbiType::Num(NumType::U8), AbiType::Object("T".to_string())]);
    let func = function("f", vec![("p", pair), ("q", AbiType::Bool)], None);
    let import = Abi::Native64.import(&func);
    assert_eq!(
        import.abi_args,
        vec![
            ("p0".to_string(), AbiType::Num(NumType::U8)),
            ("p1".to_string(), AbiType::Object("T".to_string())),
            ("q".to_string(), AbiType::Bool),
        ]
    );
    let p0 = var(0, AbiType::Num(NumType::U8));
    let p1 = var(2, AbiType::Object("T".to_string()));
    let q = var(4, AbiType::Bool);
    let raw = vec![num(1, NumType::U8), num(3, NumType::I64), num(5, NumType::U8)];
    assert_eq!(import.ffi_args, raw);
    assert_eq!(
        import.instr,
        vec![
            Instr::BindArg("p0".to_string(), p0.clone()),
            Instr::BindArg("p1".to_string(), p1.clone()),
            Instr::BindArg("q".to_string(), q.clone()),
            Instr::DefineArgs(raw.clone()),
            Instr::LowerNum(p0, raw[0].clone(), NumType::U8),
            Instr::MoveObject(p1, raw[1].clone()),
            Instr::LowerBool(q, raw[2].clone()),
            Instr::Call("__f".to_string(), None, raw),
            Instr::ReturnVoid,
        ]
    );
}

#[test]
fn import_empty_tuple_return_is_no_result() {
    let func = function("f", vec![], Some(AbiType::Tuple(vec![])));
    let import = Abi::Native64.import(&func);
    assert_eq!(import.abi_ret, None);
    assert_eq!(import.ffi_ret, Return::Void);
    assert_eq!(
        import.instr,
        vec![Instr::Call("__f".to_string(), None, vec![]), Instr::ReturnVoid]
    );
}

#[test]
fn import_lifts_objects_futures_and_streams_with_their_symbols() {
    let object = AbiType::Object("Thing".to_string());
    let import = Abi::Native64.import(&function("make", vec![], Some(object.clone())));
    assert_eq!(
        import.instr[2],
        Instr::LiftObject(
            "Thing".to_string(),
            num(2, NumType::I64),
            "drop_box_Thing".to_string(),
            var(1, object)
        )
    );
    let future = AbiType::Future(Box::new(AbiType::Bool));
    let import = Abi::Wasm32.import(&function("wait", vec![], Some(future.clone())));
    assert_eq!(
        import.instr[2],
        Instr::LiftFuture(
            num(2, NumType::I32),
            "__wait_future_poll".to_string(),
            "__wait_future_drop".to_string(),
            var(1, future)
        )
    );
    let stream = AbiType::Stream(Box::new(AbiType::Bool));
    let import = Abi::Wasm64.import(&function("watch", vec![], Some(stream.clone())));
    assert_eq!(
        import.instr[2],
        Instr::LiftStream(
            num(2, NumType::I64),
            "__watch_stream_poll".to_string(),
            "__watch_stream_drop".to_string(),
            var(1, stream)
        )
    );
}

#[test]
fn import_option_argument_nests_the_payload() {
    let opt = AbiType::Option(Box::new(AbiType::RefSlice(NumType::U16)));
    let func = function("f", vec![("x", opt.clone())], None);
    let import = Abi::Wasm32.import(&func);
    let x = var(0, opt);
    let disc = num(1, NumType::U8);
    let some = var(2, AbiType::RefSlice(NumType::U16));
    let ptr = num(3, NumType::I32);
    let len = num(4, NumType::U32);
    let cap = num(5, NumType::U32);
    assert_eq!(import.ffi_args, vec![disc.clone(), ptr.clone(), len.clone()]);
    assert_eq!(
        import.instr,
        vec![
            Instr::BindArg("x".to_string(), x.clone()),
            Instr::DefineArgs(vec![disc.clone(), ptr.clone(), len.clone()]),
            Instr::LowerOption(
                x,
                disc.clone(),
                some.clone(),
                vec![
                    Instr::DefineArgs(vec![cap.clone()]),
                    Instr::LowerVec(
                        some,
                        ptr.clone(),
                        len.clone(),
                        cap.clone(),
                        NumType::U16,
                        4,
                        4
                    ),
                ],
            ),
            Instr::Call("__f".to_string(), None, vec![disc, ptr.clone(), len]),
            Instr::Deallocate(ptr, cap, 4, 4),
            Instr::ReturnVoid,
        ]
    );
}

#[test]
fn import_vec_return_is_freed_with_its_layout() {
    let func = function("f", vec![], Some(AbiType::Vec(NumType::U16)));
    for (abi, size) in [(Abi::Native64, 2), (Abi::Wasm64, 4)] {
        let import = abi.import(&func);
        let out = var(1, AbiType::Vec(NumType::U16));
        let ptr = num(2, NumType::I64);
        let len = num(3, NumType::U64);
        let cap = num(4, NumType::U64);
        assert_eq!(
            import.instr[2..],
            [
                Instr::LiftVec(ptr.clone(), len, out.clone(), NumType::U16),
                Instr::Deallocate(ptr, cap, size, size),
                Instr::ReturnValue(out),
            ]
        );
    }
}

#[test]
fn import_u64_return_is_joined_on_wasm32() {
    let func = function("big", vec![], Some(AbiType::Num(NumType::I64)));
    let import = Abi::Wasm32.import(&func);
    assert_eq!(
        import.instr[2],
        Instr::LiftNumFromU32Tuple(
            num(2, NumType::U32),
            num(3, NumType::U32),
            var(1, AbiType::Num(NumType::I64)),
            NumType::I64
        )
    );
    assert_eq!(
        import.ffi_ret,
        Return::Struct(vec![num(2, NumType::U32), num(3, NumType::U32)], "__bigReturn".to_string())
    );
}

#[test]
fn import_tuple_return_lifts_each_element() {
    let pair = AbiType::Tuple(vec![AbiType::Bool, AbiType::Num(NumType::F32)]);
    let import = Abi::Native64.import(&function("f", vec![], Some(pair.clone())));
    let out = var(1, pair);
    let e0 = var(2, AbiType::Bool);
    let e1 = var(4, AbiType::Num(NumType::F32));
    assert_eq!(
        import.instr[2..],
        [
            Instr::LiftBool(num(3, NumType::U8), e0.clone()),
            Instr::LiftNum(num(5, NumType::F32), e1.clone(), NumType::F32),
            Instr::LiftTuple(vec![e0, e1], out.clone()),
            Instr::ReturnValue(out),
        ]
    );
}

#[test]
fn import_rejects_what_the_calling_side_cannot_pass_or_take() {
    let result = AbiType::Result(Box::new(AbiType::Bool));
    let nested = AbiType::Tuple(vec![AbiType::Tuple(vec![AbiType::Bool])]);
    for abi in ABIS {
        assert!(!abi.can_import(&function("f", vec![("x", result.clone())], None)));
        assert!(!abi.can_import(&function("f", vec![("x", nested.clone())], None)));
        assert!(!abi.can_import(&function(
            "f",
            vec![("x", AbiType::Option(Box::new(AbiType::Tuple(vec![]))))],
            None
        )));
        assert!(!abi.can_import(&function(
            "f",
            vec![],
            Some(AbiType::RefObject("T".to_string()))
        )));
        assert!(!abi.can_import(&function(
            "f",
            vec![],
            Some(AbiType::Option(Box::new(AbiType::RefFuture(Box::new(AbiType::Bool)))))
        )));
        assert!(!abi.can_import(&function(
            "f",
            vec![],
            Some(AbiType::Tuple(vec![AbiType::Bool, AbiType::RefStream(Box::new(AbiType::Bool))]))
        )));
        assert!(abi.can_import(&function("f", vec![], Some(result.clone()))));
        assert!(abi.can_import(&function("f", vec![], Some(nested.clone()))));
    }
}

fn samples() -> Vec<AbiFunction> {
    let mut all = vec![
        function("a", vec![("s", AbiType::RefStr)], Some(AbiType::Usize)),
        function(
            "b",
            vec![
                ("x", AbiType::Num(NumType::U64)),
                ("y", AbiType::Isize),
                ("z", AbiType::Bool),
                ("s", AbiType::String),
                ("v", AbiType::Vec(NumType::F64)),
                ("r", AbiType::RefSlice(NumType::I16)),
            ],
            Some(AbiType::Num(NumType::I64)),
        ),
        function(
            "c",
            vec![
                ("o", AbiType::Option(Box::new(AbiType::Option(Box::new(AbiType::RefStr))))),
                ("t", AbiType::Tuple(vec![AbiType::RefSlice(NumType::U8), AbiType::Usize])),
                ("h", AbiType::Object("H".to_string())),
                ("g", AbiType::RefObject("H".to_string())),
                ("f", AbiType::Future(Box::new(AbiType::Bool))),
                ("w", AbiType::Stream(Box::new(AbiType::Bool))),
            ],
            Some(AbiType::Option(Box::new(AbiType::Result(Box::new(AbiType::Vec(NumType::U8)))))),
        ),
        function(
            "d",
            vec![],
            Some(AbiType::Tuple(vec![
                AbiType::String,
                AbiType::Result(Box::new(AbiType::Num(NumType::U64))),
                AbiType::Object("H".to_string()),
                AbiType::Tuple(vec![AbiType::RefStr, AbiType::Bool]),
            ])),
        ),
        function("e", vec![], Some(AbiType::Tuple(vec![]))),
        AbiFuture { ty: AbiType::Result(Box::new(AbiType::String)), symbol: "__a".to_string() }
            .poll(),
        AbiStream { ty: AbiType::Num(NumType::U64), symbol: "__b".to_string() }.poll(),
    ];
    all.push(AbiFunction {
        doc: vec![],
        ty: FunctionType::Method("H".to_string()),
        name: "m".to_string(),
        args: vec![("s".to_string(), AbiType::RefStr)],
        ret: Some(AbiType::Stream(Box::new(AbiType::String))),
    });
    all.push(AbiFunction {
        doc: vec![],
        ty: FunctionType::Constructor("H".to_string()),
        name: "new".to_string(),
        args: vec![("n".to_string(), AbiType::Num(NumType::U32))],
        ret: Some(AbiType::Object("H".to_string())),
    });
    all
}

#[test]
fn raw_shape_is_the_same_on_both_sides() {
    for abi in ABIS {
        for func in samples() {
            assert!(abi.can_export(&func));
            assert!(abi.can_import(&func));
            let export = abi.export(&func);
            let import = abi.import(&func);
            assert_eq!(export.symbol, import.symbol);
            assert_eq!(nums(&export.ffi_args), nums(&import.ffi_args));
            assert_eq!(nums(&ret_slots(&export.ffi_ret)), nums(&ret_slots(&import.ffi_ret)));
        }
    }
}

fn allocations(instr: &[Instr], found: &mut Vec<(Var, Var, usize, usize)>) {
    for step in instr {
        match step {
            Instr::LowerString(arg, ptr, _, cap, size, align) if arg.ty == AbiType::RefStr => {
                found.push((ptr.clone(), cap.clone(), *size, *align));
            }
            Instr::LowerVec(arg, ptr, _, cap, _, size, align)
                if matches!(arg.ty, AbiType::RefSlice(_)) =>
            {
                found.push((ptr.clone(), cap.clone(), *size, *align));
            }
            Instr::LowerOption(_, _, _, inner) => allocations(inner, found),
            _ => {}
        }
    }
}

#[test]
fn temporary_buffers_are_freed_as_they_were_allocated() {
    for abi in ABIS {
        for func in samples() {
            let import = abi.import(&func);
            let mut allocated = vec![];
            allocations(&import.instr, &mut allocated);
            let end = import.instr.len() - 1;
            assert!(matches!(import.instr[end], Instr::ReturnValue(_) | Instr::ReturnVoid));
            let cleanup = &import.instr[end - allocated.len()..end];
            let freed: Vec<(Var, Var, usize, usize)> = cleanup
                .iter()
                .map(|step| match step {
                    Instr::Deallocate(ptr, cap, size, align) => {
                        (ptr.clone(), cap.clone(), *size, *align)
                    }
                    other => panic!("{:?} is no cleanup", other),
                })
                .collect();
            assert_eq!(freed, allocated);
            for (i, a) in allocated.iter().enumerate() {
                for b in &allocated[i + 1..] {
                    assert_ne!(a.0.binding, b.0.binding);
                }
            }
        }
    }
    let import = Abi::Wasm32.import(&samples()[1]);
    let mut allocated = vec![];
    allocations(&import.instr, &mut allocated);
    assert_eq!(allocated, vec![(num(15, NumType::I32), num(17, NumType::U32), 4, 4)]);
}

#[test]
fn cleanup_len_counts_the_borrowed_arguments() {
    let lens = [1, 1, 2, 0, 0, 0, 0, 1, 0];
    for abi in ABIS {
        for (func, len) in samples().iter().zip(lens) {
            assert_eq!(abi.cleanup_len(func), len, "{}", func.name);
        }
    }
    assert_eq!(AbiType::RefStr.temporaries(), 1);
    assert_eq!(AbiType::String.temporaries(), 0);
    assert_eq!(AbiType::Option(Box::new(AbiType::RefSlice(NumType::U8))).temporaries(), 1);
    assert_eq!(AbiType::Option(Box::new(AbiType::Vec(NumType::U8))).temporaries(), 0);
}
