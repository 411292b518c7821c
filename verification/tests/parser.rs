use ffi_gen::parser::{Function, Interface, Object, ParseError, Type};

fn hello(args: Vec<(&str, Type)>, ret: Option<Type>) -> Interface {
    Interface {
        doc: Default::default(),
        objects: vec![],
        functions: vec![Function {
            doc: Default::default(),
            is_static: false,
            ident: "hello".to_string(),
            args: args.into_iter().map(|(n, ty)| (n.to_string(), ty)).collect(),
            ret,
        }],
    }
}

#[test]
fn test_parse() {
    let res = Interface::parse("").unwrap();
    assert_eq!(
        res,
        Interface { doc: Default::default(), objects: vec![], functions: vec![] }
    );
    let res = Interface::parse("fn hello();").unwrap();
    assert_eq!(
        res,
        Interface {
            doc: Default::default(),
            objects: vec![],
            functions: vec![Function {
                doc: Default::default(),
                is_static: false,
                ident: "hello".to_string(),
                args: vec![],
                ret: None,
            }],
        }
    );
    let res = Interface::parse("fn hello(a: u8);").unwrap();
    assert_eq!(
        res,
        Interface {
            doc: Default::default(),
            objects: vec![],
            functions: vec![Function {
                doc: Default::default(),
                is_static: false,
                ident: "hello".to_string(),
                args: vec![("a".to_string(), Type::U8)],
                ret: None,
            }],
        }
    );
    let res = Interface::parse("fn hello() -> u8;").unwrap();
    assert_eq!(
        res,
        Interface {
            doc: Default::default(),
            objects: vec![],
            functions: vec![Function {
                doc: Default::default(),
                is_static: false,
                ident: "hello".to_string(),
                args: vec![],
                ret: Some(Type::U8),
            }],
        }
    );
    let res = Interface::parse("fn hello(a: &string);").unwrap();
    assert_eq!(
        res,
        Interface {
            doc: Default::default(),
            objects: vec![],
            functions: vec![Function {
                doc: Default::default(),
                is_static: false,
                ident: "hello".to_string(),
                args: vec![("a".to_string(), Type::Ref(Box::new(Type::String)))],
                ret: None,
            }],
        }
    );
    let res = Interface::parse("fn hello(a: &[u8]) -> Vec<i64>;").unwrap();
    assert_eq!(
        res,
        Interface {
            doc: Default::default(),
            objects: vec![],
            functions: vec![Function {
                doc: Default::default(),
                is_static: false,
                ident: "hello".to_string(),
                args: vec![(
                    "a".to_string(),
                    Type::Ref(Box::new(Type::Slice(Box::new(Type::U8))))
                )],
                ret: Some(Type::Vec(Box::new(Type::I64))),
            }],
        }
    );
    let res = Interface::parse("fn hello() -> Future<u8>;").unwrap();
    assert_eq!(
        res,
        Interface {
            doc: Default::default(),
            objects: vec![],
            functions: vec![Function {
                doc: Default::default(),
                is_static: false,
                ident: "hello".to_string(),
                args: vec![],
                ret: Some(Type::Future(Box::new(Type::U8))),
            }],
        }
    );
    let res = Interface::parse(
        r#"
            //! A greeter
            //!
            //! read our beautiful docs
            //! here

            /// The main entry point of this example.
            object Greeter {
                /// Creates a new greeter.
                static fn new() -> Greeter;
                /// Returns a friendly greeting.
                fn greet() -> string;
            }"#,
    )
    .unwrap();
    assert_eq!(
        res,
        Interface {
            doc: vec![
                "A greeter".to_string(),
                "".to_string(),
                "read our beautiful docs".to_string(),
                "here".to_string(),
            ],
            functions: vec![],
            objects: vec![Object {
                doc: vec!["The main entry point of this example.".to_string(),],
                ident: "Greeter".to_string(),
                methods: vec![
                    Function {
                        doc: vec!["Creates a new greeter.".to_string(),],
                        is_static: true,
                        ident: "new".to_string(),
                        args: vec![],
                        ret: Some(Type::Ident("Greeter".to_string())),
                    },
                    Function {
                        doc: vec!["Returns a friendly greeting.".to_string(),],
                        is_static: false,
                        ident: "greet".to_string(),
                        args: vec![],
                        ret: Some(Type::String),
                    }
                ]
            }],
        }
    );
    assert!(res.is_object("Greeter"));
}

#[test]
fn parse_every_primitive() {
    let cases = [
        ("u8", Type::U8),
        ("u16", Type::U16),
        ("u32", Type::U32),
        ("u64", Type::U64),
        ("usize", Type::Usize),
        ("i8", Type::I8),
        ("i16", Type::I16),
        ("i32", Type::I32),
        ("i64", Type::I64),
        ("isize", Type::Isize),
        ("bool", Type::Bool),
        ("f32", Type::F32),
        ("f64", Type::F64),
        ("string", Type::String),
    ];
    for (text, ty) in cases {
        let input = format!("fn hello(a: {}) -> {};", text, text);
        assert_eq!(
            Interface::parse(&input),
            Ok(hello(vec![("a", ty.clone())], Some(ty)))
        );
    }
}

#[test]
fn parse_wrappers_and_names() {
    let cases = [
        ("Vec<u8>", Type::Vec(Box::new(Type::U8))),
        ("Option<bool>", Type::Option(Box::new(Type::Bool))),
        ("Result<string>", Type::Result(Box::new(Type::String))),
        ("Future<i8>", Type::Future(Box::new(Type::I8))),
        ("Stream<f64>", Type::Stream(Box::new(Type::F64))),
        ("Thing", Type::Ident("Thing".to_string())),
        ("_thing9", Type::Ident("_thing9".to_string())),
        ("u8x", Type::Ident("u8x".to_string())),
        ("Vec", Type::Ident("Vec".to_string())),
        ("Vector", Type::Ident("Vector".to_string())),
        ("&Thing", Type::Ref(Box::new(Type::Ident("Thing".to_string())))),
        ("[i16]", Type::Slice(Box::new(Type::I16))),
        (
            "Future < Result < Option < & [ u8 ] > > >",
            Type::Future(Box::new(Type::Result(Box::new(Type::Option(Box::new(Type::Ref(
                Box::new(Type::Slice(Box::new(Type::U8))),
            ))))))),
        ),
    ];
    for (text, ty) in cases {
        let input = format!("fn hello() -> {};", text);
        assert_eq!(Interface::parse(&input), Ok(hello(vec![], Some(ty))), "{}", text);
    }
}

#[test]
fn parse_several_arguments_and_white_space() {
    let input = "\t fn\nhello ( a : u8 ,b:&string,\r\n c : Option<Thing> )->bool ;\n";
    assert_eq!(
        Interface::parse(input),
        Ok(hello(
            vec![
                ("a", Type::U8),
                ("b", Type::Ref(Box::new(Type::String))),
                ("c", Type::Option(Box::new(Type::Ident("Thing".to_string())))),
            ],
            Some(Type::Bool)
        ))
    );
}

#[test]
fn parse_keeps_the_order_of_items() {
    let input = "//! first\nfn a();\n/// about B\nobject B { }\n//! second\n/// about c\n/// more\nstatic fn c();\nobject D {\n fn e(x: &D);\n}";
    let function = |ident: &str, doc: Vec<&str>, is_static: bool, args: Vec<(String, Type)>| Function {
        doc: doc.into_iter().map(String::from).collect(),
        is_static,
        ident: ident.to_string(),
        args,
        ret: None,
    };
    assert_eq!(
        Interface::parse(input),
        Ok(Interface {
            doc: vec!["first".to_string(), "second".to_string()],
            functions: vec![
                function("a", vec![], false, vec![]),
                function("c", vec!["about c", "more"], true, vec![]),
            ],
            objects: vec![
                Object { doc: vec!["about B".to_string()], ident: "B".to_string(), methods: vec![] },
                Object {
                    doc: vec![],
                    ident: "D".to_string(),
                    methods: vec![function(
                        "e",
                        vec![],
                        false,
                        vec![(
                            "x".to_string(),
                            Type::Ref(Box::new(Type::Ident("D".to_string())))
                        )]
                    )],
                },
            ],
        })
    );
}

#[test]
fn parse_trims_documentation() {
    let input = "///   spaced out \t\n///\u{a0}wide\u{2003}\n////four\nfn hello();";
    let mut expected = hello(vec![], None);
    expected.functions[0].doc =
        vec!["spaced out".to_string(), "wide".to_string(), "/four".to_string()];
    assert_eq!(Interface::parse(input), Ok(expected));
    let res = Interface::parse("//!  only docs  ").unwrap();
    assert_eq!(res.doc, vec!["only docs".to_string()]);
}

#[test]
fn parse_rejects_what_does_not_follow_the_grammar() {
    let cases = [
        "fn",
        "fn hello",
        "fn hello()",
        "fn hello(;",
        "fn hello(a);",
        "fn hello(a: );",
        "fn hello(a: u8,);",
        "fn hello(a: u8 b: u8);",
        "fn hello() ->;",
        "fn hello() -> Vec<u8;",
        "fn hello() -> [u8;",
        "fn hello() -> Option<>;",
        "fn 9lives();",
        "hello();",
        "object {}",
        "object Greeter {",
        "object Greeter { fn greet() }",
        "object Greeter { //! inner\n }",
        "/// dangling",
        "fn hello(); }",
        "// plain comment\nfn hello();",
        "fn hello(a: (u8, u8));",
        "fn héllo();",
    ];
    for input in cases {
        assert_eq!(Interface::parse(input), Err(ParseError::Syntax), "{}", input);
    }
}

#[test]
fn parse_rejects_duplicate_objects() {
    let input = "object A {}\nfn f();\nobject B {}\nobject A { fn g(); }";
    assert_eq!(Interface::parse(input), Err(ParseError::DuplicateObject));
    assert!(Interface::parse("object A {}\nobject a {}").is_ok());
    assert_eq!(
        Interface::parse("object A {}\nobject A {}\nfn broken("),
        Err(ParseError::Syntax)
    );
}

#[test]
fn parse_error_messages() {
    assert_eq!(ParseError::Syntax.message(), "syntax error");
    assert_eq!(ParseError::DuplicateObject.message(), "duplicate object identifier");
}

#[test]
fn distinct_objects_compares_all_pairs() {
    let object = |ident: &str| Object { doc: vec![], ident: ident.to_string(), methods: vec![] };
    let iface = |names: &[&str]| Interface {
        doc: vec![],
        functions: vec![],
        objects: names.iter().map(|n| object(n)).collect(),
    };
    assert!(iface(&[]).distinct_objects());
    assert!(iface(&["A"]).distinct_objects());
    assert!(iface(&["A", "B", "C"]).distinct_objects());
    assert!(!iface(&["A", "B", "A"]).distinct_objects());
    assert!(!iface(&["B", "A", "A"]).distinct_objects());
}
