use clarity_types::typescript::{build_types, FnArg, FnType, Reporter, TupleField, TypeSig};

fn fixed(args: Vec<(&str, TypeSig)>, ret: TypeSig) -> FnType {
    FnType::Fixed {
        args: args
            .into_iter()
            .map(|(n, sig)| FnArg {
                name: n.to_string(),
                sig,
            })
            .collect(),
        ret,
    }
}

#[test]
fn renders_empty_contract_as_never() {
    let out = build_types("Empty", &vec![], &vec![]);
    assert_eq!(out, "// contract type\nexport type EmptyContract = never\n");
}

#[test]
fn renders_unsupported_functions_to_never_union() {
    let fns = vec![("mystery".to_string(), FnType::Unsupported)];
    let out = build_types("Odd", &vec![], &fns);
    assert_eq!(out, "// contract type\nexport type OddContract = never\n");
}

#[test]
fn two_unsupported_functions_emit_no_group_section() {
    let fns = vec![
        ("mystery".to_string(), FnType::Unsupported),
        ("also-odd".to_string(), FnType::Unsupported),
    ];
    let out = build_types("Odd", &fns, &fns);
    assert_eq!(out, "// contract type\nexport type OddContract = never\n");
}

#[test]
fn unsupported_functions_leave_no_blank_lines_between_declarations() {
    let fns = vec![
        ("skip-a".to_string(), FnType::Unsupported),
        ("get-a".to_string(), fixed(vec![], TypeSig::Bool)),
        ("skip-b".to_string(), FnType::Unsupported),
        ("get-b".to_string(), fixed(vec![], TypeSig::Bool)),
    ];
    let out = build_types("Mixed", &vec![], &fns);
    let expected = "import { BooleanCV } from \"@stacks/transactions\"\n\n// public functions\nexport type GetA = {\n    functionName: \"get-a\",\n    functionArgs: [],\n    functionReturn: BooleanCV,\n}\n\nexport type GetB = {\n    functionName: \"get-b\",\n    functionArgs: [],\n    functionReturn: BooleanCV,\n}\n\n// contract type\nexport type MixedContract = GetA | GetB\n";
    assert_eq!(out, expected);
}

#[test]
fn renders_placeholder_types() {
    let mut reporter = Reporter::new();
    assert_eq!(TypeSig::Callable.into_ts_type(&mut reporter), "unknown");
    assert_eq!(
        TypeSig::TraitReference.into_ts_type(&mut reporter),
        "unknown"
    );
    assert_eq!(TypeSig::ListUnion.into_ts_type(&mut reporter), "unknown[]");
    assert_eq!(TypeSig::NoType.into_ts_type(&mut reporter), "never");
    // placeholders require no import
    let none = build_types(
        "P",
        &vec![],
        &vec![("f".to_string(), fixed(vec![], TypeSig::Callable))],
    );
    assert!(!none.contains("import"));
}

#[test]
fn renders_nested_types() {
    let mut reporter = Reporter::new();
    let t = TypeSig::Optional(Box::new(TypeSig::List(Box::new(TypeSig::Response(
        Box::new(TypeSig::UInt),
        Box::new(TypeSig::StringAscii),
    )))));
    assert_eq!(
        t.into_ts_type(&mut reporter),
        "OptionalCV<ListCV<ResponseOkCV<UIntCV> | ResponseErrorCV<StringAsciiCV>>>"
    );
}

#[test]
fn renders_tuple_with_raw_field_names() {
    let mut reporter = Reporter::new();
    let t = TypeSig::Tuple(vec![
        TupleField {
            name: "a".to_string(),
            sig: TypeSig::Bool,
        },
        TupleField {
            name: "b-c".to_string(),
            sig: TypeSig::Int,
        },
    ]);
    assert_eq!(
        t.into_ts_type(&mut reporter),
        "TupleCV<{ a: BooleanCV, b-c: IntCV }>"
    );
}

#[test]
fn renders_function_declaration_exactly() {
    let fns = vec![(
        "get-balance".to_string(),
        fixed(
            vec![("who", TypeSig::Principal)],
            TypeSig::Response(Box::new(TypeSig::UInt), Box::new(TypeSig::NoType)),
        ),
    )];
    let out = build_types("Test", &vec![], &fns);
    let expected = "import { PrincipalCV, ResponseErrorCV, ResponseOkCV, UIntCV } from \"@stacks/transactions\"\n\n// public functions\nexport type GetBalance = {\n    functionName: \"get-balance\",\n    functionArgs: [who: PrincipalCV],\n    functionReturn: ResponseOkCV<UIntCV> | ResponseErrorCV<never>,\n}\n\n// contract type\nexport type TestContract = GetBalance\n";
    assert_eq!(out, expected);
}

#[test]
fn hyphenated_argument_names_become_underscored() {
    let fns = vec![(
        "f".to_string(),
        fixed(vec![("token-id", TypeSig::UInt)], TypeSig::Bool),
    )];
    let out = build_types("T", &vec![], &fns);
    assert!(out.contains("functionArgs: [token_id: UIntCV]"));
}

#[test]
fn eight_imports_render_on_one_line() {
    let fns = vec![(
        "f".to_string(),
        fixed(
            vec![
                ("a", TypeSig::Bool),
                ("b", TypeSig::Int),
                ("c", TypeSig::UInt),
                ("d", TypeSig::Principal),
                ("e", TypeSig::Optional(Box::new(TypeSig::Bool))),
                ("f", TypeSig::List(Box::new(TypeSig::Bool))),
                ("g", TypeSig::Buffer),
                ("h", TypeSig::StringAscii),
            ],
            TypeSig::Bool,
        ),
    )];
    let out = build_types("Eight", &vec![], &fns);
    assert!(out.starts_with(
        "import { BooleanCV, BufferCV, IntCV, ListCV, OptionalCV, PrincipalCV, \
         StringAsciiCV, UIntCV } from \"@stacks/transactions\"\n\n"
    ));
}

#[test]
fn nine_imports_render_one_per_line() {
    let fns = vec![(
        "f".to_string(),
        fixed(
            vec![
                ("a", TypeSig::Bool),
                ("b", TypeSig::Int),
                ("c", TypeSig::UInt),
                ("d", TypeSig::Principal),
                ("e", TypeSig::Optional(Box::new(TypeSig::Bool))),
                ("f", TypeSig::List(Box::new(TypeSig::Bool))),
                ("g", TypeSig::Buffer),
                ("h", TypeSig::StringAscii),
                ("i", TypeSig::StringUtf8),
            ],
            TypeSig::Bool,
        ),
    )];
    let out = build_types("Nine", &vec![], &fns);
    let expected = "import {\n\tBooleanCV,\n\tBufferCV,\n\tIntCV,\n\tListCV,\n\tOptionalCV,\n\tPrincipalCV,\n\tStringAsciiCV,\n\tStringUtf8CV,\n\tUIntCV,\n} from \"@stacks/transactions\"\n\n";
    assert!(out.starts_with(expected));
}

#[test]
fn rendering_is_deterministic() {
    let mk = || {
        vec![(
            "get-balance".to_string(),
            fixed(
                vec![("who", TypeSig::Principal)],
                TypeSig::Response(Box::new(TypeSig::UInt), Box::new(TypeSig::NoType)),
            ),
        )]
    };
    let a = build_types("Twice", &mk(), &mk());
    let b = build_types("Twice", &mk(), &mk());
    assert_eq!(a, b);
}

#[test]
fn readonly_and_public_groups_keep_their_order() {
    let ro = vec![("get-a".to_string(), fixed(vec![], TypeSig::Bool))];
    let pb = vec![("set-a".to_string(), fixed(vec![], TypeSig::Bool))];
    let out = build_types("Both", &ro, &pb);
    let ro_at = out.find("// readonly functions").unwrap();
    let pb_at = out.find("// public functions").unwrap();
    assert!(ro_at < pb_at);
    assert!(out.ends_with("export type BothContract = GetA | SetA\n"));
}
