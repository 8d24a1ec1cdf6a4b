use clarity_types::analysis::ClarityVersion;
use clarity_types::errors::Error;
use clarity_types::parse_mem;
use clarity_types::source::Source;

const TRAIT_ID: &str = "SP000000000000000000002Q6VF78.traits";

fn trait_text() -> String {
    "(define-trait my-trait ((get-balance (principal) (response uint uint))))".to_string()
}

fn impl_text() -> String {
    "(impl-trait 'SP000000000000000000002Q6VF78.traits.my-trait)\n(define-public (get-balance (who principal)) (ok u0))\n"
    .to_string()
}

#[test]
fn public_function_renders_end_to_end() {
    let src = "(define-public (get-balance (who principal)) (ok u0))".to_string();
    let out = parse_mem(src, vec![], "Test".to_string(), None).unwrap();
    let expected = "import { PrincipalCV, ResponseErrorCV, ResponseOkCV, UIntCV } from \"@stacks/transactions\"\n\n// public functions\nexport type GetBalance = {\n    functionName: \"get-balance\",\n    functionArgs: [who: PrincipalCV],\n    functionReturn: ResponseOkCV<UIntCV> | ResponseErrorCV<never>,\n}\n\n// contract type\nexport type TestContract = GetBalance\n";
    assert_eq!(out, expected);
}

#[test]
fn readonly_function_renders_in_its_own_group() {
    let src = "(define-read-only (get-x) u1)".to_string();
    let out = parse_mem(src, vec![], "Reads".to_string(), None).unwrap();
    assert!(out.contains("// readonly functions\n"));
    assert!(out.contains("export type GetX = {\n"));
    assert!(out.contains("functionReturn: UIntCV,\n"));
    assert!(out.ends_with("export type ReadsContract = GetX\n"));
}

#[test]
fn parsing_twice_is_byte_identical() {
    let src = "(define-public (get-balance (who principal)) (ok u0))";
    let a = parse_mem(src.to_string(), vec![], "T".to_string(), None).unwrap();
    let b = parse_mem(src.to_string(), vec![], "T".to_string(), None).unwrap();
    assert_eq!(a, b);
}

#[test]
fn trait_supplied_in_memory_resolves() {
    let traits = vec![(TRAIT_ID.to_string(), trait_text())];
    let out = parse_mem(impl_text(), traits, "Impl".to_string(), None).unwrap();
    assert!(out.contains("export type GetBalance = {\n"));
    assert!(out.ends_with("export type ImplContract = GetBalance\n"));
}

#[test]
fn trait_key_differing_in_case_fails_with_read_trait() {
    let traits = vec![(TRAIT_ID.to_lowercase(), trait_text())];
    let err = parse_mem(impl_text(), traits, "Impl".to_string(), None).unwrap_err();
    match err {
        Error::ReadTrait { path, identifier } => {
            assert!(path.is_none());
            assert_eq!(identifier, TRAIT_ID);
        }
        _ => panic!("expected a ReadTrait failure"),
    }
}

#[test]
fn trait_key_with_extra_whitespace_fails_with_read_trait() {
    let traits = vec![(format!(" {}", TRAIT_ID), trait_text())];
    let err = parse_mem(impl_text(), traits, "Impl".to_string(), None).unwrap_err();
    assert!(matches!(err, Error::ReadTrait { .. }));
}

#[test]
fn missing_trait_fails_with_read_trait() {
    let err = parse_mem(impl_text(), vec![], "Impl".to_string(), None).unwrap_err();
    match err {
        Error::ReadTrait { path, identifier } => {
            assert!(path.is_none());
            assert_eq!(identifier, TRAIT_ID);
        }
        _ => panic!("expected a ReadTrait failure"),
    }
}

#[test]
fn malformed_contract_fails_with_parse_contract() {
    let err = parse_mem(
        "(define-public".to_string(),
        vec![],
        "Broken".to_string(),
        None,
    )
    .unwrap_err();
    match err {
        Error::ParseContract { diagnostics } => {
            assert!(!diagnostics.is_empty());
        }
        _ => panic!("expected a ParseContract failure"),
    }
}

#[test]
fn malformed_trait_fails_with_parse_trait() {
    let traits = vec![(TRAIT_ID.to_string(), "(define-trait".to_string())];
    let err = parse_mem(impl_text(), traits, "Impl".to_string(), None).unwrap_err();
    match err {
        Error::ParseTrait {
            diagnostics,
            identifier,
        } => {
            assert!(!diagnostics.is_empty());
            assert_eq!(identifier, TRAIT_ID);
        }
        _ => panic!("expected a ParseTrait failure"),
    }
}

#[test]
fn clarity_version_one_is_accepted() {
    let src = "(define-public (get-balance (who principal)) (ok u0))".to_string();
    let out = parse_mem(src, vec![], "V1".to_string(), Some(ClarityVersion::Clarity1)).unwrap();
    assert!(out.ends_with("export type V1Contract = GetBalance\n"));
}

#[test]
fn source_lookup_is_exact() {
    let source = Source::Mem {
        contract_source: "(ok u1)".to_string(),
        traits: vec![("a.b".to_string(), "text".to_string())],
    };
    assert_eq!(source.read_contract().unwrap(), "(ok u1)");
    assert_eq!(source.read_trait("a.b").unwrap(), "text");
    assert!(matches!(
        source.read_trait("a.B"),
        Err(Error::ReadTrait { .. })
    ));
    let nested = source.nest("a.b").unwrap();
    assert_eq!(nested.read_contract().unwrap(), "text");
    // the nested unit keeps the mapping passed down
    assert_eq!(nested.read_trait("a.b").unwrap(), "text");
    assert!(matches!(
        nested.read_trait("a.c"),
        Err(Error::ReadTrait { .. })
    ));
}

#[test]
fn trait_of_trait_resolves_from_the_same_mapping() {
    let c_trait = "(define-trait c-trait ((f (principal) (response uint uint))))".to_string();
    let b_trait = "(impl-trait 'SP000000000000000000002Q6VF78.cee.c-trait)\n(define-trait b-trait ((f (principal) (response uint uint))))\n(define-public (f (p principal)) (ok u0))\n".to_string();
    let top = "(impl-trait 'SP000000000000000000002Q6VF78.bee.b-trait)\n(define-public (f (p principal)) (ok u0))\n".to_string();
    let traits = vec![
        ("SP000000000000000000002Q6VF78.bee".to_string(), b_trait),
        ("SP000000000000000000002Q6VF78.cee".to_string(), c_trait),
    ];
    let out = parse_mem(top, traits, "Deep".to_string(), None).unwrap();
    assert!(out.ends_with("export type DeepContract = F\n"));
}

#[test]
fn trait_of_trait_missing_from_the_mapping_fails_with_read_trait() {
    let b_trait = "(impl-trait 'SP000000000000000000002Q6VF78.cee.c-trait)\n(define-trait b-trait ((f (principal) (response uint uint))))\n(define-public (f (p principal)) (ok u0))\n".to_string();
    let top = "(impl-trait 'SP000000000000000000002Q6VF78.bee.b-trait)\n(define-public (f (p principal)) (ok u0))\n".to_string();
    let traits = vec![("SP000000000000000000002Q6VF78.bee".to_string(), b_trait)];
    let err = parse_mem(top, traits, "Deep".to_string(), None).unwrap_err();
    match err {
        Error::ReadTrait { path, identifier } => {
            assert!(path.is_none());
            assert_eq!(identifier, "SP000000000000000000002Q6VF78.cee");
        }
        _ => panic!("expected a ReadTrait failure"),
    }
}

#[test]
fn cyclic_trait_graph_fails_with_cyclic_trait() {
    let a_trait = "(impl-trait 'SP000000000000000000002Q6VF78.ay.a-trait)\n(define-trait a-trait ((f (principal) (response uint uint))))\n(define-public (f (p principal)) (ok u0))\n".to_string();
    let top = "(impl-trait 'SP000000000000000000002Q6VF78.ay.a-trait)\n(define-public (f (p principal)) (ok u0))\n".to_string();
    let traits = vec![("SP000000000000000000002Q6VF78.ay".to_string(), a_trait)];
    let err = parse_mem(top, traits, "Loop".to_string(), None).unwrap_err();
    match err {
        Error::CyclicTrait { identifier } => {
            assert_eq!(identifier, "SP000000000000000000002Q6VF78.ay");
        }
        _ => panic!("expected a CyclicTrait failure"),
    }
}

#[test]
fn error_reports_name_their_unit() {
    let read = Error::ReadTrait {
        path: None,
        identifier: "SP0.traits".to_string(),
    };
    assert_eq!(read.to_text(), "Unable to read implemented trait SP0.traits");
    let read_at = Error::ReadTrait {
        path: Some("traits/SP0.traits.clar".to_string()),
        identifier: "SP0.traits".to_string(),
    };
    assert_eq!(
        read_at.to_text(),
        "Unable to read implemented trait SP0.traits at: \"traits/SP0.traits.clar\""
    );
    let parse = Error::ParseContract {
        diagnostics: vec!["first".to_string(), "second".to_string()],
    };
    assert_eq!(parse.to_text(), "first\nsecond\nUnable to parse contract");
    let name = Error::ParseContractName {
        path: "dir/contract.clar".to_string(),
    };
    assert_eq!(
        name.to_text(),
        "Failed to get contract name from path: \"dir/contract.clar\""
    );
    let contract = Error::ReadContract {
        path: "dir/contract.clar".to_string(),
    };
    assert_eq!(
        contract.to_text(),
        "Unable to read contract at: \"dir/contract.clar\""
    );
    let pt = Error::ParseTrait {
        diagnostics: vec!["oops".to_string()],
        identifier: "SP0.traits".to_string(),
    };
    assert_eq!(
        pt.to_text(),
        "oops\nUnable to parse implemented trait SP0.traits"
    );
    let cyc = Error::CyclicTrait {
        identifier: "SP0.traits".to_string(),
    };
    assert_eq!(cyc.to_text(), "Cyclic implemented trait SP0.traits");
}
