use webml::ast::Pattern;
use webml::pattern::{compile_case, CtorEnv, CtorInfo, DecisionTree, Warn};
use webml::prim::Symbol;

fn sym(s: &str) -> Symbol {
    Symbol::new(s.to_string())
}

fn order_env() -> CtorEnv {
    CtorEnv {
        entries: vec![
            (sym("GREATER"), CtorInfo { descriminant: 0, has_arg: false, nctors: 3 }),
            (sym("EQUAL"), CtorInfo { descriminant: 1, has_arg: false, nctors: 3 }),
            (sym("LESS"), CtorInfo { descriminant: 2, has_arg: false, nctors: 3 }),
        ],
    }
}

fn opt_env() -> CtorEnv {
    CtorEnv {
        entries: vec![
            (sym("NONE"), CtorInfo { descriminant: 0, has_arg: false, nctors: 2 }),
            (sym("SOME"), CtorInfo { descriminant: 1, has_arg: true, nctors: 2 }),
        ],
    }
}

fn ctor(name: &str) -> Pattern {
    Pattern::Constructor { name: sym(name), arg: None }
}

fn has_nonexhaustive(warns: &[Warn]) -> bool {
    warns.iter().any(|w| *w == Warn::NonExhaustive)
}

#[test]
fn tuple_of_variables_is_decompose_and_binds() {
    let pats = vec![Pattern::Tuple {
        tuple: vec![
            Pattern::Variable { name: sym("x") },
            Pattern::Variable { name: sym("y") },
            Pattern::Variable { name: sym("z") },
        ],
    }];
    let (tree, warns) = compile_case(&pats, &CtorEnv::new()).unwrap();
    assert!(warns.is_empty());
    // one decompose, then three binds, then the single leaf
    let mut t = &tree;
    match t {
        DecisionTree::Decompose { width, rest, .. } => {
            assert_eq!(*width, 3);
            t = rest;
        }
        other => panic!("expected a decompose at the root: {:?}", other),
    }
    let mut binds = 0;
    loop {
        match t {
            DecisionTree::Bind { rest, .. } => {
                binds += 1;
                t = rest;
            }
            DecisionTree::Leaf { arm } => {
                assert_eq!(*arm, 0);
                break;
            }
            other => panic!("unexpected node: {:?}", other),
        }
    }
    assert_eq!(binds, 3);
}

#[test]
fn omitted_constructor_is_nonexhaustive() {
    let pats = vec![ctor("GREATER"), ctor("EQUAL")];
    let (tree, warns) = compile_case(&pats, &order_env()).unwrap();
    assert!(has_nonexhaustive(&warns));
    match tree {
        DecisionTree::SwitchCtor { cases, default, .. } => {
            assert_eq!(cases.len(), 2);
            assert!(matches!(*default.unwrap(), DecisionTree::Fail));
        }
        other => panic!("expected a constructor switch: {:?}", other),
    }
}

#[test]
fn wildcard_arm_suppresses_nonexhaustive() {
    let pats = vec![ctor("GREATER"), ctor("EQUAL"), Pattern::Wildcard];
    let (_, warns) = compile_case(&pats, &order_env()).unwrap();
    assert!(!has_nonexhaustive(&warns));
}

#[test]
fn full_cover_needs_no_default() {
    let pats = vec![ctor("GREATER"), ctor("EQUAL"), ctor("LESS")];
    let (tree, warns) = compile_case(&pats, &order_env()).unwrap();
    assert!(warns.is_empty());
    match tree {
        DecisionTree::SwitchCtor { cases, default, .. } => {
            assert_eq!(cases.len(), 3);
            assert!(default.is_none());
        }
        other => panic!("expected a constructor switch: {:?}", other),
    }
}

#[test]
fn integer_switch_with_default() {
    let pats = vec![
        Pattern::Constant { value: 1 },
        Pattern::Constant { value: 2 },
        Pattern::Wildcard,
    ];
    let (tree, warns) = compile_case(&pats, &CtorEnv::new()).unwrap();
    assert!(warns.is_empty());
    match tree {
        DecisionTree::SwitchInt { cases, default, .. } => {
            assert_eq!(cases.len(), 2);
            assert!(matches!(*default, DecisionTree::Leaf { arm: 2 }));
        }
        other => panic!("expected an integer switch: {:?}", other),
    }
}

#[test]
fn integers_alone_are_never_exhaustive() {
    let pats = vec![Pattern::Constant { value: 1 }];
    let (_, warns) = compile_case(&pats, &CtorEnv::new()).unwrap();
    assert!(has_nonexhaustive(&warns));
}

#[test]
fn arm_after_catch_all_is_redundant() {
    let pats = vec![Pattern::Wildcard, Pattern::Constant { value: 1 }];
    let (tree, warns) = compile_case(&pats, &CtorEnv::new()).unwrap();
    assert!(matches!(tree, DecisionTree::Leaf { arm: 0 }));
    assert!(warns.iter().any(|w| *w == Warn::RedundantArm { index: 1 }));
    assert!(!has_nonexhaustive(&warns));
}

#[test]
fn constructor_argument_is_matched_through() {
    let pats = vec![
        Pattern::Constructor {
            name: sym("SOME"),
            arg: Some(Box::new(Pattern::Constant { value: 5 })),
        },
        Pattern::Wildcard,
    ];
    let (tree, warns) = compile_case(&pats, &opt_env()).unwrap();
    assert!(!has_nonexhaustive(&warns));
    match tree {
        DecisionTree::SwitchCtor { cases, .. } => {
            assert_eq!(cases[0].0, 1);
            assert!(matches!(&cases[0].1, DecisionTree::SwitchInt { .. }));
        }
        other => panic!("expected a constructor switch: {:?}", other),
    }
}

#[test]
fn char_switch() {
    let pats = vec![Pattern::Char { value: 97 }, Pattern::Wildcard];
    let (tree, warns) = compile_case(&pats, &CtorEnv::new()).unwrap();
    assert!(warns.is_empty());
    assert!(matches!(tree, DecisionTree::SwitchChar { .. }));
}
