use webml::ast::{Declaration, DerivedDeclaration, DerivedExpr, Expr, Pattern, Type, AST};
use webml::desugar::{desugar_ast, InfixTable};
use webml::hir::HTy;
use webml::lower::{compile_unit, mir_wf_exec};
use webml::mir::Op;
use webml::pattern::Warn;
use webml::prim::{Literal, Symbol, BIF};
use webml::typing::{infer_ast, TypeError};

fn sym(s: &str) -> Symbol {
    Symbol::new(s.to_string())
}

fn num(n: i64) -> Expr {
    Expr::Literal { value: Literal::Int(n) }
}

fn var(s: &str) -> Expr {
    Expr::Symbol { name: sym(s) }
}

fn val(name: &str, e: Expr) -> Declaration {
    Declaration::Val { rec: false, pattern: Pattern::Variable { name: sym(name) }, expr: e }
}

fn desugared(decls: Vec<Declaration>) -> AST {
    let (out, _) = desugar_ast(AST(decls), InfixTable::new()).unwrap();
    out
}

fn ops_of_main(m: &webml::mir::MIR) -> &Vec<Op> {
    let main = m.0.iter().find(|f| f.name == sym("main")).unwrap();
    &main.body[0].body
}

#[test]
fn val_int_all_the_way_down() {
    let ast = desugared(vec![val("x", num(1))]);
    // inference gives the binding the integer type
    let (tast, _, errs) = infer_ast(&ast);
    assert!(errs.is_empty());
    assert_eq!(tast.0.len(), 1);
    assert_eq!(tast.0[0].ty, Type::Int);
    // the whole unit flattens to one function with one returning block
    let (hir, mir, warns, errs2) = compile_unit(&ast).unwrap();
    assert!(warns.is_empty());
    assert!(errs2.is_empty());
    assert_eq!(hir.0[0].ty, HTy::Int);
    assert_eq!(mir.0.len(), 1);
    let main = &mir.0[0];
    assert_eq!(main.body.len(), 1);
    let ops = &main.body[0].body;
    assert!(matches!(ops[0], Op::Lit { value: Literal::Int(1), .. }));
    assert!(matches!(ops[ops.len() - 1], Op::Ret { .. }));
}

#[test]
fn infix_add_resolves_and_lowers_to_builtin() {
    let ast = desugared(vec![
        Declaration::D(DerivedDeclaration::Infix { priority: Some(6), names: vec![sym("+")] }),
        val(
            "x",
            Expr::D(DerivedExpr::FlatApp { exprs: vec![num(1), var("+"), num(2)] }),
        ),
    ]);
    let (tast, _, errs) = infer_ast(&ast);
    assert!(errs.is_empty());
    // `+` came back at (int, int) -> int, so the binding is an int
    assert_eq!(tast.0[0].ty, Type::Int);
    let (_, mir, warns, _) = compile_unit(&ast).unwrap();
    assert!(warns.is_empty());
    let ops = ops_of_main(&mir);
    let add = ops.iter().position(|o| matches!(o, Op::Builtin { fun: BIF::Add, .. }));
    assert!(add.is_some());
    assert!(matches!(ops[ops.len() - 1], Op::Ret { .. }));
}

#[test]
fn multiplication_is_computed_before_addition() {
    let ast = desugared(vec![
        Declaration::D(DerivedDeclaration::Infix { priority: Some(6), names: vec![sym("+")] }),
        Declaration::D(DerivedDeclaration::Infix { priority: Some(7), names: vec![sym("*")] }),
        val(
            "x",
            Expr::D(DerivedExpr::FlatApp {
                exprs: vec![num(1), var("+"), num(2), var("*"), num(3)],
            }),
        ),
    ]);
    let (_, mir, _, errs) = compile_unit(&ast).unwrap();
    assert!(errs.is_empty());
    let ops = ops_of_main(&mir);
    let mul = ops.iter().position(|o| matches!(o, Op::Builtin { fun: BIF::Mul, .. })).unwrap();
    let add = ops.iter().position(|o| matches!(o, Op::Builtin { fun: BIF::Add, .. })).unwrap();
    assert!(mul < add);
}

#[test]
fn case_on_tuple_binds_without_warnings() {
    let case = Expr::Case {
        scrutinee: Box::new(Expr::Tuple { tuple: vec![num(1), num(2), num(3)] }),
        arms: vec![(
            Pattern::Tuple {
                tuple: vec![
                    Pattern::Variable { name: sym("x") },
                    Pattern::Variable { name: sym("y") },
                    Pattern::Variable { name: sym("z") },
                ],
            },
            var("z"),
        )],
    };
    let ast = desugared(vec![val("w", case)]);
    let (tast, _, errs) = infer_ast(&ast);
    assert!(errs.is_empty());
    assert_eq!(tast.0[0].ty, Type::Int);
    let (_, mir, warns, _) = compile_unit(&ast).unwrap();
    assert!(warns.is_empty());
    assert!(mir_wf_exec(&mir));
}

fn order_datatype() -> Declaration {
    Declaration::Datatype {
        name: sym("order"),
        constructors: vec![(sym("GREATER"), None), (sym("EQUAL"), None), (sym("LESS"), None)],
    }
}

#[test]
fn omitted_constructor_warns_through_the_pipeline() {
    let case = Expr::Fn {
        param: sym("o"),
        body: Box::new(Expr::Case {
            scrutinee: Box::new(var("o")),
            arms: vec![
                (Pattern::Variable { name: sym("GREATER") }, num(1)),
                (Pattern::Variable { name: sym("EQUAL") }, num(2)),
            ],
        }),
    };
    let ast = desugared(vec![order_datatype(), val("f", case)]);
    let (_, _, warns, errs) = compile_unit(&ast).unwrap();
    assert!(errs.is_empty());
    assert!(warns.iter().any(|w| *w == Warn::NonExhaustive));
}

#[test]
fn wildcard_arm_silences_the_warning() {
    let case = Expr::Fn {
        param: sym("o"),
        body: Box::new(Expr::Case {
            scrutinee: Box::new(var("o")),
            arms: vec![
                (Pattern::Variable { name: sym("GREATER") }, num(1)),
                (Pattern::Variable { name: sym("EQUAL") }, num(2)),
                (Pattern::Wildcard, num(3)),
            ],
        }),
    };
    let ast = desugared(vec![order_datatype(), val("f", case)]);
    let (_, _, warns, errs) = compile_unit(&ast).unwrap();
    assert!(errs.is_empty());
    assert!(!warns.iter().any(|w| *w == Warn::NonExhaustive));
}

#[test]
fn clausal_fun_becomes_recursive_val_and_warns() {
    let list = Declaration::Datatype {
        name: sym("list"),
        constructors: vec![(sym("Nil"), None), (sym("Cons"), Some(Type::Int))],
    };
    let fun = Declaration::D(DerivedDeclaration::Fun {
        clauses: vec![
            (
                sym("f"),
                vec![Pattern::Variable { name: sym("Nil") }, Pattern::Wildcard],
                var("Nil"),
            ),
            (
                sym("f"),
                vec![Pattern::Wildcard, Pattern::Variable { name: sym("Nil") }],
                var("Nil"),
            ),
        ],
    });
    let ast = desugared(vec![list, fun]);
    let (hir, _, warns, errs) = compile_unit(&ast).unwrap();
    assert!(errs.is_empty());
    // one recursive binding, a two-argument lambda chain
    assert_eq!(hir.0.len(), 1);
    assert!(hir.0[0].rec);
    assert_eq!(hir.0[0].name, sym("f"));
    assert!(matches!(&hir.0[0].expr, webml::hir::Expr::Fun { .. }));
    // (Cons, Cons) is not covered
    assert!(warns.iter().any(|w| *w == Warn::NonExhaustive));
}

#[test]
fn unknown_uppercase_pattern_stays_a_variable() {
    // no option datatype is in scope, so NONE is just a binder and the
    // match is exhaustive; this mirrors the observed front-end quirk
    let case = Expr::Fn {
        param: sym("v"),
        body: Box::new(Expr::Case {
            scrutinee: Box::new(var("v")),
            arms: vec![(Pattern::Variable { name: sym("NONE") }, num(1))],
        }),
    };
    let ast = desugared(vec![val("f", case)]);
    let (_, _, warns, errs) = compile_unit(&ast).unwrap();
    assert!(errs.is_empty());
    assert!(!warns.iter().any(|w| *w == Warn::NonExhaustive));
}

#[test]
fn unbound_symbol_reports_and_compilation_continues() {
    let ast = desugared(vec![val("x", var("mystery")), val("z", num(1))]);
    let (tast, _, errs) = infer_ast(&ast);
    assert_eq!(errs.len(), 1);
    assert!(matches!(errs[0], TypeError::UnboundSymbol { .. }));
    // the later declaration still made it through
    assert_eq!(tast.0.len(), 1);
    assert_eq!(tast.0[0].ty, Type::Int);
}

#[test]
fn applying_a_number_is_a_unification_error() {
    let bad = Expr::App { fun: Box::new(num(1)), arg: Box::new(num(2)) };
    let ast = desugared(vec![val("x", bad)]);
    let (_, _, errs) = infer_ast(&ast);
    assert!(errs.iter().any(|e| matches!(e, TypeError::Unify { .. })));
}

#[test]
fn builtin_arity_is_checked() {
    let bad = Expr::BuiltinCall { fun: BIF::Add, args: vec![num(1)] };
    let ast = desugared(vec![val("x", bad)]);
    let (_, _, errs) = infer_ast(&ast);
    assert!(errs.iter().any(|e| matches!(e, TypeError::ArityMismatch)));
}

#[test]
fn constructor_arity_is_checked() {
    let bad = Expr::Constructor { name: sym("true"), arg: Some(Box::new(num(1))) };
    let ast = desugared(vec![val("x", bad)]);
    let (_, _, errs) = infer_ast(&ast);
    assert!(errs.iter().any(|e| matches!(e, TypeError::ConstructorArityMismatch)));
}

#[test]
fn duplicate_binders_are_rejected() {
    let pat = Pattern::Tuple {
        tuple: vec![
            Pattern::Variable { name: sym("x") },
            Pattern::Variable { name: sym("x") },
        ],
    };
    let ast = AST(vec![Declaration::Val {
        rec: false,
        pattern: pat,
        expr: Expr::Tuple { tuple: vec![num(1), num(2)] },
    }]);
    let (_, _, errs) = infer_ast(&ast);
    assert!(errs.iter().any(|e| matches!(e, TypeError::DuplicateBinding { .. })));
}

#[test]
fn lambdas_are_hoisted_into_functions() {
    let f = Expr::Fn { param: sym("x"), body: Box::new(var("x")) };
    let ast = desugared(vec![val("f", f)]);
    let (_, mir, _, errs) = compile_unit(&ast).unwrap();
    assert!(errs.is_empty());
    // the hoisted lambda plus the main-like function
    assert_eq!(mir.0.len(), 2);
    assert!(mir_wf_exec(&mir));
    let ops = ops_of_main(&mir);
    assert!(ops.iter().any(|o| matches!(o, Op::MkClosure { .. })));
}

#[test]
fn branching_case_produces_a_well_formed_cfg() {
    let case = Expr::Fn {
        param: sym("n"),
        body: Box::new(Expr::Case {
            scrutinee: Box::new(var("n")),
            arms: vec![
                (Pattern::Constant { value: 1 }, num(10)),
                (Pattern::Constant { value: 2 }, num(20)),
                (Pattern::Wildcard, num(30)),
            ],
        }),
    };
    let ast = desugared(vec![val("f", case)]);
    let (_, mir, _, errs) = compile_unit(&ast).unwrap();
    assert!(errs.is_empty());
    assert!(mir_wf_exec(&mir));
    // the hoisted function branches, so it has several blocks, and its
    // control-flow graph is computable
    let f = mir.0.iter().find(|f| f.name.name == "f").unwrap();
    assert!(f.body.len() > 2);
    let g = f.cfg();
    assert!(g.node_count() >= 3);
    assert!(g.edge_count() >= g.node_count() - 1);
}

#[test]
fn value_restriction_keeps_nonvalues_monomorphic() {
    // a syntactic value generalizes: the identity applies at two types
    let id = Expr::Fn { param: sym("x"), body: Box::new(var("x")) };
    let use_both = Expr::Tuple {
        tuple: vec![
            Expr::App { fun: Box::new(var("id")), arg: Box::new(num(1)) },
            Expr::App {
                fun: Box::new(var("id")),
                arg: Box::new(Expr::Literal { value: Literal::Real(7) }),
            },
        ],
    };
    let ast = desugared(vec![val("id", id), val("p", use_both)]);
    let (_, _, errs) = infer_ast(&ast);
    assert!(errs.is_empty());
    // an application is not a value, so its type does not generalize
    let not_value = Expr::App {
        fun: Box::new(Expr::Fn { param: sym("x"), body: Box::new(var("x")) }),
        arg: Box::new(Expr::Fn { param: sym("y"), body: Box::new(var("y")) }),
    };
    let ast2 = desugared(vec![val("g", not_value), val("q", use_both_g())]);
    let (_, _, errs2) = infer_ast(&ast2);
    assert!(errs2.iter().any(|e| matches!(e, TypeError::Unify { .. })));
}

fn use_both_g() -> Expr {
    Expr::Tuple {
        tuple: vec![
            Expr::App {
                fun: Box::new(Expr::Symbol { name: sym("g") }),
                arg: Box::new(Expr::Literal { value: Literal::Int(1) }),
            },
            Expr::App {
                fun: Box::new(Expr::Symbol { name: sym("g") }),
                arg: Box::new(Expr::Literal { value: Literal::Real(7) }),
            },
        ],
    }
}

#[test]
fn discriminants_are_dense_and_zero_based() {
    let ast = desugared(vec![order_datatype(), val("x", var("LESS"))]);
    let (tast, ctors, errs) = infer_ast(&ast);
    assert!(errs.is_empty());
    let discs: Vec<u64> = ctors
        .list
        .iter()
        .filter(|c| c.dt == sym("order"))
        .map(|c| c.descriminant)
        .collect();
    assert_eq!(discs, vec![0, 1, 2]);
    // LESS elaborated as a constructor, not a variable
    assert!(matches!(tast.0[0].expr, webml::typing::TExpr::Con { descriminant: 2, .. }));
}

#[test]
fn lambda_captures_exactly_its_free_variables() {
    // fn x => fn y => x + y: the inner lambda captures x and nothing else
    let inner = Expr::App {
        fun: Box::new(var("+")),
        arg: Box::new(Expr::Tuple { tuple: vec![var("x"), var("y")] }),
    };
    let outer = Expr::Fn {
        param: sym("x"),
        body: Box::new(Expr::Fn { param: sym("y"), body: Box::new(inner) }),
    };
    let ast = desugared(vec![val("f", outer)]);
    let (hir, _, _, errs) = compile_unit(&ast).unwrap();
    assert!(errs.is_empty());
    match &hir.0[0].expr {
        webml::hir::Expr::Fun { captures, body, .. } => {
            // the outer lambda is closed: x is its own parameter
            assert!(captures.is_empty());
            match &**body {
                webml::hir::Expr::Fun { captures: inner_caps, .. } => {
                    let names: Vec<&str> =
                        inner_caps.iter().map(|c| c.1.name.as_str()).collect();
                    assert_eq!(names, vec!["x"]);
                }
                other => panic!("expected an inner lambda: {:?}", other),
            }
        }
        other => panic!("expected a lambda: {:?}", other),
    }
}

#[test]
fn top_level_names_are_not_captured() {
    // g refers to the earlier top-level f, so it captures nothing
    let id = Expr::Fn { param: sym("x"), body: Box::new(var("x")) };
    let g = Expr::Fn {
        param: sym("y"),
        body: Box::new(Expr::App { fun: Box::new(var("f")), arg: Box::new(var("y")) }),
    };
    let ast = desugared(vec![val("f", id), val("g", g)]);
    let (hir, _, _, errs) = compile_unit(&ast).unwrap();
    assert!(errs.is_empty());
    match &hir.0[1].expr {
        webml::hir::Expr::Fun { captures, .. } => assert!(captures.is_empty()),
        other => panic!("expected a lambda: {:?}", other),
    }
}

#[test]
fn duplicate_constructor_names_are_rejected() {
    let dt = Declaration::Datatype {
        name: sym("pair"),
        constructors: vec![(sym("Mk"), None), (sym("Mk"), Some(Type::Int))],
    };
    let ast = desugared(vec![dt, val("x", num(1))]);
    let (tast, _, errs) = infer_ast(&ast);
    assert!(errs.iter().any(|e| matches!(e, TypeError::DuplicateBinding { .. })));
    // the later declaration still made it through
    assert_eq!(tast.0.len(), 1);
}
