use webml::ast::{Declaration, DerivedDeclaration, DerivedExpr, Expr, Pattern, AST};
use webml::desugar::{desugar_ast, DesugarError, InfixTable};
use webml::prim::{Literal, Symbol};

fn sym(s: &str) -> Symbol {
    Symbol::new(s.to_string())
}

fn num(n: i64) -> Expr {
    Expr::Literal { value: Literal::Int(n) }
}

fn var(s: &str) -> Expr {
    Expr::Symbol { name: sym(s) }
}

fn val(name: &str, e: Expr) -> Declaration {
    Declaration::Val { rec: false, pattern: Pattern::Variable { name: sym(name) }, expr: e }
}

fn infix(p: u8, names: Vec<&str>) -> Declaration {
    Declaration::D(DerivedDeclaration::Infix {
        priority: Some(p),
        names: names.into_iter().map(sym).collect(),
    })
}

fn flat(es: Vec<Expr>) -> Expr {
    Expr::D(DerivedExpr::FlatApp { exprs: es })
}

fn binapp(op: &str, a: Expr, b: Expr) -> Expr {
    Expr::App {
        fun: Box::new(var(op)),
        arg: Box::new(Expr::Tuple { tuple: vec![a, b] }),
    }
}

#[test]
fn binop_desugars_to_prefix_tuple() {
    let ast = AST(vec![infix(6, vec!["+"]), val("x", flat(vec![num(1), var("+"), num(2)]))]);
    let (out, _) = desugar_ast(ast, InfixTable::new()).unwrap();
    assert_eq!(out, AST(vec![val("x", binapp("+", num(1), num(2)))]));
}

#[test]
fn binop_left_associative() {
    let ast = AST(vec![
        infix(6, vec!["+"]),
        val("x", flat(vec![num(1), var("+"), num(2), var("+"), num(3)])),
    ]);
    let (out, _) = desugar_ast(ast, InfixTable::new()).unwrap();
    assert_eq!(out, AST(vec![val("x", binapp("+", binapp("+", num(1), num(2)), num(3)))]));
}

#[test]
fn binop_priorities_parenthesize() {
    let ast = AST(vec![
        infix(6, vec!["+"]),
        infix(7, vec!["*"]),
        val("x", flat(vec![num(1), var("+"), num(2), var("*"), num(3)])),
    ]);
    let (out, _) = desugar_ast(ast, InfixTable::new()).unwrap();
    assert_eq!(out, AST(vec![val("x", binapp("+", num(1), binapp("*", num(2), num(3))))]));
}

#[test]
fn juxtaposition_binds_tighter_than_infix() {
    let ast = AST(vec![
        infix(6, vec!["+"]),
        val("x", flat(vec![var("f"), num(1), var("+"), num(2)])),
    ]);
    let (out, _) = desugar_ast(ast, InfixTable::new()).unwrap();
    let fx = Expr::App { fun: Box::new(var("f")), arg: Box::new(num(1)) };
    assert_eq!(out, AST(vec![val("x", binapp("+", fx, num(2)))]));
}

#[test]
fn desugar_twice_is_no_op() {
    let ast = AST(vec![
        infix(6, vec!["+"]),
        val("x", flat(vec![num(1), var("+"), num(2)])),
        val(
            "y",
            Expr::D(DerivedExpr::If {
                cond: Box::new(var("c")),
                then: Box::new(num(1)),
                else_: Box::new(num(2)),
            }),
        ),
    ]);
    let (once, table) = desugar_ast(ast, InfixTable::new()).unwrap();
    let first = format!("{:?}", once);
    let (twice, _) = desugar_ast(once, table).unwrap();
    assert_eq!(format!("{:?}", twice), first);
}

#[test]
fn if_desugars_to_boolean_case() {
    let ast = AST(vec![val(
        "x",
        Expr::D(DerivedExpr::If {
            cond: Box::new(var("c")),
            then: Box::new(num(1)),
            else_: Box::new(num(2)),
        }),
    )]);
    let (out, _) = desugar_ast(ast, InfixTable::new()).unwrap();
    let expected = Expr::Case {
        scrutinee: Box::new(var("c")),
        arms: vec![
            (Pattern::Constructor { name: sym("true"), arg: None }, num(1)),
            (Pattern::Constructor { name: sym("false"), arg: None }, num(2)),
        ],
    };
    assert_eq!(out, AST(vec![val("x", expected)]));
}

#[test]
fn fun_single_clause_desugars_to_rec_val() {
    let ast = AST(vec![Declaration::D(DerivedDeclaration::Fun {
        clauses: vec![(sym("f"), vec![Pattern::Variable { name: sym("x") }], var("x"))],
    })]);
    let (out, _) = desugar_ast(ast, InfixTable::new()).unwrap();
    let arg1 = Symbol { name: "arg".to_string(), id: 1 };
    let expected = Declaration::Val {
        rec: true,
        pattern: Pattern::Variable { name: sym("f") },
        expr: Expr::Fn {
            param: arg1.clone(),
            body: Box::new(Expr::Case {
                scrutinee: Box::new(Expr::Symbol { name: arg1 }),
                arms: vec![(Pattern::Variable { name: sym("x") }, var("x"))],
            }),
        },
    };
    assert_eq!(out, AST(vec![expected]));
}

#[test]
fn fun_two_params_splits_on_tuple() {
    let ast = AST(vec![Declaration::D(DerivedDeclaration::Fun {
        clauses: vec![(
            sym("f"),
            vec![Pattern::Variable { name: sym("a") }, Pattern::Wildcard],
            var("a"),
        )],
    })]);
    let (out, _) = desugar_ast(ast, InfixTable::new()).unwrap();
    match &out.0[0] {
        Declaration::Val { rec, expr, .. } => {
            assert!(*rec);
            match expr {
                Expr::Fn { param, body } => {
                    assert_eq!(param.id, 1);
                    match &**body {
                        Expr::Fn { param: p2, body: b2 } => {
                            assert_eq!(p2.id, 2);
                            match &**b2 {
                                Expr::Case { scrutinee, arms } => {
                                    assert!(matches!(&**scrutinee, Expr::Tuple { tuple } if tuple.len() == 2));
                                    assert_eq!(arms.len(), 1);
                                    assert!(matches!(&arms[0].0, Pattern::Tuple { tuple } if tuple.len() == 2));
                                }
                                other => panic!("not a case: {:?}", other),
                            }
                        }
                        other => panic!("not a second fn: {:?}", other),
                    }
                }
                other => panic!("not a fn: {:?}", other),
            }
        }
        other => panic!("not a val: {:?}", other),
    }
}

#[test]
fn fun_clause_name_mismatch_fails() {
    let ast = AST(vec![Declaration::D(DerivedDeclaration::Fun {
        clauses: vec![
            (sym("f"), vec![Pattern::Wildcard], num(1)),
            (sym("g"), vec![Pattern::Wildcard], num(2)),
        ],
    })]);
    assert_eq!(desugar_ast(ast, InfixTable::new()), Err(DesugarError::ClauseNameMismatch));
}

#[test]
fn builtincall_name_resolves() {
    let ast = AST(vec![val(
        "r",
        Expr::D(DerivedExpr::BuiltinCallNamed {
            name: "add".to_string(),
            args: vec![var("x"), var("y")],
        }),
    )]);
    let (out, _) = desugar_ast(ast, InfixTable::new()).unwrap();
    assert_eq!(
        out,
        AST(vec![val(
            "r",
            Expr::BuiltinCall { fun: webml::prim::BIF::Add, args: vec![var("x"), var("y")] }
        )])
    );
}

#[test]
fn builtincall_unknown_name_fails() {
    let ast = AST(vec![val(
        "r",
        Expr::D(DerivedExpr::BuiltinCallNamed { name: "frobnicate".to_string(), args: vec![] }),
    )]);
    assert_eq!(desugar_ast(ast, InfixTable::new()), Err(DesugarError::UnknownBuiltin));
}

#[test]
fn dangling_operator_fails() {
    let ast = AST(vec![
        infix(6, vec!["+"]),
        val("x", flat(vec![var("+"), num(1)])),
    ]);
    assert_eq!(desugar_ast(ast, InfixTable::new()), Err(DesugarError::InfixArityMismatch));
    let ast2 = AST(vec![
        infix(6, vec!["+"]),
        val("x", flat(vec![num(1), var("+")])),
    ]);
    assert_eq!(desugar_ast(ast2, InfixTable::new()), Err(DesugarError::InfixArityMismatch));
}

#[test]
fn infix_declaration_leaves_no_trace() {
    let ast = AST(vec![infix(6, vec!["+"]), val("x", num(1))]);
    let (out, table) = desugar_ast(ast, InfixTable::new()).unwrap();
    assert_eq!(out, AST(vec![val("x", num(1))]));
    assert_eq!(table.entries.len(), 1);
    assert_eq!(table.entries[0].1, 6);
}
