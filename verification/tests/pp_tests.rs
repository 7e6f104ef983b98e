use webml::hir::{Expr, HTy, Pattern, Val, HIR};
use webml::prim::{Literal, Symbol, SymbolTable};

fn sym(s: &str) -> Symbol {
    Symbol::new(s.to_string())
}

fn render<F: FnOnce(&mut Vec<char>)>(f: F) -> String {
    let mut out: Vec<char> = Vec::new();
    f(&mut out);
    out.iter().collect()
}

#[test]
fn pp_val_simple() {
    let v = Val {
        rec: false,
        name: sym("x"),
        ty: HTy::Int,
        expr: Expr::Lit { ty: HTy::Int, value: Literal::Int(1) },
    };
    assert_eq!(render(|o| v.pp(o, 0)), "val x: int = 1");
}

#[test]
fn pp_val_rec_fun() {
    let v = Val {
        rec: true,
        name: sym("f"),
        ty: HTy::Fun(Box::new(HTy::Int), Box::new(HTy::Int)),
        expr: Expr::Fun {
            param: (HTy::Int, sym("x")),
            body_ty: HTy::Int,
            body: Box::new(Expr::Sym { ty: HTy::Int, name: sym("x") }),
            captures: vec![],
        },
    };
    assert_eq!(render(|o| v.pp(o, 0)), "val rec f: int -> int = fun() x => x");
}

#[test]
fn pp_symbol_counter() {
    let e = Expr::Sym { ty: HTy::Int, name: Symbol { name: "m".to_string(), id: 3 } };
    assert_eq!(render(|o| e.pp(o, 0)), "m@3");
}

#[test]
fn pp_tuple_and_app() {
    let e = Expr::App {
        ty: HTy::Int,
        fun: Box::new(Expr::Sym { ty: HTy::Int, name: sym("f") }),
        arg: Box::new(Expr::Tuple {
            tys: vec![HTy::Int, HTy::Int],
            tuple: vec![
                Expr::Lit { ty: HTy::Int, value: Literal::Int(1) },
                Expr::Lit { ty: HTy::Int, value: Literal::Int(2) },
            ],
        }),
    };
    assert_eq!(render(|o| e.pp(o, 0)), "(f) (1, 2)");
}

#[test]
fn pp_literal_forms() {
    let r = Expr::Lit { ty: HTy::Real, value: Literal::Real(5) };
    assert_eq!(render(|o| r.pp(o, 0)), "r#5");
    let c = Expr::Lit { ty: HTy::Char, value: Literal::Char(97) };
    assert_eq!(render(|o| c.pp(o, 0)), "#\"97\"");
    let n = Expr::Lit { ty: HTy::Int, value: Literal::Int(-42) };
    assert_eq!(render(|o| n.pp(o, 0)), "-42");
}

#[test]
fn pp_hty_shapes() {
    let t = HTy::Tuple(vec![HTy::Int, HTy::Fun(Box::new(HTy::Int), Box::new(HTy::Real))]);
    assert_eq!(render(|o| t.pp(o, 0)), "(int * int -> real)");
    let d = HTy::Datatype(sym("order"));
    assert_eq!(render(|o| d.pp(o, 0)), "order");
}

#[test]
fn pp_case_with_patterns() {
    let e = Expr::Case {
        ty: HTy::Int,
        expr: Box::new(Expr::Sym { ty: HTy::Int, name: sym("x") }),
        arms: vec![
            (
                Pattern::Constant { ty: HTy::Int, value: 1 },
                Expr::Lit { ty: HTy::Int, value: Literal::Int(2) },
            ),
            (
                Pattern::Var { ty: HTy::Int, name: sym("y") },
                Expr::Sym { ty: HTy::Int, name: sym("y") },
            ),
        ],
    };
    assert_eq!(render(|o| e.pp(o, 0)), "case x of\n1 => 2\ny => y");
}

#[test]
fn pp_pattern_forms() {
    let p = Pattern::Constructor {
        ty: HTy::Datatype(sym("opt")),
        descriminant: 1,
        arg: Some((HTy::Int, sym("v"))),
    };
    assert_eq!(render(|o| p.pp(o, 0)), "1(v)");
    let t = Pattern::Tuple { tys: vec![HTy::Int, HTy::Int], tuple: vec![sym("a"), sym("b")] };
    assert_eq!(render(|o| t.pp(o, 0)), "(a, b)");
}

#[test]
fn pp_binds_layout() {
    let e = Expr::Binds {
        ty: HTy::Int,
        binds: vec![Val {
            rec: false,
            name: sym("x"),
            ty: HTy::Int,
            expr: Expr::Lit { ty: HTy::Int, value: Literal::Int(1) },
        }],
        ret: Box::new(Expr::Sym { ty: HTy::Int, name: sym("x") }),
    };
    assert_eq!(render(|o| e.pp(o, 0)), "let\n    val x: int = 1\nin\n    x\nend");
}

#[test]
fn pp_whole_unit() {
    let h = HIR(vec![Val {
        rec: false,
        name: sym("x"),
        ty: HTy::Int,
        expr: Expr::Lit { ty: HTy::Int, value: Literal::Int(7) },
    }]);
    let st = SymbolTable::new();
    let prog = (st, h);
    let mut out: Vec<char> = Vec::new();
    webml::hir::pp::pp(&prog, &mut out, 0);
    let s: String = out.iter().collect();
    assert_eq!(s, "val x: int = 7\n");
}

#[test]
fn pp_closure_and_extern() {
    let e = Expr::Closure {
        envs: vec![(HTy::Int, sym("a"))],
        param_ty: HTy::Int,
        body_ty: HTy::Int,
        fname: sym("f"),
    };
    assert_eq!(render(|o| e.pp(o, 0)), "<closure f (a)>");
    let x = Expr::ExternCall {
        ty: HTy::Int,
        module: "core".to_string(),
        fun: "print".to_string(),
        args: vec![Expr::Lit { ty: HTy::Int, value: Literal::Int(1) }],
    };
    assert_eq!(render(|o| x.pp(o, 0)), "\"core\".\"print\"(1)");
}
