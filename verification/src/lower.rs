use vstd::prelude::*;

use crate::ast::Type;
use crate::hir;
use crate::hir::HTy;
use crate::pattern::{compile_case, CtorEnv, DecisionTree, Warn};
use crate::prim::{InternalError, Symbol};
use crate::typing::{Ctors, TArm, TExpr, TVal, TAST};
use vstd::string::StringExecFns;

verus! {

/// Two HIR types agree structurally.
pub open spec fn hty_deq(a: HTy, b: HTy) -> bool
    decreases a,
{
    match (a, b) {
        (HTy::Char, HTy::Char) => true,
        (HTy::Int, HTy::Int) => true,
        (HTy::Real, HTy::Real) => true,
        (HTy::Tuple(x), HTy::Tuple(y)) => x@.len() == y@.len() && forall|i: int|
            0 <= i < x@.len() ==> hty_deq(#[trigger] x@[i], y@[i]),
        (HTy::Fun(a1, a2), HTy::Fun(b1, b2)) => hty_deq(*a1, *b1) && hty_deq(*a2, *b2),
        (HTy::Datatype(s1), HTy::Datatype(s2)) => crate::prim::sym_key(s1)
            == crate::prim::sym_key(s2),
        _ => false,
    }
}

/// The HIR type a core type carries over to: the same shape, with a
/// unification variable (inference grounds them all) reading as unit.
pub open spec fn carries_to(t: Type, h: HTy) -> bool
    decreases t,
{
    match (t, h) {
        (Type::Int, HTy::Int) => true,
        (Type::Real, HTy::Real) => true,
        (Type::Char, HTy::Char) => true,
        (Type::Tuple(x), HTy::Tuple(y)) => x@.len() == y@.len() && forall|i: int|
            0 <= i < x@.len() ==> carries_to(#[trigger] x@[i], y@[i]),
        (Type::Fun(a1, a2), HTy::Fun(b1, b2)) => carries_to(*a1, *b1) && carries_to(*a2, *b2),
        (Type::Datatype(s1), HTy::Datatype(s2)) => crate::prim::sym_key(s1)
            == crate::prim::sym_key(s2),
        (Type::Variable(_), HTy::Tuple(y)) => y@.len() == 0,
        _ => false,
    }
}

/// Carry a type into the higher IR; a surviving unification variable
/// (inference grounds them all) reads as the unit type.
pub fn ty_to_hty(t: &Type) -> (r: HTy)
    ensures
        carries_to(*t, r),
    decreases *t,
{
    match t {
        Type::Int => HTy::Int,
        Type::Real => HTy::Real,
        Type::Char => HTy::Char,
        Type::Tuple(ts) => {
            let mut out: Vec<HTy> = Vec::new();
            tys_to_htys_into(ts, 0, &mut out);
            HTy::Tuple(out)
        }
        Type::Fun(a, b) => HTy::Fun(Box::new(ty_to_hty(a)), Box::new(ty_to_hty(b))),
        Type::Datatype(s) => HTy::Datatype(s.clone()),
        Type::Variable(_) => HTy::Tuple(Vec::new()),
    }
}

fn tys_to_htys_into(ts: &Vec<Type>, j: usize, out: &mut Vec<HTy>)
    requires
        j <= ts@.len(),
        out@.len() == j,
        forall|i: int| 0 <= i < j ==> carries_to(ts@[i], #[trigger] out@[i]),
    ensures
        final(out)@.len() == ts@.len(),
        forall|i: int| 0 <= i < ts@.len() ==> carries_to(ts@[i], #[trigger] final(out)@[i]),
    decreases *ts, ts@.len() - j,
{
    if j < ts.len() {
        let c = ty_to_hty(&ts[j]);
        out.push(c);
        tys_to_htys_into(ts, j + 1, out);
    }
}

/// A deep copy of an HIR type.
pub fn clone_hty(t: &HTy) -> (r: HTy)
    ensures
        hty_deq(r, *t),
    decreases *t,
{
    match t {
        HTy::Char => HTy::Char,
        HTy::Int => HTy::Int,
        HTy::Real => HTy::Real,
        HTy::Tuple(ts) => {
            let mut out: Vec<HTy> = Vec::new();
            clone_htys_into(ts, 0, &mut out);
            HTy::Tuple(out)
        }
        HTy::Fun(a, b) => HTy::Fun(Box::new(clone_hty(a)), Box::new(clone_hty(b))),
        HTy::Datatype(s) => HTy::Datatype(s.clone()),
    }
}

fn clone_htys_into(ts: &Vec<HTy>, j: usize, out: &mut Vec<HTy>)
    requires
        j <= ts@.len(),
        out@.len() == j,
        forall|i: int| 0 <= i < j ==> hty_deq(#[trigger] out@[i], ts@[i]),
    ensures
        final(out)@.len() == ts@.len(),
        forall|i: int| 0 <= i < ts@.len() ==> hty_deq(#[trigger] final(out)@[i], ts@[i]),
    decreases *ts, ts@.len() - j,
{
    if j < ts.len() {
        let c = clone_hty(&ts[j]);
        out.push(c);
        clone_htys_into(ts, j + 1, out);
    }
}

/// Is this one of the ambient operators?  They are top-level names:
/// a lambda never captures them.
fn is_prim_name(s: &Symbol) -> bool {
    if s.id != 0 {
        return false;
    }
    let mut prims: Vec<&str> = Vec::new();
    prims.push("+");
    prims.push("-");
    prims.push("*");
    prims.push("div");
    prims.push("mod");
    prims.push("=");
    prims.push("<>");
    prims.push("<");
    prims.push(">");
    prims.push("<=");
    prims.push(">=");
    let mut p: usize = 0;
    while p < prims.len()
        decreases prims@.len() - p,
    {
        if s.name == String::from_str(prims[p]) {
            return true;
        }
        p = p + 1;
    }
    false
}

fn sym_in(v: &Vec<Symbol>, s: &Symbol) -> bool {
    let mut j: usize = 0;
    while j < v.len()
        decreases v@.len() - j,
    {
        if v[j] == *s {
            return true;
        }
        j = j + 1;
    }
    false
}

fn cap_in(v: &Vec<(HTy, Symbol)>, s: &Symbol) -> bool {
    let mut j: usize = 0;
    while j < v.len()
        decreases v@.len() - j,
    {
        if v[j].1 == *s {
            return true;
        }
        j = j + 1;
    }
    false
}

/// Collect the free variables of a typed expression, bottom up:
/// binders subtract their names, references add themselves unless
/// they resolve to a top-level (or bound, or already seen) symbol.
fn free_vars(e: &TExpr, bound: &mut Vec<Symbol>, globals: &Vec<Symbol>, out: &mut Vec<(HTy, Symbol)>)
    decreases *e, 0int,
{
    match e {
        TExpr::Sym { ty, name } => {
            if !sym_in(bound, name) && !sym_in(globals, name) && !is_prim_name(name) && !cap_in(
                out,
                name,
            ) {
                out.push((ty_to_hty(ty), name.clone()));
            }
        }
        TExpr::Lit { .. } => {}
        TExpr::Con { arg, .. } => {
            match arg {
                Some(a) => free_vars(a, bound, globals, out),
                None => {}
            }
        }
        TExpr::Tuple { tuple, .. } => free_vars_list(tuple, 0, bound, globals, out),
        TExpr::App { fun, arg, .. } => {
            free_vars(fun, bound, globals, out);
            free_vars(arg, bound, globals, out);
        }
        TExpr::Fn { param, body, .. } => {
            let depth = bound.len();
            bound.push(param.clone());
            free_vars(body, bound, globals, out);
            bound.truncate(depth);
        }
        TExpr::Binds { binds, ret, .. } => {
            let depth = bound.len();
            free_vars_binds(binds, 0, bound, globals, out);
            free_vars(ret, bound, globals, out);
            bound.truncate(depth);
        }
        TExpr::Case { scrutinee, arms, .. } => {
            free_vars(scrutinee, bound, globals, out);
            free_vars_arms(arms, 0, bound, globals, out);
        }
        TExpr::BuiltinCall { args, .. } => free_vars_list(args, 0, bound, globals, out),
        TExpr::ExternCall { args, .. } => free_vars_list(args, 0, bound, globals, out),
        TExpr::Proj { tuple, .. } => free_vars(tuple, bound, globals, out),
    }
}

fn free_vars_list(
    es: &Vec<TExpr>,
    j: usize,
    bound: &mut Vec<Symbol>,
    globals: &Vec<Symbol>,
    out: &mut Vec<(HTy, Symbol)>,
)
    requires
        j <= es@.len(),
    decreases *es, es@.len() - j,
{
    if j < es.len() {
        free_vars(&es[j], bound, globals, out);
        free_vars_list(es, j + 1, bound, globals, out);
    }
}

fn free_vars_arms(
    arms: &Vec<TArm>,
    j: usize,
    bound: &mut Vec<Symbol>,
    globals: &Vec<Symbol>,
    out: &mut Vec<(HTy, Symbol)>,
)
    requires
        j <= arms@.len(),
    decreases *arms, arms@.len() - j,
{
    if j < arms.len() {
        let depth = bound.len();
        let arm = &arms[j];
        let mut b: usize = 0;
        while b < arm.binders.len()
            decreases arm.binders@.len() - b,
        {
            bound.push(arm.binders[b].0.clone());
            b = b + 1;
        }
        free_vars(&arm.body, bound, globals, out);
        bound.truncate(depth);
        free_vars_arms(arms, j + 1, bound, globals, out);
    }
}

fn free_vars_binds(
    vs: &Vec<TVal>,
    j: usize,
    bound: &mut Vec<Symbol>,
    globals: &Vec<Symbol>,
    out: &mut Vec<(HTy, Symbol)>,
)
    requires
        j <= vs@.len(),
    decreases *vs, vs@.len() - j,
{
    if j < vs.len() {
        let v = &vs[j];
        if v.rec {
            let mut b: usize = 0;
            while b < v.binders.len()
                decreases v.binders@.len() - b,
            {
                bound.push(v.binders[b].0.clone());
                b = b + 1;
            }
            free_vars(&v.expr, bound, globals, out);
        } else {
            free_vars(&v.expr, bound, globals, out);
            let mut b: usize = 0;
            while b < v.binders.len()
                decreases v.binders@.len() - b,
            {
                bound.push(v.binders[b].0.clone());
                b = b + 1;
            }
        }
        free_vars_binds(vs, j + 1, bound, globals, out);
    }
}

/// The next hidden symbol: print form `m`, disambiguated by a counter
/// no source symbol can carry.
fn hidden_sym(counter: &mut u64) -> Symbol {
    let v = *counter;
    if *counter < u64::MAX {
        *counter = *counter + 1;
    }
    Symbol { name: String::from_str("m"), id: v }
}

fn path_clone(p: &Vec<u64>) -> (r: Vec<u64>)
    ensures
        r@ == p@,
{
    let mut out: Vec<u64> = Vec::new();
    let mut j: usize = 0;
    while j < p.len()
        invariant
            j <= p@.len(),
            out@ == p@.subrange(0, j as int),
        decreases p@.len() - j,
    {
        out.push(p[j]);
        proof {
            assert(out@ =~= p@.subrange(0, j + 1));
        }
        j = j + 1;
    }
    proof {
        assert(out@ =~= p@);
    }
    out
}

fn path_eq(a: &Vec<u64>, b: &Vec<u64>) -> bool {
    if a.len() != b.len() {
        return false;
    }
    let mut j: usize = 0;
    while j < a.len()
        invariant
            a@.len() == b@.len(),
        decreases a@.len() - j,
    {
        if a[j] != b[j] {
            return false;
        }
        j = j + 1;
    }
    true
}

fn env_lookup(env: &Vec<(Vec<u64>, Symbol, HTy)>, p: &Vec<u64>) -> Option<(Symbol, HTy)> {
    let mut j: usize = 0;
    while j < env.len()
        decreases env@.len() - j,
    {
        if path_eq(&env[j].0, p) {
            return Some((env[j].1.clone(), clone_hty(&env[j].2)));
        }
        j = j + 1;
    }
    None
}

fn find_by_disc(ctors: &Ctors, dt: &Symbol, disc: u64) -> (r: Option<usize>)
    ensures
        r matches Some(i) ==> i < ctors.list@.len(),
{
    let mut j: usize = 0;
    while j < ctors.list.len()
        invariant
            j <= ctors.list@.len(),
        decreases ctors.list@.len() - j,
    {
        if ctors.list[j].dt == *dt && ctors.list[j].descriminant == disc {
            return Some(j);
        }
        j = j + 1;
    }
    None
}

/// Build one HIR expression from a typed expression.  Functions get
/// their captured environment by set subtraction; `case` bodies embed
/// the compiled decision tree as a nest of flat-pattern cases.
fn build_expr(
    e: &TExpr,
    globals: &Vec<Symbol>,
    ctors: &Ctors,
    counter: &mut u64,
    warns: &mut Vec<Warn>,
) -> (r: Result<hir::Expr, InternalError>)
    decreases *e, *e, 2int,
{
    match e {
        TExpr::Sym { ty, name } => Ok(hir::Expr::Sym { ty: ty_to_hty(ty), name: name.clone() }),
        TExpr::Lit { ty, value } => Ok(hir::Expr::Lit { ty: ty_to_hty(ty), value: *value }),
        TExpr::Con { ty, descriminant, arg } => {
            let harg = match arg {
                Some(a) => match build_expr(a, globals, ctors, counter, warns) {
                    Ok(h) => Some(Box::new(h)),
                    Err(er) => {
                        return Err(er);
                    }
                },
                None => None,
            };
            Ok(
                hir::Expr::Constructor {
                    ty: ty_to_hty(ty),
                    descriminant: *descriminant,
                    arg: harg,
                },
            )
        }
        TExpr::Tuple { tys, tuple } => {
            let mut htys: Vec<HTy> = Vec::new();
            tys_to_htys_into(tys, 0, &mut htys);
            let mut parts: Vec<hir::Expr> = Vec::new();
            match build_exprs_into(tuple, 0, globals, ctors, counter, warns, &mut parts) {
                Ok(()) => Ok(hir::Expr::Tuple { tys: htys, tuple: parts }),
                Err(er) => Err(er),
            }
        }
        TExpr::App { ty, fun, arg } => {
            match prim_op_app(fun, arg, globals) {
                Some(op) => {
                    let mut hargs: Vec<hir::Expr> = Vec::new();
                    match arg_pair(arg, globals, ctors, counter, warns, &mut hargs) {
                        Ok(()) => {
                            return Ok(
                                hir::Expr::BuiltinCall { ty: ty_to_hty(ty), fun: op, args: hargs },
                            );
                        }
                        Err(er) => {
                            return Err(er);
                        }
                    }
                }
                None => {}
            }
            let hf = match build_expr(fun, globals, ctors, counter, warns) {
                Ok(h) => h,
                Err(er) => {
                    return Err(er);
                }
            };
            let ha = match build_expr(arg, globals, ctors, counter, warns) {
                Ok(h) => h,
                Err(er) => {
                    return Err(er);
                }
            };
            Ok(hir::Expr::App { ty: ty_to_hty(ty), fun: Box::new(hf), arg: Box::new(ha) })
        }
        TExpr::Fn { param_ty, body_ty, param, body } => {
            let hb = match build_expr(body, globals, ctors, counter, warns) {
                Ok(h) => h,
                Err(er) => {
                    return Err(er);
                }
            };
            let mut bound: Vec<Symbol> = Vec::new();
            bound.push(param.clone());
            let mut captures: Vec<(HTy, Symbol)> = Vec::new();
            free_vars(body, &mut bound, globals, &mut captures);
            Ok(
                hir::Expr::Fun {
                    param: (ty_to_hty(param_ty), param.clone()),
                    body_ty: ty_to_hty(body_ty),
                    body: Box::new(hb),
                    captures,
                },
            )
        }
        TExpr::Binds { ty, binds, ret } => {
            let mut hvals: Vec<hir::Val> = Vec::new();
            match build_vals_into(binds, 0, globals, ctors, counter, warns, &mut hvals) {
                Ok(()) => {}
                Err(er) => {
                    return Err(er);
                }
            }
            let hr = match build_expr(ret, globals, ctors, counter, warns) {
                Ok(h) => h,
                Err(er) => {
                    return Err(er);
                }
            };
            Ok(hir::Expr::Binds { ty: ty_to_hty(ty), binds: hvals, ret: Box::new(hr) })
        }
        TExpr::Case { ty, scrutinee_ty, scrutinee, arms } => {
            let hs = match build_expr(scrutinee, globals, ctors, counter, warns) {
                Ok(h) => h,
                Err(er) => {
                    return Err(er);
                }
            };
            // compile the arm patterns into a decision tree
            let mut pats: Vec<crate::ast::Pattern> = Vec::new();
            collect_arm_pats(arms, 0, &mut pats);
            let cenv: CtorEnv = ctors.to_ctor_env();
            let (tree, mut w2) = match compile_case(&pats, &cenv) {
                Ok(p) => p,
                Err(er) => {
                    return Err(er);
                }
            };
            let mut wi: usize = 0;
            while wi < w2.len()
                decreases w2@.len() - wi,
            {
                warns.push(w2[wi]);
                wi = wi + 1;
            }
            let res_hty = ty_to_hty(ty);
            let scrut_hty = ty_to_hty(scrutinee_ty);
            let root = hidden_sym(counter);
            let mut env: Vec<(Vec<u64>, Symbol, HTy)> = Vec::new();
            env.push((Vec::new(), root.clone(), clone_hty(&scrut_hty)));
            let body = match materialize(
                &tree,
                arms,
                &mut env,
                &res_hty,
                globals,
                ctors,
                counter,
                warns,
            ) {
                Ok(h) => h,
                Err(er) => {
                    return Err(er);
                }
            };
            let mut binds: Vec<hir::Val> = Vec::new();
            binds.push(hir::Val { rec: false, name: root, ty: scrut_hty, expr: hs });
            Ok(hir::Expr::Binds { ty: res_hty, binds, ret: Box::new(body) })
        }
        TExpr::BuiltinCall { ty, fun, args } => {
            let mut parts: Vec<hir::Expr> = Vec::new();
            match build_exprs_into(args, 0, globals, ctors, counter, warns, &mut parts) {
                Ok(()) => Ok(hir::Expr::BuiltinCall { ty: ty_to_hty(ty), fun: *fun, args: parts }),
                Err(er) => Err(er),
            }
        }
        TExpr::ExternCall { ty, module, fun, args } => {
            let mut parts: Vec<hir::Expr> = Vec::new();
            match build_exprs_into(args, 0, globals, ctors, counter, warns, &mut parts) {
                Ok(()) => Ok(
                    hir::Expr::ExternCall {
                        ty: ty_to_hty(ty),
                        module: module.clone(),
                        fun: fun.clone(),
                        args: parts,
                    },
                ),
                Err(er) => Err(er),
            }
        }
        TExpr::Proj { ty, index, tuple } => {
            let ht = match build_expr(tuple, globals, ctors, counter, warns) {
                Ok(h) => h,
                Err(er) => {
                    return Err(er);
                }
            };
            Ok(hir::Expr::Proj { ty: ty_to_hty(ty), index: *index, tuple: Box::new(ht) })
        }
    }
}

fn collect_arm_pats(arms: &Vec<TArm>, j: usize, out: &mut Vec<crate::ast::Pattern>)
    requires
        j <= arms@.len(),
    decreases *arms, arms@.len() - j,
{
    if j < arms.len() {
        out.push(clone_ast_pattern(&arms[j].pattern));
        collect_arm_pats(arms, j + 1, out);
    }
}

fn clone_ast_pattern(p: &crate::ast::Pattern) -> (r: crate::ast::Pattern)
    decreases *p,
{
    match p {
        crate::ast::Pattern::Constant { value } => crate::ast::Pattern::Constant { value: *value },
        crate::ast::Pattern::Char { value } => crate::ast::Pattern::Char { value: *value },
        crate::ast::Pattern::Variable { name } => crate::ast::Pattern::Variable {
            name: name.clone(),
        },
        crate::ast::Pattern::Wildcard => crate::ast::Pattern::Wildcard,
        crate::ast::Pattern::Tuple { tuple } => {
            let mut out: Vec<crate::ast::Pattern> = Vec::new();
            clone_ast_pats_into(tuple, 0, &mut out);
            crate::ast::Pattern::Tuple { tuple: out }
        }
        crate::ast::Pattern::Constructor { name, arg } => crate::ast::Pattern::Constructor {
            name: name.clone(),
            arg: match arg {
                Some(a) => Some(Box::new(clone_ast_pattern(a))),
                None => None,
            },
        },
    }
}

fn clone_ast_pats_into(ps: &Vec<crate::ast::Pattern>, j: usize, out: &mut Vec<crate::ast::Pattern>)
    requires
        j <= ps@.len(),
    decreases *ps, ps@.len() - j,
{
    if j < ps.len() {
        let c = clone_ast_pattern(&ps[j]);
        out.push(c);
        clone_ast_pats_into(ps, j + 1, out);
    }
}

fn build_exprs_into(
    es: &Vec<TExpr>,
    j: usize,
    globals: &Vec<Symbol>,
    ctors: &Ctors,
    counter: &mut u64,
    warns: &mut Vec<Warn>,
    out: &mut Vec<hir::Expr>,
) -> (r: Result<(), InternalError>)
    requires
        j <= es@.len(),
    decreases *es, *es, es@.len() - j,
{
    if j < es.len() {
        let h = match build_expr(&es[j], globals, ctors, counter, warns) {
            Ok(h) => h,
            Err(er) => {
                return Err(er);
            }
        };
        out.push(h);
        build_exprs_into(es, j + 1, globals, ctors, counter, warns, out)
    } else {
        Ok(())
    }
}

fn build_vals_into(
    vs: &Vec<TVal>,
    j: usize,
    globals: &Vec<Symbol>,
    ctors: &Ctors,
    counter: &mut u64,
    warns: &mut Vec<Warn>,
    out: &mut Vec<hir::Val>,
) -> (r: Result<(), InternalError>)
    requires
        j <= vs@.len(),
    decreases *vs, *vs, vs@.len() - j,
{
    if j < vs.len() {
        let hv = match build_val(&vs[j], globals, ctors, counter, warns) {
            Ok(h) => h,
            Err(er) => {
                return Err(er);
            }
        };
        out.push(hv);
        build_vals_into(vs, j + 1, globals, ctors, counter, warns, out)
    } else {
        Ok(())
    }
}

/// Build one HIR binding; the binding pattern must be a plain name or
/// a wildcard by this stage (clausal and derived forms are long gone).
fn build_val(
    v: &TVal,
    globals: &Vec<Symbol>,
    ctors: &Ctors,
    counter: &mut u64,
    warns: &mut Vec<Warn>,
) -> (r: Result<hir::Val, InternalError>)
    ensures
        r matches Ok(hv) ==> {
            &&& hv.rec == v.rec
            &&& (v.pattern matches crate::ast::Pattern::Variable { name } ==> hv.name == name)
        },
    decreases *v, *v, 3int,
{
    let name = match &v.pattern {
        crate::ast::Pattern::Variable { name } => name.clone(),
        crate::ast::Pattern::Wildcard => Symbol { name: String::from_str("_"), id: 0 },
        _ => {
            return Err(InternalError);
        }
    };
    let he = match build_expr(&v.expr, globals, ctors, counter, warns) {
        Ok(h) => h,
        Err(er) => {
            return Err(er);
        }
    };
    Ok(hir::Val { rec: v.rec, name, ty: ty_to_hty(&v.ty), expr: he })
}

/// Turn a decision tree into the nest of flat-pattern HIR cases that
/// carries out its tests.
fn materialize(
    tree: &DecisionTree,
    arms: &Vec<TArm>,
    env: &mut Vec<(Vec<u64>, Symbol, HTy)>,
    res_ty: &HTy,
    globals: &Vec<Symbol>,
    ctors: &Ctors,
    counter: &mut u64,
    warns: &mut Vec<Warn>,
) -> (r: Result<hir::Expr, InternalError>)
    decreases *arms, *tree, 1int,
{
    match tree {
        DecisionTree::Leaf { arm } => {
            if *arm >= arms.len() {
                return Err(InternalError);
            }
            build_expr(&arms[*arm].body, globals, ctors, counter, warns)
        }
        DecisionTree::Fail => {
            Ok(
                hir::Expr::ExternCall {
                    ty: clone_hty(res_ty),
                    module: String::from_str("core"),
                    fun: String::from_str("raise_match"),
                    args: Vec::new(),
                },
            )
        }
        DecisionTree::Bind { name, scrut, rest } => {
            let (ssym, sty) = match env_lookup(env, &scrut.path) {
                Some(p) => p,
                None => {
                    return Err(InternalError);
                }
            };
            let inner = match materialize(rest, arms, env, res_ty, globals, ctors, counter, warns) {
                Ok(h) => h,
                Err(er) => {
                    return Err(er);
                }
            };
            let mut harms: Vec<(hir::Pattern, hir::Expr)> = Vec::new();
            harms.push(
                (hir::Pattern::Var { ty: clone_hty(&sty), name: name.clone() }, inner),
            );
            Ok(
                hir::Expr::Case {
                    ty: clone_hty(res_ty),
                    expr: Box::new(hir::Expr::Sym { ty: sty, name: ssym }),
                    arms: harms,
                },
            )
        }
        DecisionTree::Decompose { scrut, width, rest } => {
            let (ssym, sty) = match env_lookup(env, &scrut.path) {
                Some(p) => p,
                None => {
                    return Err(InternalError);
                }
            };
            let comp_tys = match &sty {
                HTy::Tuple(ts) => clone_htys(ts),
                _ => {
                    return Err(InternalError);
                }
            };
            if comp_tys.len() != *width {
                return Err(InternalError);
            }
            let depth = env.len();
            let mut csyms: Vec<Symbol> = Vec::new();
            let mut k: usize = 0;
            while k < comp_tys.len()
                invariant
                    k <= comp_tys@.len(),
                decreases comp_tys@.len() - k,
            {
                let cs = hidden_sym(counter);
                let mut cp = path_clone(&scrut.path);
                cp.push(k as u64);
                env.push((cp, cs.clone(), clone_hty(&comp_tys[k])));
                csyms.push(cs);
                k = k + 1;
            }
            let inner = match materialize(rest, arms, env, res_ty, globals, ctors, counter, warns) {
                Ok(h) => h,
                Err(er) => {
                    env.truncate(depth);
                    return Err(er);
                }
            };
            env.truncate(depth);
            let mut harms: Vec<(hir::Pattern, hir::Expr)> = Vec::new();
            harms.push(
                (hir::Pattern::Tuple { tys: comp_tys, tuple: csyms }, inner),
            );
            Ok(
                hir::Expr::Case {
                    ty: clone_hty(res_ty),
                    expr: Box::new(hir::Expr::Sym { ty: sty, name: ssym }),
                    arms: harms,
                },
            )
        }
        DecisionTree::SwitchInt { scrut, cases, default } => {
            let (ssym, sty) = match env_lookup(env, &scrut.path) {
                Some(p) => p,
                None => {
                    return Err(InternalError);
                }
            };
            let mut harms: Vec<(hir::Pattern, hir::Expr)> = Vec::new();
            match materialize_int_cases(
                cases,
                0,
                arms,
                env,
                res_ty,
                globals,
                ctors,
                counter,
                warns,
                &mut harms,
            ) {
                Ok(()) => {}
                Err(er) => {
                    return Err(er);
                }
            }
            let dfl = match materialize(
                default,
                arms,
                env,
                res_ty,
                globals,
                ctors,
                counter,
                warns,
            ) {
                Ok(h) => h,
                Err(er) => {
                    return Err(er);
                }
            };
            harms.push(
                (hir::Pattern::Var { ty: clone_hty(&sty), name: hidden_sym(counter) }, dfl),
            );
            Ok(
                hir::Expr::Case {
                    ty: clone_hty(res_ty),
                    expr: Box::new(hir::Expr::Sym { ty: sty, name: ssym }),
                    arms: harms,
                },
            )
        }
        DecisionTree::SwitchChar { scrut, cases, default } => {
            let (ssym, sty) = match env_lookup(env, &scrut.path) {
                Some(p) => p,
                None => {
                    return Err(InternalError);
                }
            };
            let mut harms: Vec<(hir::Pattern, hir::Expr)> = Vec::new();
            match materialize_char_cases(
                cases,
                0,
                arms,
                env,
                res_ty,
                globals,
                ctors,
                counter,
                warns,
                &mut harms,
            ) {
                Ok(()) => {}
                Err(er) => {
                    return Err(er);
                }
            }
            let dfl = match materialize(
                default,
                arms,
                env,
                res_ty,
                globals,
                ctors,
                counter,
                warns,
            ) {
                Ok(h) => h,
                Err(er) => {
                    return Err(er);
                }
            };
            harms.push(
                (hir::Pattern::Var { ty: clone_hty(&sty), name: hidden_sym(counter) }, dfl),
            );
            Ok(
                hir::Expr::Case {
                    ty: clone_hty(res_ty),
                    expr: Box::new(hir::Expr::Sym { ty: sty, name: ssym }),
                    arms: harms,
                },
            )
        }
        DecisionTree::SwitchCtor { scrut, cases, default } => {
            let (ssym, sty) = match env_lookup(env, &scrut.path) {
                Some(p) => p,
                None => {
                    return Err(InternalError);
                }
            };
            let dt = match &sty {
                HTy::Datatype(s) => s.clone(),
                _ => {
                    return Err(InternalError);
                }
            };
            let mut harms: Vec<(hir::Pattern, hir::Expr)> = Vec::new();
            match materialize_ctor_cases(
                cases,
                0,
                &dt,
                &scrut.path,
                arms,
                env,
                res_ty,
                globals,
                ctors,
                counter,
                warns,
                &mut harms,
            ) {
                Ok(()) => {}
                Err(er) => {
                    return Err(er);
                }
            }
            match default {
                Some(d) => {
                    let dfl = match materialize(
                        d,
                        arms,
                        env,
                        res_ty,
                        globals,
                        ctors,
                        counter,
                        warns,
                    ) {
                        Ok(h) => h,
                        Err(er) => {
                            return Err(er);
                        }
                    };
                    harms.push(
                        (
                            hir::Pattern::Var { ty: clone_hty(&sty), name: hidden_sym(counter) },
                            dfl,
                        ),
                    );
                }
                None => {}
            }
            Ok(
                hir::Expr::Case {
                    ty: clone_hty(res_ty),
                    expr: Box::new(hir::Expr::Sym { ty: sty, name: ssym }),
                    arms: harms,
                },
            )
        }
    }
}

fn clone_htys(ts: &Vec<HTy>) -> (r: Vec<HTy>)
    ensures
        r@.len() == ts@.len(),
        forall|i: int| 0 <= i < r@.len() ==> hty_deq(#[trigger] r@[i], ts@[i]),
{
    let mut out: Vec<HTy> = Vec::new();
    let mut j: usize = 0;
    while j < ts.len()
        invariant
            j <= ts@.len(),
            out@.len() == j,
            forall|i: int| 0 <= i < j ==> hty_deq(#[trigger] out@[i], ts@[i]),
        decreases ts@.len() - j,
    {
        out.push(clone_hty(&ts[j]));
        j = j + 1;
    }
    out
}

fn materialize_int_cases(
    cases: &Vec<(i64, DecisionTree)>,
    x: usize,
    arms: &Vec<TArm>,
    env: &mut Vec<(Vec<u64>, Symbol, HTy)>,
    res_ty: &HTy,
    globals: &Vec<Symbol>,
    ctors: &Ctors,
    counter: &mut u64,
    warns: &mut Vec<Warn>,
    out: &mut Vec<(hir::Pattern, hir::Expr)>,
) -> (r: Result<(), InternalError>)
    requires
        x <= cases@.len(),
    decreases *arms, *cases, cases@.len() - x,
{
    if x < cases.len() {
        let sub = match materialize(
            &cases[x].1,
            arms,
            env,
            res_ty,
            globals,
            ctors,
            counter,
            warns,
        ) {
            Ok(h) => h,
            Err(er) => {
                return Err(er);
            }
        };
        out.push((hir::Pattern::Constant { ty: HTy::Int, value: cases[x].0 }, sub));
        materialize_int_cases(cases, x + 1, arms, env, res_ty, globals, ctors, counter, warns, out)
    } else {
        Ok(())
    }
}

fn materialize_char_cases(
    cases: &Vec<(u32, DecisionTree)>,
    x: usize,
    arms: &Vec<TArm>,
    env: &mut Vec<(Vec<u64>, Symbol, HTy)>,
    res_ty: &HTy,
    globals: &Vec<Symbol>,
    ctors: &Ctors,
    counter: &mut u64,
    warns: &mut Vec<Warn>,
    out: &mut Vec<(hir::Pattern, hir::Expr)>,
) -> (r: Result<(), InternalError>)
    requires
        x <= cases@.len(),
    decreases *arms, *cases, cases@.len() - x,
{
    if x < cases.len() {
        let sub = match materialize(
            &cases[x].1,
            arms,
            env,
            res_ty,
            globals,
            ctors,
            counter,
            warns,
        ) {
            Ok(h) => h,
            Err(er) => {
                return Err(er);
            }
        };
        out.push((hir::Pattern::Char { ty: HTy::Char, value: cases[x].0 }, sub));
        materialize_char_cases(cases, x + 1, arms, env, res_ty, globals, ctors, counter, warns, out)
    } else {
        Ok(())
    }
}

fn materialize_ctor_cases(
    cases: &Vec<(u64, DecisionTree)>,
    x: usize,
    dt: &Symbol,
    spath: &Vec<u64>,
    arms: &Vec<TArm>,
    env: &mut Vec<(Vec<u64>, Symbol, HTy)>,
    res_ty: &HTy,
    globals: &Vec<Symbol>,
    ctors: &Ctors,
    counter: &mut u64,
    warns: &mut Vec<Warn>,
    out: &mut Vec<(hir::Pattern, hir::Expr)>,
) -> (r: Result<(), InternalError>)
    requires
        x <= cases@.len(),
    decreases *arms, *cases, cases@.len() - x,
{
    if x < cases.len() {
        let disc = cases[x].0;
        let ci = match find_by_disc(ctors, dt, disc) {
            Some(i) => i,
            None => {
                return Err(InternalError);
            }
        };
        let parg: Option<(HTy, Symbol)> = match &ctors.list[ci].arg_ty {
            Some(t) => {
                let asym = hidden_sym(counter);
                Some((ty_to_hty(t), asym))
            }
            None => None,
        };
        let depth = env.len();
        // a constructor argument's path steps through 0
        match &parg {
            Some((at, asym)) => {
                let mut cp = path_clone(spath);
                cp.push(0);
                env.push((cp, asym.clone(), clone_hty(at)));
            }
            None => {}
        }
        let sub = match materialize(
            &cases[x].1,
            arms,
            env,
            res_ty,
            globals,
            ctors,
            counter,
            warns,
        ) {
            Ok(h) => h,
            Err(er) => {
                env.truncate(depth);
                return Err(er);
            }
        };
        env.truncate(depth);
        let hpat = hir::Pattern::Constructor {
            ty: HTy::Datatype(dt.clone()),
            descriminant: disc,
            arg: parg,
        };
        out.push((hpat, sub));
        materialize_ctor_cases(cases, x + 1, dt, spath, arms, env, res_ty, globals, ctors, counter, warns, out)
    } else {
        Ok(())
    }
}

/// Build a whole HIR unit from a typed unit, collecting the warnings
/// that pattern-match compilation raises along the way.
pub fn build_hir(tast: &TAST, ctors: &Ctors) -> (r: Result<(hir::HIR, Vec<Warn>), InternalError>)
    ensures
        r matches Ok(p) ==> {
            &&& p.0.0@.len() == tast.0@.len()
            &&& forall|i: int|
                0 <= i < tast.0@.len() ==> {
                    let hv = #[trigger] p.0.0@[i];
                    &&& hv.rec == tast.0@[i].rec
                    &&& (tast.0@[i].pattern matches crate::ast::Pattern::Variable { name }
                        ==> hv.name == name)
                }
        },
{
    let mut globals: Vec<Symbol> = Vec::new();
    let mut counter: u64 = 1;
    let mut warns: Vec<Warn> = Vec::new();
    let mut vals: Vec<hir::Val> = Vec::new();
    let mut i: usize = 0;
    while i < tast.0.len()
        invariant
            i <= tast.0@.len(),
            vals@.len() == i,
            forall|k: int|
                0 <= k < i ==> {
                    let hv = #[trigger] vals@[k];
                    &&& hv.rec == tast.0@[k].rec
                    &&& (tast.0@[k].pattern matches crate::ast::Pattern::Variable { name }
                        ==> hv.name == name)
                },
        decreases tast.0@.len() - i,
    {
        let hv = match build_val(&tast.0[i], &globals, ctors, &mut counter, &mut warns) {
            Ok(h) => h,
            Err(er) => {
                return Err(er);
            }
        };
        globals.push(hv.name.clone());
        vals.push(hv);
        i = i + 1;
    }
    Ok((hir::HIR(vals), warns))
}


/// An application of an unshadowed primitive operator to a pair, if
/// that is what this call is.
fn prim_op_app(fun: &TExpr, arg: &TExpr, globals: &Vec<Symbol>) -> Option<crate::prim::BIF> {
    let name = match fun {
        TExpr::Sym { name, .. } => name,
        _ => {
            return None;
        }
    };
    if name.id != 0 || sym_in(globals, name) {
        return None;
    }
    match arg {
        TExpr::Tuple { tuple, .. } => {
            if tuple.len() != 2 {
                return None;
            }
        }
        _ => {
            return None;
        }
    }
    let mut ops: Vec<(&str, crate::prim::BIF)> = Vec::new();
    ops.push(("+", crate::prim::BIF::Add));
    ops.push(("-", crate::prim::BIF::Sub));
    ops.push(("*", crate::prim::BIF::Mul));
    ops.push(("div", crate::prim::BIF::Div));
    ops.push(("mod", crate::prim::BIF::Mod));
    ops.push(("=", crate::prim::BIF::Eq));
    ops.push(("<>", crate::prim::BIF::Neq));
    ops.push((">", crate::prim::BIF::Gt));
    ops.push((">=", crate::prim::BIF::Ge));
    ops.push(("<", crate::prim::BIF::Lt));
    ops.push(("<=", crate::prim::BIF::Le));
    let mut j: usize = 0;
    while j < ops.len()
        decreases ops@.len() - j,
    {
        if name.name == String::from_str(ops[j].0) {
            return Some(ops[j].1);
        }
        j = j + 1;
    }
    None
}

/// Build the two components of a primitive operator's argument pair.
fn arg_pair(
    arg: &TExpr,
    globals: &Vec<Symbol>,
    ctors: &Ctors,
    counter: &mut u64,
    warns: &mut Vec<Warn>,
    out: &mut Vec<hir::Expr>,
) -> (r: Result<(), InternalError>)
    decreases *arg, *arg, 3int,
{
    match arg {
        TExpr::Tuple { tuple, .. } => build_exprs_into(tuple, 0, globals, ctors, counter, warns, out),
        _ => Err(InternalError),
    }
}

/// The state of the function whose blocks are being laid down.
struct FnCtx {
    blocks: Vec<crate::mir::EBB>,
    cur_name: Symbol,
    cur_params: Vec<(HTy, Symbol)>,
    ops: Vec<crate::mir::Op>,
    ctr: u64,
}

fn next_id(c: &mut u64) -> u64 {
    let v = *c;
    if *c < u64::MAX {
        *c = *c + 1;
    }
    v
}

fn temp_sym(cx: &mut FnCtx) -> Symbol {
    let v = next_id(&mut cx.ctr);
    Symbol { name: String::from_str("t"), id: v }
}

fn label_sym(cx: &mut FnCtx) -> Symbol {
    let v = next_id(&mut cx.ctr);
    Symbol { name: String::from_str("L"), id: v }
}

/// Close the open block with the given terminator and open a new one.
fn seal(cx: &mut FnCtx, term: crate::mir::Op, next_name: Symbol, next_params: Vec<(HTy, Symbol)>)
    ensures
        final(cx).blocks@.len() == old(cx).blocks@.len() + 1,
{
    let mut ops: Vec<crate::mir::Op> = Vec::new();
    core::mem::swap(&mut ops, &mut cx.ops);
    ops.push(term);
    let mut name = next_name;
    core::mem::swap(&mut name, &mut cx.cur_name);
    let mut params = next_params;
    core::mem::swap(&mut params, &mut cx.cur_params);
    cx.blocks.push(crate::mir::EBB { name, params, body: ops });
}

/// Lower one HIR expression into the open block, yielding the symbol
/// that holds its value and that value's type.
fn lower_expr(e: &hir::Expr, funs: &mut Vec<crate::mir::Function>, gctr: &mut u64, cx: &mut FnCtx)
    -> (r: Result<(Symbol, HTy), InternalError>)
    decreases *e, *e, 2int,
{
    match e {
        hir::Expr::Lit { ty, value } => {
            let t = temp_sym(cx);
            cx.ops.push(
                crate::mir::Op::Lit { var: t.clone(), ty: clone_hty(ty), value: *value },
            );
            Ok((t, clone_hty(ty)))
        }
        hir::Expr::Sym { ty, name } => Ok((name.clone(), clone_hty(ty))),
        hir::Expr::Tuple { tys, tuple } => {
            let mut syms: Vec<Symbol> = Vec::new();
            match lower_exprs_into(tuple, 0, funs, gctr, cx, &mut syms) {
                Ok(()) => {}
                Err(er) => {
                    return Err(er);
                }
            }
            let t = temp_sym(cx);
            cx.ops.push(
                crate::mir::Op::MkTuple { var: t.clone(), tys: clone_htys(tys), tuple: syms },
            );
            Ok((t, HTy::Tuple(clone_htys(tys))))
        }
        hir::Expr::Proj { ty, index, tuple } => {
            let (s, _) = match lower_expr(tuple, funs, gctr, cx) {
                Ok(p) => p,
                Err(er) => {
                    return Err(er);
                }
            };
            let t = temp_sym(cx);
            cx.ops.push(
                crate::mir::Op::Proj {
                    var: t.clone(),
                    ty: clone_hty(ty),
                    index: *index,
                    tuple: s,
                },
            );
            Ok((t, clone_hty(ty)))
        }
        hir::Expr::BuiltinCall { ty, fun, args } => {
            let mut syms: Vec<Symbol> = Vec::new();
            match lower_exprs_into(args, 0, funs, gctr, cx, &mut syms) {
                Ok(()) => {}
                Err(er) => {
                    return Err(er);
                }
            }
            let t = temp_sym(cx);
            cx.ops.push(
                crate::mir::Op::Builtin {
                    var: t.clone(),
                    ty: clone_hty(ty),
                    fun: *fun,
                    args: syms,
                },
            );
            Ok((t, clone_hty(ty)))
        }
        hir::Expr::ExternCall { ty, module, fun, args } => {
            let mut syms: Vec<Symbol> = Vec::new();
            match lower_exprs_into(args, 0, funs, gctr, cx, &mut syms) {
                Ok(()) => {}
                Err(er) => {
                    return Err(er);
                }
            }
            let t = temp_sym(cx);
            cx.ops.push(
                crate::mir::Op::ExternCall {
                    var: t.clone(),
                    ty: clone_hty(ty),
                    module: module.clone(),
                    fun: fun.clone(),
                    args: syms,
                },
            );
            Ok((t, clone_hty(ty)))
        }
        hir::Expr::Constructor { ty, descriminant, arg } => {
            let asym = match arg {
                Some(a) => match lower_expr(a, funs, gctr, cx) {
                    Ok((s, _)) => Some(s),
                    Err(er) => {
                        return Err(er);
                    }
                },
                None => None,
            };
            let t = temp_sym(cx);
            cx.ops.push(
                crate::mir::Op::MkCtor {
                    var: t.clone(),
                    ty: clone_hty(ty),
                    descriminant: *descriminant,
                    arg: asym,
                },
            );
            Ok((t, clone_hty(ty)))
        }
        hir::Expr::App { ty, fun, arg } => {
            let (fs, _) = match lower_expr(fun, funs, gctr, cx) {
                Ok(p) => p,
                Err(er) => {
                    return Err(er);
                }
            };
            let (asym, _) = match lower_expr(arg, funs, gctr, cx) {
                Ok(p) => p,
                Err(er) => {
                    return Err(er);
                }
            };
            let t = temp_sym(cx);
            cx.ops.push(
                crate::mir::Op::Call { var: t.clone(), ty: clone_hty(ty), fun: fs, arg: asym },
            );
            Ok((t, clone_hty(ty)))
        }
        hir::Expr::Closure { envs, param_ty, body_ty, fname } => {
            let mut es: Vec<Symbol> = Vec::new();
            let mut j: usize = 0;
            while j < envs.len()
                decreases envs@.len() - j,
            {
                es.push(envs[j].1.clone());
                j = j + 1;
            }
            let ty = HTy::Fun(Box::new(clone_hty(param_ty)), Box::new(clone_hty(body_ty)));
            let t = temp_sym(cx);
            cx.ops.push(
                crate::mir::Op::MkClosure {
                    var: t.clone(),
                    ty: clone_hty(&ty),
                    fname: fname.clone(),
                    envs: es,
                },
            );
            Ok((t, ty))
        }
        hir::Expr::Fun { param, body_ty, body, captures } => {
            // hoist to a function of its own; the value is a closure
            // over it
            let fid = next_id(gctr);
            let fname = Symbol { name: String::from_str("f"), id: fid };
            let mut params: Vec<(HTy, Symbol)> = Vec::new();
            let mut j: usize = 0;
            while j < captures.len()
                decreases captures@.len() - j,
            {
                params.push((clone_hty(&captures[j].0), captures[j].1.clone()));
                j = j + 1;
            }
            params.push((clone_hty(&param.0), param.1.clone()));
            let mut inner = FnCtx {
                blocks: Vec::new(),
                cur_name: Symbol { name: String::from_str("L"), id: 0 },
                cur_params: Vec::new(),
                ops: Vec::new(),
                ctr: 1,
            };
            let (rs, _) = match lower_expr(body, funs, gctr, &mut inner) {
                Ok(p) => p,
                Err(er) => {
                    return Err(er);
                }
            };
            let dead = Symbol { name: String::from_str("L"), id: u64::MAX };
            seal(&mut inner, crate::mir::Op::Ret { value: rs }, dead, Vec::new());
            funs.push(
                crate::mir::Function {
                    name: fname.clone(),
                    params,
                    ret_ty: clone_hty(body_ty),
                    body: inner.blocks,
                },
            );
            let mut es: Vec<Symbol> = Vec::new();
            let mut k: usize = 0;
            while k < captures.len()
                decreases captures@.len() - k,
            {
                es.push(captures[k].1.clone());
                k = k + 1;
            }
            let ty = HTy::Fun(Box::new(clone_hty(&param.0)), Box::new(clone_hty(body_ty)));
            let t = temp_sym(cx);
            cx.ops.push(
                crate::mir::Op::MkClosure {
                    var: t.clone(),
                    ty: clone_hty(&ty),
                    fname,
                    envs: es,
                },
            );
            Ok((t, ty))
        }
        hir::Expr::Binds { binds, ret, .. } => {
            match lower_vals_into(binds, 0, funs, gctr, cx) {
                Ok(()) => {}
                Err(er) => {
                    return Err(er);
                }
            }
            lower_expr(ret, funs, gctr, cx)
        }
        hir::Expr::Case { ty, expr, arms } => {
            let (s, sty) = match lower_expr(expr, funs, gctr, cx) {
                Ok(p) => p,
                Err(er) => {
                    return Err(er);
                }
            };
            if arms.len() == 1 {
                match &arms[0].0 {
                    hir::Pattern::Var { name, .. } => {
                        cx.ops.push(
                            crate::mir::Op::Alias {
                                var: name.clone(),
                                ty: clone_hty(&sty),
                                src: s,
                            },
                        );
                        return lower_expr(&arms[0].1, funs, gctr, cx);
                    }
                    hir::Pattern::Tuple { tys, tuple } => {
                        if tys.len() != tuple.len() {
                            return Err(InternalError);
                        }
                        let mut k: usize = 0;
                        while k < tuple.len()
                            invariant
                                tys@.len() == tuple@.len(),
                                k <= tuple@.len(),
                            decreases tuple@.len() - k,
                        {
                            cx.ops.push(
                                crate::mir::Op::Proj {
                                    var: tuple[k].clone(),
                                    ty: clone_hty(&tys[k]),
                                    index: k as u64,
                                    tuple: s.clone(),
                                },
                            );
                            k = k + 1;
                        }
                        return lower_expr(&arms[0].1, funs, gctr, cx);
                    }
                    _ => {}
                }
            }
            // a real branch: one block per arm, joined at a
            // continuation block that receives the result
            let cont = label_sym(cx);
            let rvar = temp_sym(cx);
            let mut labels: Vec<Symbol> = Vec::new();
            let mut a: usize = 0;
            while a < arms.len()
                invariant
                    labels@.len() == a,
                    a <= arms@.len(),
                decreases arms@.len() - a,
            {
                let l = label_sym(cx);
                labels.push(l);
                a = a + 1;
            }
            // the chain of tests
            let mut i: usize = 0;
            while i < arms.len()
                invariant
                    labels@.len() == arms@.len(),
                    i <= arms@.len(),
                decreases arms@.len() - i,
            {
                if i + 1 == arms.len() {
                    let nextn = label_sym(cx);
                    seal(
                        cx,
                        crate::mir::Op::Jump { target: labels[i].clone(), args: Vec::new() },
                        nextn,
                        Vec::new(),
                    );
                } else {
                    let cond = match &arms[i].0 {
                        hir::Pattern::Constant { value, .. } => {
                            let kv = temp_sym(cx);
                            cx.ops.push(
                                crate::mir::Op::Lit {
                                    var: kv.clone(),
                                    ty: HTy::Int,
                                    value: crate::prim::Literal::Int(*value),
                                },
                            );
                            let cv = temp_sym(cx);
                            let mut cargs: Vec<Symbol> = Vec::new();
                            cargs.push(s.clone());
                            cargs.push(kv);
                            cx.ops.push(
                                crate::mir::Op::Builtin {
                                    var: cv.clone(),
                                    ty: HTy::Int,
                                    fun: crate::prim::BIF::Eq,
                                    args: cargs,
                                },
                            );
                            cv
                        }
                        hir::Pattern::Char { value, .. } => {
                            let kv = temp_sym(cx);
                            cx.ops.push(
                                crate::mir::Op::Lit {
                                    var: kv.clone(),
                                    ty: HTy::Char,
                                    value: crate::prim::Literal::Char(*value),
                                },
                            );
                            let cv = temp_sym(cx);
                            let mut cargs: Vec<Symbol> = Vec::new();
                            cargs.push(s.clone());
                            cargs.push(kv);
                            cx.ops.push(
                                crate::mir::Op::Builtin {
                                    var: cv.clone(),
                                    ty: HTy::Int,
                                    fun: crate::prim::BIF::Eq,
                                    args: cargs,
                                },
                            );
                            cv
                        }
                        hir::Pattern::Constructor { descriminant, .. } => {
                            let tagv = temp_sym(cx);
                            cx.ops.push(
                                crate::mir::Op::Tag { var: tagv.clone(), value: s.clone() },
                            );
                            let kv = temp_sym(cx);
                            cx.ops.push(
                                crate::mir::Op::Lit {
                                    var: kv.clone(),
                                    ty: HTy::Int,
                                    value: crate::prim::Literal::Int(*descriminant as i64),
                                },
                            );
                            let cv = temp_sym(cx);
                            let mut cargs: Vec<Symbol> = Vec::new();
                            cargs.push(tagv);
                            cargs.push(kv);
                            cx.ops.push(
                                crate::mir::Op::Builtin {
                                    var: cv.clone(),
                                    ty: HTy::Int,
                                    fun: crate::prim::BIF::Eq,
                                    args: cargs,
                                },
                            );
                            cv
                        }
                        hir::Pattern::Var { .. } => {
                            // a catch-all before the end: jump straight in
                            let nextn = label_sym(cx);
                            seal(
                                cx,
                                crate::mir::Op::Jump {
                                    target: labels[i].clone(),
                                    args: Vec::new(),
                                },
                                nextn,
                                Vec::new(),
                            );
                            i = i + 1;
                            continue ;
                        }
                        hir::Pattern::Tuple { .. } => {
                            return Err(InternalError);
                        }
                    };
                    let nextn = label_sym(cx);
                    seal(
                        cx,
                        crate::mir::Op::Branch {
                            cond,
                            then: labels[i].clone(),
                            then_args: Vec::new(),
                            else_: nextn.clone(),
                            else_args: Vec::new(),
                        },
                        nextn,
                        Vec::new(),
                    );
                }
                i = i + 1;
            }
            // the orphan block the chain left open jumps to the
            // continuation harmlessly; it is unreachable
            // (the last arm sealed with a jump, so the open block here
            // is the fresh one)
            match lower_arm_blocks(arms, 0, &labels, &s, &sty, &cont, funs, gctr, cx) {
                Ok(()) => {}
                Err(er) => {
                    return Err(er);
                }
            }
            // open the continuation block
            let mut cparams: Vec<(HTy, Symbol)> = Vec::new();
            cparams.push((clone_hty(ty), rvar.clone()));
            let orphan = label_sym(cx);
            seal(
                cx,
                crate::mir::Op::Jump { target: cont.clone(), args: Vec::new() },
                orphan,
                Vec::new(),
            );
            // rename the freshly opened block to the continuation
            cx.cur_name = cont;
            cx.cur_params = cparams;
            Ok((rvar, clone_hty(ty)))
        }
    }
}

fn lower_exprs_into(
    es: &Vec<hir::Expr>,
    j: usize,
    funs: &mut Vec<crate::mir::Function>,
    gctr: &mut u64,
    cx: &mut FnCtx,
    out: &mut Vec<Symbol>,
) -> (r: Result<(), InternalError>)
    requires
        j <= es@.len(),
    decreases *es, *es, es@.len() - j,
{
    if j < es.len() {
        let (s, _) = match lower_expr(&es[j], funs, gctr, cx) {
            Ok(p) => p,
            Err(er) => {
                return Err(er);
            }
        };
        out.push(s);
        lower_exprs_into(es, j + 1, funs, gctr, cx, out)
    } else {
        Ok(())
    }
}

fn lower_vals_into(
    vs: &Vec<hir::Val>,
    j: usize,
    funs: &mut Vec<crate::mir::Function>,
    gctr: &mut u64,
    cx: &mut FnCtx,
) -> (r: Result<(), InternalError>)
    requires
        j <= vs@.len(),
    decreases *vs, *vs, vs@.len() - j,
{
    if j < vs.len() {
        let (s, _) = match lower_expr(&vs[j].expr, funs, gctr, cx) {
            Ok(p) => p,
            Err(er) => {
                return Err(er);
            }
        };
        cx.ops.push(
            crate::mir::Op::Alias {
                var: vs[j].name.clone(),
                ty: clone_hty(&vs[j].ty),
                src: s,
            },
        );
        lower_vals_into(vs, j + 1, funs, gctr, cx)
    } else {
        Ok(())
    }
}

fn lower_arm_blocks(
    arms: &Vec<(hir::Pattern, hir::Expr)>,
    j: usize,
    labels: &Vec<Symbol>,
    s: &Symbol,
    sty: &HTy,
    cont: &Symbol,
    funs: &mut Vec<crate::mir::Function>,
    gctr: &mut u64,
    cx: &mut FnCtx,
) -> (r: Result<(), InternalError>)
    requires
        j <= arms@.len(),
        labels@.len() == arms@.len(),
    decreases *arms, *arms, arms@.len() - j,
{
    if j < arms.len() {
        // close whatever block is open and start this arm's block
        let orphan = label_sym(cx);
        seal(
            cx,
            crate::mir::Op::Jump { target: cont.clone(), args: Vec::new() },
            orphan,
            Vec::new(),
        );
        cx.cur_name = labels[j].clone();
        cx.cur_params = Vec::new();
        match &arms[j].0 {
            hir::Pattern::Var { name, .. } => {
                cx.ops.push(
                    crate::mir::Op::Alias {
                        var: name.clone(),
                        ty: clone_hty(sty),
                        src: s.clone(),
                    },
                );
            }
            hir::Pattern::Constructor { arg, .. } => {
                match arg {
                    Some((aty, asym)) => {
                        cx.ops.push(
                            crate::mir::Op::Proj {
                                var: asym.clone(),
                                ty: clone_hty(aty),
                                index: 0,
                                tuple: s.clone(),
                            },
                        );
                    }
                    None => {}
                }
            }
            _ => {}
        }
        let (bs, _) = match lower_expr(&arms[j].1, funs, gctr, cx) {
            Ok(p) => p,
            Err(er) => {
                return Err(er);
            }
        };
        let orphan2 = label_sym(cx);
        let mut jargs: Vec<Symbol> = Vec::new();
        jargs.push(bs);
        seal(
            cx,
            crate::mir::Op::Jump { target: cont.clone(), args: jargs },
            orphan2,
            Vec::new(),
        );
        lower_arm_blocks(arms, j + 1, labels, s, sty, cont, funs, gctr, cx)
    } else {
        Ok(())
    }
}

fn op_is_term(op: &crate::mir::Op) -> (b: bool)
    ensures
        b == op.is_terminator(),
{
    match op {
        crate::mir::Op::Jump { .. } => true,
        crate::mir::Op::Branch { .. } => true,
        crate::mir::Op::Ret { .. } => true,
        _ => false,
    }
}

fn ebb_wf_exec(e: &crate::mir::EBB) -> (b: bool)
    ensures
        b == e.wf(),
{
    if e.body.len() == 0 {
        return false;
    }
    if !op_is_term(&e.body[e.body.len() - 1]) {
        return false;
    }
    let mut i: usize = 0;
    while i < e.body.len() - 1
        invariant
            e.body@.len() > 0,
            i <= e.body@.len() - 1,
            forall|j: int| 0 <= j < i ==> !(#[trigger] e.body@[j]).is_terminator(),
        decreases e.body@.len() - 1 - i,
    {
        if op_is_term(&e.body[i]) {
            return false;
        }
        i = i + 1;
    }
    true
}

fn fun_wf_exec(f: &crate::mir::Function) -> (b: bool)
    ensures
        b == f.wf(),
{
    let n = f.body.len();
    if n == 0 {
        return false;
    }
    // block names unique
    let mut i: usize = 0;
    while i < n
        invariant
            n == f.body@.len(),
            i <= n,
            forall|a: int, b2: int|
                0 <= a < i && a < b2 < n ==> crate::prim::sym_key(f.body@[a].name)
                    != crate::prim::sym_key(f.body@[b2].name),
        decreases n - i,
    {
        let mut j: usize = i + 1;
        while j < n
            invariant
                n == f.body@.len(),
                i < j,
                j <= n,
                i < n,
                forall|b2: int|
                    i < b2 < j ==> crate::prim::sym_key(f.body@[i as int].name)
                        != crate::prim::sym_key(f.body@[b2].name),
            decreases n - j,
        {
            if f.body[i].name == f.body[j].name {
                return false;
            }
            j = j + 1;
        }
        i = i + 1;
    }
    // each block well formed
    let mut k: usize = 0;
    while k < n
        invariant
            n == f.body@.len(),
            k <= n,
            forall|a: int| 0 <= a < k ==> (#[trigger] f.body@[a]).wf(),
        decreases n - k,
    {
        if !ebb_wf_exec(&f.body[k]) {
            return false;
        }
        k = k + 1;
    }
    // each terminator target resolves within this function
    let mut x: usize = 0;
    while x < n
        invariant
            n == f.body@.len(),
            x <= n,
            forall|a: int| 0 <= a < n ==> (#[trigger] f.body@[a]).wf(),
            f.names_unique(),
            forall|a: int, t: int|
                0 <= a < x && 0 <= t < f.body@[a].body@.last().targets().len()
                    ==> f.has_ebb_named(
                    crate::prim::sym_key(#[trigger] f.body@[a].body@.last().targets()[t]),
                ),
        decreases n - x,
    {
        let nexts = f.body[x].next_ebbs();
        let mut t: usize = 0;
        while t < nexts.len()
            invariant
                n == f.body@.len(),
                x < n,
                nexts@ == f.body@[x as int].body@.last().targets(),
                t <= nexts@.len(),
                forall|u: int|
                    0 <= u < t ==> f.has_ebb_named(
                        crate::prim::sym_key(#[trigger] nexts@[u]),
                    ),
            decreases nexts@.len() - t,
        {
            match f.find_ebb(&nexts[t]) {
                Some(_) => {}
                None => {
                    proof {
                        assert(!f.has_ebb_named(crate::prim::sym_key(nexts@[t as int])));
                        assert(!f.wf());
                    }
                    return false;
                }
            }
            t = t + 1;
        }
        x = x + 1;
    }
    true
}

/// Decide well-formedness of a whole MIR unit.
pub fn mir_wf_exec(m: &crate::mir::MIR) -> (b: bool)
    ensures
        b == m.wf(),
{
    let mut i: usize = 0;
    while i < m.0.len()
        invariant
            i <= m.0@.len(),
            forall|a: int| 0 <= a < i ==> (#[trigger] m.0@[a]).wf(),
        decreases m.0@.len() - i,
    {
        if !fun_wf_exec(&m.0[i]) {
            return false;
        }
        i = i + 1;
    }
    true
}

/// Flatten a whole HIR unit into MIR: a main-like function that runs
/// the top-level bindings in order and returns the last one's value,
/// plus one function per hoisted lambda.  The result is checked well
/// formed: every terminator of every function references blocks that
/// exist in that same function.
pub fn lower_unit(h: &hir::HIR) -> (r: Result<crate::mir::MIR, InternalError>)
    ensures
        r matches Ok(m) ==> {
            &&& m.wf()
            &&& m.0@.len() >= 1
            &&& crate::prim::sym_key(m.0@.last().name) == ("main"@, 0u64)
            &&& m.0@.last().params@.len() == 0
            &&& m.0@.last().body@.len() >= 1
        },
{
    let mut funs: Vec<crate::mir::Function> = Vec::new();
    let mut gctr: u64 = 1;
    let mut cx = FnCtx {
        blocks: Vec::new(),
        cur_name: Symbol { name: String::from_str("L"), id: 0 },
        cur_params: Vec::new(),
        ops: Vec::new(),
        ctr: 1,
    };
    let mut last: Option<(Symbol, HTy)> = None;
    let mut i: usize = 0;
    while i < h.0.len()
        invariant
            i <= h.0@.len(),
        decreases h.0@.len() - i,
    {
        let (s, t) = match lower_expr(&h.0[i].expr, &mut funs, &mut gctr, &mut cx) {
            Ok(p) => p,
            Err(er) => {
                return Err(er);
            }
        };
        cx.ops.push(
            crate::mir::Op::Alias {
                var: h.0[i].name.clone(),
                ty: clone_hty(&h.0[i].ty),
                src: s.clone(),
            },
        );
        last = Some((h.0[i].name.clone(), t));
        i = i + 1;
    }
    let (rs, rt) = match last {
        Some(p) => p,
        None => {
            let t = temp_sym(&mut cx);
            cx.ops.push(
                crate::mir::Op::MkTuple { var: t.clone(), tys: Vec::new(), tuple: Vec::new() },
            );
            (t, HTy::Tuple(Vec::new()))
        }
    };
    let dead = Symbol { name: String::from_str("L"), id: u64::MAX };
    seal(&mut cx, crate::mir::Op::Ret { value: rs }, dead, Vec::new());
    funs.push(
        crate::mir::Function {
            name: Symbol { name: String::from_str("main"), id: 0 },
            params: Vec::new(),
            ret_ty: rt,
            body: cx.blocks,
        },
    );
    let m = crate::mir::MIR(funs);
    if mir_wf_exec(&m) {
        Ok(m)
    } else {
        Err(InternalError)
    }
}

/// Run the whole middle end on a core unit: inference, match
/// compilation inside HIR building, and MIR flattening.  Hard errors
/// of typing are reported beside whatever made it through; the MIR
/// that comes out is well formed.
pub fn compile_unit(ast: &crate::ast::AST) -> (r: Result<
    (hir::HIR, crate::mir::MIR, Vec<Warn>, Vec<crate::typing::TypeError>),
    InternalError,
>)
    requires
        ast.is_core(),
    ensures
        r matches Ok(p) ==> {
            &&& p.1.wf()
            &&& p.1.0@.len() >= 1
            &&& crate::prim::sym_key(p.1.0@.last().name) == ("main"@, 0u64)
        },
{
    let (tast, ctors, errs) = crate::typing::infer_ast(ast);
    let (h, warns) = match build_hir(&tast, &ctors) {
        Ok(p) => p,
        Err(er) => {
            return Err(er);
        }
    };
    let m = match lower_unit(&h) {
        Ok(m) => m,
        Err(er) => {
            return Err(er);
        }
    };
    Ok((h, m, warns, errs))
}

} // verus!
