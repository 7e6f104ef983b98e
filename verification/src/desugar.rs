use vstd::prelude::*;

use crate::ast::{Declaration, DerivedDeclaration, DerivedExpr, Expr, Pattern, AST};
use crate::prim::{sym_key, Symbol, BIF};
use vstd::pervasive::VecAdditionalExecFns;
use vstd::string::StringExecFns;

verus! {

/// What can go wrong while desugaring.
#[derive(PartialEq, Eq, Structural, Clone, Copy, Debug)]
pub enum DesugarError {
    /// The clauses of one `fun` definition name different functions.
    ClauseNameMismatch,
    /// `_builtincall` names an operation outside the fixed table.
    UnknownBuiltin,
    /// An infix operator stands where it has no two operands.
    InfixArityMismatch,
}

/// The active user infix declarations: name and priority, later
/// declarations taking precedence.
#[derive(PartialEq, Debug)]
pub struct InfixTable {
    pub entries: Vec<(Symbol, u8)>,
}

/// The priority the table gives a name, latest declaration first.
pub open spec fn spec_lookup(entries: Seq<(Symbol, u8)>, k: (Seq<char>, u64)) -> Option<u8>
    decreases entries.len(),
{
    if entries.len() == 0 {
        None
    } else if sym_key(entries.last().0) == k {
        Some(entries.last().1)
    } else {
        spec_lookup(entries.drop_last(), k)
    }
}

impl InfixTable {
    pub fn new() -> (r: InfixTable)
        ensures
            r.entries@.len() == 0,
    {
        InfixTable { entries: Vec::new() }
    }

    /// The priority of a declared infix name, if any.
    pub fn lookup(&self, name: &Symbol) -> (r: Option<u8>)
        ensures
            r == spec_lookup(self.entries@, sym_key(*name)),
    {
        let mut i: usize = self.entries.len();
        proof {
            assert(self.entries@.subrange(0, self.entries@.len() as int) =~= self.entries@);
        }
        while i > 0
            invariant
                i <= self.entries@.len(),
                spec_lookup(self.entries@, sym_key(*name)) == spec_lookup(
                    self.entries@.subrange(0, i as int),
                    sym_key(*name),
                ),
            decreases i,
        {
            i = i - 1;
            if self.entries[i].0 == *name {
                proof {
                    assert(self.entries@.subrange(0, i + 1).last() == self.entries@[i as int]);
                }
                return Some(self.entries[i].1);
            }
            proof {
                assert(self.entries@.subrange(0, i + 1).drop_last() =~= self.entries@.subrange(
                    0,
                    i as int,
                ));
            }
        }
        proof {
            assert(self.entries@.subrange(0, 0).len() == 0);
        }
        None
    }
}

impl Expr {
    /// What the grammar guarantees of parser output: every `fun`
    /// declaration nested anywhere has at least one clause.
    pub open spec fn surface_wf(self) -> bool
        decreases self,
    {
        match self {
            Expr::Literal { .. } => true,
            Expr::Symbol { .. } => true,
            Expr::Constructor { arg, .. } => match arg {
                None => true,
                Some(a) => a.surface_wf(),
            },
            Expr::Tuple { tuple } => forall|i: int|
                0 <= i < tuple@.len() ==> (#[trigger] tuple@[i]).surface_wf(),
            Expr::App { fun, arg } => fun.surface_wf() && arg.surface_wf(),
            Expr::Fn { body, .. } => body.surface_wf(),
            Expr::Let { binds, body } => body.surface_wf() && forall|i: int|
                0 <= i < binds@.len() ==> (#[trigger] binds@[i]).surface_wf(),
            Expr::Case { scrutinee, arms } => scrutinee.surface_wf() && forall|i: int|
                0 <= i < arms@.len() ==> (#[trigger] arms@[i]).1.surface_wf(),
            Expr::BuiltinCall { args, .. } => forall|i: int|
                0 <= i < args@.len() ==> (#[trigger] args@[i]).surface_wf(),
            Expr::ExternCall { args, .. } => forall|i: int|
                0 <= i < args@.len() ==> (#[trigger] args@[i]).surface_wf(),
            Expr::Proj { tuple, .. } => tuple.surface_wf(),
            Expr::D(d) => match d {
                DerivedExpr::If { cond, then, else_ } => cond.surface_wf() && then.surface_wf()
                    && else_.surface_wf(),
                DerivedExpr::FlatApp { exprs } => forall|i: int|
                    0 <= i < exprs@.len() ==> (#[trigger] exprs@[i]).surface_wf(),
                DerivedExpr::BuiltinCallNamed { args, .. } => forall|i: int|
                    0 <= i < args@.len() ==> (#[trigger] args@[i]).surface_wf(),
            },
        }
    }
}

impl Declaration {
    /// What the grammar guarantees of parser output.
    pub open spec fn surface_wf(self) -> bool
        decreases self,
    {
        match self {
            Declaration::Val { expr, .. } => expr.surface_wf(),
            Declaration::Datatype { .. } => true,
            Declaration::D(d) => match d {
                DerivedDeclaration::Fun { clauses } => clauses@.len() > 0 && forall|i: int|
                    0 <= i < clauses@.len() ==> (#[trigger] clauses@[i]).2.surface_wf(),
                DerivedDeclaration::Infix { .. } => true,
            },
        }
    }
}

impl AST {
    /// What the grammar guarantees of parser output.
    pub open spec fn surface_wf(self) -> bool {
        forall|i: int| 0 <= i < self.0@.len() ==> (#[trigger] self.0@[i]).surface_wf()
    }
}

/// The fixed table of built-in operation names.
pub open spec fn builtin_of(s: Seq<char>) -> Option<BIF> {
    if s == "add"@ {
        Some(BIF::Add)
    } else if s == "sub"@ {
        Some(BIF::Sub)
    } else if s == "mul"@ {
        Some(BIF::Mul)
    } else if s == "div"@ {
        Some(BIF::Div)
    } else if s == "mod"@ {
        Some(BIF::Mod)
    } else if s == "eq"@ {
        Some(BIF::Eq)
    } else if s == "neq"@ {
        Some(BIF::Neq)
    } else if s == "gt"@ {
        Some(BIF::Gt)
    } else if s == "ge"@ {
        Some(BIF::Ge)
    } else if s == "lt"@ {
        Some(BIF::Lt)
    } else if s == "le"@ {
        Some(BIF::Le)
    } else {
        None
    }
}

/// Some `fun` definition in the expression names two different
/// functions in its clauses.
pub open spec fn e_has_mismatch(e: Expr) -> bool
    decreases e,
{
    match e {
        Expr::Literal { .. } => false,
        Expr::Symbol { .. } => false,
        Expr::Constructor { arg, .. } => match arg {
            Some(a) => e_has_mismatch(*a),
            None => false,
        },
        Expr::Tuple { tuple } => exists|i: int|
            0 <= i < tuple@.len() && e_has_mismatch(#[trigger] tuple@[i]),
        Expr::App { fun, arg } => e_has_mismatch(*fun) || e_has_mismatch(*arg),
        Expr::Fn { body, .. } => e_has_mismatch(*body),
        Expr::Let { binds, body } => e_has_mismatch(*body) || exists|i: int|
            0 <= i < binds@.len() && d_has_mismatch(#[trigger] binds@[i]),
        Expr::Case { scrutinee, arms } => e_has_mismatch(*scrutinee) || exists|i: int|
            0 <= i < arms@.len() && e_has_mismatch((#[trigger] arms@[i]).1),
        Expr::BuiltinCall { args, .. } => exists|i: int|
            0 <= i < args@.len() && e_has_mismatch(#[trigger] args@[i]),
        Expr::ExternCall { args, .. } => exists|i: int|
            0 <= i < args@.len() && e_has_mismatch(#[trigger] args@[i]),
        Expr::Proj { tuple, .. } => e_has_mismatch(*tuple),
        Expr::D(d) => match d {
            DerivedExpr::If { cond, then, else_ } => e_has_mismatch(*cond) || e_has_mismatch(*then)
                || e_has_mismatch(*else_),
            DerivedExpr::FlatApp { exprs } => exists|i: int|
                0 <= i < exprs@.len() && e_has_mismatch(#[trigger] exprs@[i]),
            DerivedExpr::BuiltinCallNamed { args, .. } => exists|i: int|
                0 <= i < args@.len() && e_has_mismatch(#[trigger] args@[i]),
        },
    }
}

/// Some `fun` definition in the declaration names two different
/// functions in its clauses.
pub open spec fn d_has_mismatch(d: Declaration) -> bool
    decreases d,
{
    match d {
        Declaration::Val { expr, .. } => e_has_mismatch(expr),
        Declaration::Datatype { .. } => false,
        Declaration::D(dd) => match dd {
            DerivedDeclaration::Fun { clauses } => (exists|i: int|
                0 <= i < clauses@.len() && sym_key((#[trigger] clauses@[i]).0) != sym_key(
                    clauses@[0].0,
                )) || exists|i: int|
                0 <= i < clauses@.len() && e_has_mismatch((#[trigger] clauses@[i]).2),
            DerivedDeclaration::Infix { .. } => false,
        },
    }
}

/// Some `_builtincall` in the expression names an operation outside
/// the fixed table.
pub open spec fn e_has_unknown_builtin(e: Expr) -> bool
    decreases e,
{
    match e {
        Expr::Literal { .. } => false,
        Expr::Symbol { .. } => false,
        Expr::Constructor { arg, .. } => match arg {
            Some(a) => e_has_unknown_builtin(*a),
            None => false,
        },
        Expr::Tuple { tuple } => exists|i: int|
            0 <= i < tuple@.len() && e_has_unknown_builtin(#[trigger] tuple@[i]),
        Expr::App { fun, arg } => e_has_unknown_builtin(*fun) || e_has_unknown_builtin(*arg),
        Expr::Fn { body, .. } => e_has_unknown_builtin(*body),
        Expr::Let { binds, body } => e_has_unknown_builtin(*body) || exists|i: int|
            0 <= i < binds@.len() && d_has_unknown_builtin(#[trigger] binds@[i]),
        Expr::Case { scrutinee, arms } => e_has_unknown_builtin(*scrutinee) || exists|i: int|
            0 <= i < arms@.len() && e_has_unknown_builtin((#[trigger] arms@[i]).1),
        Expr::BuiltinCall { args, .. } => exists|i: int|
            0 <= i < args@.len() && e_has_unknown_builtin(#[trigger] args@[i]),
        Expr::ExternCall { args, .. } => exists|i: int|
            0 <= i < args@.len() && e_has_unknown_builtin(#[trigger] args@[i]),
        Expr::Proj { tuple, .. } => e_has_unknown_builtin(*tuple),
        Expr::D(d) => match d {
            DerivedExpr::If { cond, then, else_ } => e_has_unknown_builtin(*cond)
                || e_has_unknown_builtin(*then) || e_has_unknown_builtin(*else_),
            DerivedExpr::FlatApp { exprs } => exists|i: int|
                0 <= i < exprs@.len() && e_has_unknown_builtin(#[trigger] exprs@[i]),
            DerivedExpr::BuiltinCallNamed { name, args } => builtin_of(name@) is None || exists|
                i: int,
            |
                0 <= i < args@.len() && e_has_unknown_builtin(#[trigger] args@[i]),
        },
    }
}

/// Some `_builtincall` in the declaration names an operation outside
/// the fixed table.
pub open spec fn d_has_unknown_builtin(d: Declaration) -> bool
    decreases d,
{
    match d {
        Declaration::Val { expr, .. } => e_has_unknown_builtin(expr),
        Declaration::Datatype { .. } => false,
        Declaration::D(dd) => match dd {
            DerivedDeclaration::Fun { clauses } => exists|i: int|
                0 <= i < clauses@.len() && e_has_unknown_builtin((#[trigger] clauses@[i]).2),
            DerivedDeclaration::Infix { .. } => false,
        },
    }
}

/// The expression holds an unresolved infix run; the arity error can
/// only arise inside one.
pub open spec fn e_has_flat_run(e: Expr) -> bool
    decreases e,
{
    match e {
        Expr::Literal { .. } => false,
        Expr::Symbol { .. } => false,
        Expr::Constructor { arg, .. } => match arg {
            Some(a) => e_has_flat_run(*a),
            None => false,
        },
        Expr::Tuple { tuple } => exists|i: int|
            0 <= i < tuple@.len() && e_has_flat_run(#[trigger] tuple@[i]),
        Expr::App { fun, arg } => e_has_flat_run(*fun) || e_has_flat_run(*arg),
        Expr::Fn { body, .. } => e_has_flat_run(*body),
        Expr::Let { binds, body } => e_has_flat_run(*body) || exists|i: int|
            0 <= i < binds@.len() && d_has_flat_run(#[trigger] binds@[i]),
        Expr::Case { scrutinee, arms } => e_has_flat_run(*scrutinee) || exists|i: int|
            0 <= i < arms@.len() && e_has_flat_run((#[trigger] arms@[i]).1),
        Expr::BuiltinCall { args, .. } => exists|i: int|
            0 <= i < args@.len() && e_has_flat_run(#[trigger] args@[i]),
        Expr::ExternCall { args, .. } => exists|i: int|
            0 <= i < args@.len() && e_has_flat_run(#[trigger] args@[i]),
        Expr::Proj { tuple, .. } => e_has_flat_run(*tuple),
        Expr::D(d) => match d {
            DerivedExpr::If { cond, then, else_ } => e_has_flat_run(*cond) || e_has_flat_run(*then)
                || e_has_flat_run(*else_),
            DerivedExpr::FlatApp { .. } => true,
            DerivedExpr::BuiltinCallNamed { args, .. } => exists|i: int|
                0 <= i < args@.len() && e_has_flat_run(#[trigger] args@[i]),
        },
    }
}

/// The declaration holds an unresolved infix run.
pub open spec fn d_has_flat_run(d: Declaration) -> bool
    decreases d,
{
    match d {
        Declaration::Val { expr, .. } => e_has_flat_run(expr),
        Declaration::Datatype { .. } => false,
        Declaration::D(dd) => match dd {
            DerivedDeclaration::Fun { clauses } => exists|i: int|
                0 <= i < clauses@.len() && e_has_flat_run((#[trigger] clauses@[i]).2),
            DerivedDeclaration::Infix { .. } => false,
        },
    }
}

/// Resolve a built-in operation name against the fixed table.
fn lookup_builtin(name: &String) -> (r: Option<BIF>)
    ensures
        r == builtin_of(name@),
{
    if *name == "add".to_owned() {
        Some(BIF::Add)
    } else if *name == "sub".to_owned() {
        Some(BIF::Sub)
    } else if *name == "mul".to_owned() {
        Some(BIF::Mul)
    } else if *name == "div".to_owned() {
        Some(BIF::Div)
    } else if *name == "mod".to_owned() {
        Some(BIF::Mod)
    } else if *name == "eq".to_owned() {
        Some(BIF::Eq)
    } else if *name == "neq".to_owned() {
        Some(BIF::Neq)
    } else if *name == "gt".to_owned() {
        Some(BIF::Gt)
    } else if *name == "ge".to_owned() {
        Some(BIF::Ge)
    } else if *name == "lt".to_owned() {
        Some(BIF::Lt)
    } else if *name == "le".to_owned() {
        Some(BIF::Le)
    } else {
        None
    }
}

/// The pattern a clause's parameter list contributes to its case
/// arm: the single pattern itself, or the tuple of all of them.
pub open spec fn arm_pat_of(ps: Vec<Pattern>) -> Pattern {
    if ps@.len() == 1 {
        ps@[0]
    } else {
        Pattern::Tuple { tuple: ps }
    }
}

/// The shape a clausal `fun` definition desugars to, seen from `k`
/// abstractions in: the remaining `fn arg =>` chain, ending in a
/// case on the parameter (tuple) whose arms carry the clauses'
/// patterns.
pub open spec fn fun_chain_shape(e: Expr, k: int, clauses: Vec<(Symbol, Vec<Pattern>, Expr)>) -> bool
    decreases clauses@[0].1@.len() - k,
{
    let arity = clauses@[0].1@.len() as int;
    if k >= arity {
        &&& e matches Expr::Case { scrutinee, arms }
        &&& arms@.len() == clauses@.len()
        &&& (forall|i: int|
            0 <= i < arms@.len() ==> (#[trigger] arms@[i]).0 == arm_pat_of(clauses@[i].1))
        &&& (arity == 1 ==> (*scrutinee matches Expr::Symbol { name } && sym_key(name) == ("arg"@, 1u64)))
        &&& (arity != 1 ==> (*scrutinee matches Expr::Tuple { tuple } && tuple@.len() == arity
            && forall|j: int|
            0 <= j < arity ==> ((#[trigger] tuple@[j]) matches Expr::Symbol { name } && sym_key(
                name,
            ) == ("arg"@, (j + 1) as u64))))
    } else {
        &&& e matches Expr::Fn { param, body }
        &&& sym_key(param) == ("arg"@, (k + 1) as u64)
        &&& fun_chain_shape(*body, k + 1, clauses)
    }
}

/// Desugar one expression: derived forms are expanded, user infix
/// runs are resolved with the priority table, built-in names are
/// resolved against the fixed table.
#[verifier::rlimit(100)]
pub fn desugar_expr(e: Expr, table: &mut InfixTable) -> (r: Result<Expr, DesugarError>)
    requires
        e.surface_wf(),
    ensures
        r matches Ok(r0) ==> r0.is_core(),
        r == Err::<Expr, DesugarError>(DesugarError::ClauseNameMismatch) ==> e_has_mismatch(e),
        r == Err::<Expr, DesugarError>(DesugarError::UnknownBuiltin) ==> e_has_unknown_builtin(e),
        r == Err::<Expr, DesugarError>(DesugarError::InfixArityMismatch) ==> e_has_flat_run(e),
    decreases e,
{
    match e {
        Expr::Literal { value } => Ok(Expr::Literal { value }),
        Expr::Symbol { name } => Ok(Expr::Symbol { name }),
        Expr::Constructor { name, arg } => match arg {
            None => Ok(Expr::Constructor { name, arg: None }),
            Some(a) => match desugar_expr(*a, table) {
                Ok(a2) => Ok(Expr::Constructor { name, arg: Some(Box::new(a2)) }),
                Err(err) => Err(err),
            },
        },
        Expr::Tuple { tuple } => match desugar_exprs(tuple, table) {
            Ok(t2) => Ok(Expr::Tuple { tuple: t2 }),
            Err(err) => Err(err),
        },
        Expr::App { fun, arg } => match desugar_expr(*fun, table) {
            Ok(f2) => match desugar_expr(*arg, table) {
                Ok(a2) => Ok(Expr::App { fun: Box::new(f2), arg: Box::new(a2) }),
                Err(err) => Err(err),
            },
            Err(err) => Err(err),
        },
        Expr::Fn { param, body } => match desugar_expr(*body, table) {
            Ok(b2) => Ok(Expr::Fn { param, body: Box::new(b2) }),
            Err(err) => Err(err),
        },
        Expr::Let { binds, body } => match desugar_decls(binds, table) {
            Ok(bs2) => match desugar_expr(*body, table) {
                Ok(b2) => Ok(Expr::Let { binds: bs2, body: Box::new(b2) }),
                Err(err) => Err(err),
            },
            Err(err) => Err(err),
        },
        Expr::Case { scrutinee, arms } => match desugar_expr(*scrutinee, table) {
            Ok(s2) => match desugar_arms(arms, table) {
                Ok(a2) => Ok(Expr::Case { scrutinee: Box::new(s2), arms: a2 }),
                Err(err) => Err(err),
            },
            Err(err) => Err(err),
        },
        Expr::BuiltinCall { fun, args } => match desugar_exprs(args, table) {
            Ok(a2) => Ok(Expr::BuiltinCall { fun, args: a2 }),
            Err(err) => Err(err),
        },
        Expr::ExternCall { module, fun, args } => match desugar_exprs(args, table) {
            Ok(a2) => Ok(Expr::ExternCall { module, fun, args: a2 }),
            Err(err) => Err(err),
        },
        Expr::Proj { index, tuple } => match desugar_expr(*tuple, table) {
            Ok(t2) => Ok(Expr::Proj { index, tuple: Box::new(t2) }),
            Err(err) => Err(err),
        },
        Expr::D(d) => match d {
            DerivedExpr::If { cond, then, else_ } => match desugar_expr(*cond, table) {
                Ok(c2) => match desugar_expr(*then, table) {
                    Ok(t2) => match desugar_expr(*else_, table) {
                        Ok(e2) => {
                            let mut arms: Vec<(Pattern, Expr)> = Vec::new();
                            arms.push(
                                (
                                    Pattern::Constructor {
                                        name: Symbol::new(String::from_str("true")),
                                        arg: None,
                                    },
                                    t2,
                                ),
                            );
                            arms.push(
                                (
                                    Pattern::Constructor {
                                        name: Symbol::new(String::from_str("false")),
                                        arg: None,
                                    },
                                    e2,
                                ),
                            );
                            Ok(Expr::Case { scrutinee: Box::new(c2), arms })
                        }
                        Err(err) => Err(err),
                    },
                    Err(err) => Err(err),
                },
                Err(err) => Err(err),
            },
            DerivedExpr::FlatApp { exprs } => resolve_flat(exprs, table),
            DerivedExpr::BuiltinCallNamed { name, args } => match lookup_builtin(&name) {
                Some(op) => match desugar_exprs(args, table) {
                    Ok(a2) => Ok(Expr::BuiltinCall { fun: op, args: a2 }),
                    Err(err) => Err(err),
                },
                None => Err(DesugarError::UnknownBuiltin),
            },
        },
    }
}

/// Desugar every expression of a list.
fn desugar_exprs(es: Vec<Expr>, table: &mut InfixTable) -> (r: Result<Vec<Expr>, DesugarError>)
    requires
        forall|i: int| 0 <= i < es@.len() ==> (#[trigger] es@[i]).surface_wf(),
    ensures
        r matches Ok(v) ==> v@.len() == es@.len(),
        r matches Ok(v) ==> forall|i: int| 0 <= i < v@.len() ==> (#[trigger] v@[i]).is_core(),
        r == Err::<Vec<Expr>, DesugarError>(DesugarError::ClauseNameMismatch) ==> exists|i: int|
            0 <= i < es@.len() && e_has_mismatch(#[trigger] es@[i]),
        r == Err::<Vec<Expr>, DesugarError>(DesugarError::UnknownBuiltin) ==> exists|i: int|
            0 <= i < es@.len() && e_has_unknown_builtin(#[trigger] es@[i]),
        r == Err::<Vec<Expr>, DesugarError>(DesugarError::InfixArityMismatch) ==> exists|i: int|
            0 <= i < es@.len() && e_has_flat_run(#[trigger] es@[i]),
    decreases es,
{
    let ghost es0 = es@;
    let mut v = es;
    let mut i: usize = 0;
    while i < v.len()
        invariant
            i <= v@.len(),
            es0 == es@,
            v@.len() == es0.len(),
            forall|j: int| i <= j < v@.len() ==> v@[j] == es0[j],
            forall|j: int| 0 <= j < i ==> (#[trigger] v@[j]).is_core(),
            forall|j: int| 0 <= j < es0.len() ==> (#[trigger] es0[j]).surface_wf(),
        decreases v@.len() - i,
    {
        let mut x = Expr::placeholder();
        v.set_and_swap(i, &mut x);
        proof {
            assert(x == es0[i as int]);
            assert(x == es[i as int]);
            assert(decreases_to!(es => es[i as int]));
        }
        match desugar_expr(x, table) {
            Ok(x2) => {
                v.set(i, x2);
            }
            Err(err) => {
                proof {
                    if err == DesugarError::ClauseNameMismatch {
                        assert(e_has_mismatch(es@[i as int]));
                    }
                    if err == DesugarError::UnknownBuiltin {
                        assert(e_has_unknown_builtin(es@[i as int]));
                    }
                    if err == DesugarError::InfixArityMismatch {
                        assert(e_has_flat_run(es@[i as int]));
                    }
                }
                return Err(err);
            }
        }
        i = i + 1;
    }
    Ok(v)
}

/// Desugar the right-hand side of every case arm.
fn desugar_arms(arms: Vec<(Pattern, Expr)>, table: &mut InfixTable) -> (r: Result<
    Vec<(Pattern, Expr)>,
    DesugarError,
>)
    requires
        forall|i: int| 0 <= i < arms@.len() ==> (#[trigger] arms@[i]).1.surface_wf(),
    ensures
        r matches Ok(v) ==> forall|i: int| 0 <= i < v@.len() ==> (#[trigger] v@[i]).1.is_core(),
        r == Err::<Vec<(Pattern, Expr)>, DesugarError>(DesugarError::ClauseNameMismatch)
            ==> exists|i: int| 0 <= i < arms@.len() && e_has_mismatch((#[trigger] arms@[i]).1),
        r == Err::<Vec<(Pattern, Expr)>, DesugarError>(DesugarError::UnknownBuiltin) ==> exists|
            i: int,
        | 0 <= i < arms@.len() && e_has_unknown_builtin((#[trigger] arms@[i]).1),
        r == Err::<Vec<(Pattern, Expr)>, DesugarError>(DesugarError::InfixArityMismatch)
            ==> exists|i: int| 0 <= i < arms@.len() && e_has_flat_run((#[trigger] arms@[i]).1),
    decreases arms,
{
    let ghost a0 = arms@;
    let mut v = arms;
    let mut i: usize = 0;
    while i < v.len()
        invariant
            i <= v@.len(),
            a0 == arms@,
            v@.len() == a0.len(),
            forall|j: int| i <= j < v@.len() ==> v@[j] == a0[j],
            forall|j: int| 0 <= j < i ==> (#[trigger] v@[j]).1.is_core(),
            forall|j: int| 0 <= j < a0.len() ==> (#[trigger] a0[j]).1.surface_wf(),
        decreases v@.len() - i,
    {
        let mut x: (Pattern, Expr) = (Pattern::Wildcard, Expr::placeholder());
        v.set_and_swap(i, &mut x);
        proof {
            assert(x == a0[i as int]);
        }
        let (p, b) = x;
        proof {
            assert(x == arms[i as int]);
            assert(decreases_to!(arms => arms[i as int]));
        }
        match desugar_expr(b, table) {
            Ok(b2) => {
                v.set(i, (p, b2));
            }
            Err(err) => {
                proof {
                    if err == DesugarError::ClauseNameMismatch {
                        assert(e_has_mismatch(arms@[i as int].1));
                    }
                    if err == DesugarError::UnknownBuiltin {
                        assert(e_has_unknown_builtin(arms@[i as int].1));
                    }
                    if err == DesugarError::InfixArityMismatch {
                        assert(e_has_flat_run(arms@[i as int].1));
                    }
                }
                return Err(err);
            }
        }
        i = i + 1;
    }
    Ok(v)
}

impl Expr {
    /// A throwaway value for swapping an element out of a vector.
    fn placeholder() -> Expr {
        Expr::Tuple { tuple: Vec::new() }
    }
}

/// Resolve one run of juxtaposed atoms: plain adjacency is function
/// application and binds tightest; declared infix names apply by
/// priority, equal priorities to the left.
fn resolve_flat(exprs: Vec<Expr>, table: &mut InfixTable) -> (r: Result<Expr, DesugarError>)
    requires
        forall|i: int| 0 <= i < exprs@.len() ==> (#[trigger] exprs@[i]).surface_wf(),
    ensures
        r matches Ok(r0) ==> r0.is_core(),
        r == Err::<Expr, DesugarError>(DesugarError::ClauseNameMismatch) ==> exists|i: int|
            0 <= i < exprs@.len() && e_has_mismatch(#[trigger] exprs@[i]),
        r == Err::<Expr, DesugarError>(DesugarError::UnknownBuiltin) ==> exists|i: int|
            0 <= i < exprs@.len() && e_has_unknown_builtin(#[trigger] exprs@[i]),
    decreases exprs,
{
    let ghost es0 = exprs@;
    let mut v = exprs;
    let mut operands: Vec<Expr> = Vec::new();
    let mut ops: Vec<(Symbol, u8)> = Vec::new();
    let mut expecting = true;
    let mut i: usize = 0;
    while i < v.len()
        invariant
            i <= v@.len(),
            es0 == exprs@,
            v@.len() == es0.len(),
            forall|j: int| i <= j < v@.len() ==> v@[j] == es0[j],
            forall|j: int| 0 <= j < es0.len() ==> (#[trigger] es0[j]).surface_wf(),
            forall|j: int| 0 <= j < operands@.len() ==> (#[trigger] operands@[j]).is_core(),
            operands@.len() == ops@.len() + if expecting {
                0int
            } else {
                1int
            },
        decreases v@.len() - i,
    {
        let mut x = Expr::placeholder();
        v.set_and_swap(i, &mut x);
        proof {
            assert(x == es0[i as int]);
        }
        let mut operator: Option<(Symbol, u8)> = None;
        let mut operand: Option<Expr> = None;
        match x {
            Expr::Symbol { name } => match table.lookup(&name) {
                Some(p) => {
                    operator = Some((name, p));
                }
                None => {
                    operand = Some(Expr::Symbol { name });
                }
            },
            other => {
                operand = Some(other);
            }
        }
        match (operator, operand) {
            (Some((name, p)), _) => {
                if expecting {
                    return Err(DesugarError::InfixArityMismatch);
                }
                loop
                    invariant
                        forall|j: int|
                            0 <= j < operands@.len() ==> (#[trigger] operands@[j]).is_core(),
                        operands@.len() == ops@.len() + 1,
                    decreases ops@.len(),
                {
                    if ops.len() == 0 {
                        break ;
                    }
                    let q = ops[ops.len() - 1].1;
                    if q < p {
                        break ;
                    }
                    reduce_once(&mut operands, &mut ops);
                }
                ops.push((name, p));
                expecting = true;
            }
            (None, Some(y)) => {
                proof {
                    assert(y == es0[i as int]);
                }
                match desugar_expr(y, table) {
                    Ok(y2) => {
                        if expecting {
                            operands.push(y2);
                            expecting = false;
                        } else {
                            match operands.pop() {
                                Some(f) => {
                                    operands.push(
                                        Expr::App { fun: Box::new(f), arg: Box::new(y2) },
                                    );
                                }
                                None => {
                                    proof {
                                        assert(false);
                                    }
                                }
                            }
                        }
                    }
                    Err(err) => {
                        proof {
                            if err == DesugarError::ClauseNameMismatch {
                                assert(e_has_mismatch(exprs@[i as int]));
                            }
                            if err == DesugarError::UnknownBuiltin {
                                assert(e_has_unknown_builtin(exprs@[i as int]));
                            }
                        }
                        return Err(err);
                    }
                }
            }
            (None, None) => {
                proof {
                    assert(false);
                }
            }
        }
        i = i + 1;
    }
    if expecting {
        return Err(DesugarError::InfixArityMismatch);
    }
    while ops.len() > 0
        invariant
            forall|j: int| 0 <= j < operands@.len() ==> (#[trigger] operands@[j]).is_core(),
            operands@.len() == ops@.len() + 1,
        decreases ops@.len(),
    {
        reduce_once(&mut operands, &mut ops);
    }
    match operands.pop() {
        Some(res) => Ok(res),
        None => {
            proof {
                assert(false);
            }
            Err(DesugarError::InfixArityMismatch)
        }
    }
}

/// Apply the topmost pending operator to the two topmost operands.
fn reduce_once(operands: &mut Vec<Expr>, ops: &mut Vec<(Symbol, u8)>)
    requires
        old(ops)@.len() > 0,
        old(operands)@.len() == old(ops)@.len() + 1,
        forall|j: int| 0 <= j < old(operands)@.len() ==> (#[trigger] old(operands)@[j]).is_core(),
    ensures
        final(ops)@ == old(ops)@.drop_last(),
        final(operands)@.len() == old(operands)@.len() - 1,
        forall|j: int|
            0 <= j < final(operands)@.len() ==> (#[trigger] final(operands)@[j]).is_core(),
{
    let op = match ops.pop() {
        Some(op) => op,
        None => {
            proof {
                assert(false);
            }
            (Symbol::new(String::new()), 0)
        }
    };
    let b = match operands.pop() {
        Some(b) => b,
        None => {
            proof {
                assert(false);
            }
            Expr::placeholder()
        }
    };
    let a = match operands.pop() {
        Some(a) => a,
        None => {
            proof {
                assert(false);
            }
            Expr::placeholder()
        }
    };
    proof {
        assert(a.is_core());
        assert(b.is_core());
    }
    let mut pair: Vec<Expr> = Vec::new();
    pair.push(a);
    pair.push(b);
    let f = Expr::Symbol { name: op.0 };
    proof {
        assert(f.is_core());
    }
    let t = Expr::Tuple { tuple: pair };
    proof {
        assert(forall|j: int| 0 <= j < pair@.len() ==> (#[trigger] pair@[j]).is_core());
        assert(t.is_core());
    }
    let app = Expr::App { fun: Box::new(f), arg: Box::new(t) };
    proof {
        assert(app.is_core());
    }
    operands.push(app);
}

/// Desugar one declaration.  An infix declaration extends the table
/// and leaves nothing behind; a `fun` definition becomes one recursive
/// binding whose body splits on the tuple of its parameters.
pub fn desugar_decl(d: Declaration, table: &mut InfixTable) -> (r: Result<
    Option<Declaration>,
    DesugarError,
>)
    requires
        d.surface_wf(),
    ensures
        r matches Ok(d2) ==> (d2 matches Some(d3) ==> d3.is_core()),
        r == Err::<Option<Declaration>, DesugarError>(DesugarError::ClauseNameMismatch)
            ==> d_has_mismatch(d),
        r == Err::<Option<Declaration>, DesugarError>(DesugarError::UnknownBuiltin)
            ==> d_has_unknown_builtin(d),
        r == Err::<Option<Declaration>, DesugarError>(DesugarError::InfixArityMismatch)
            ==> d_has_flat_run(d),
        d matches Declaration::Datatype { .. } ==> r == Ok::<Option<Declaration>, DesugarError>(
            Some(d),
        ),
        r == Ok::<Option<Declaration>, DesugarError>(None) <==> (d matches Declaration::D(dd)
            && dd matches DerivedDeclaration::Infix { .. }),
        d matches Declaration::D(dd) ==> (dd matches DerivedDeclaration::Infix { .. } ==> r
            == Ok::<Option<Declaration>, DesugarError>(None)),
        d matches Declaration::D(dd) ==> (dd matches DerivedDeclaration::Fun { clauses } ==> (
        r matches Ok(d2) ==> (d2 matches Some(d3) && d3 matches Declaration::Val {
            rec,
            pattern,
            expr,
        } && rec == true && pattern == (Pattern::Variable { name: clauses@[0].0 })
            && fun_chain_shape(expr, 0, clauses)))),
    decreases d,
{
    match d {
        Declaration::Val { rec, pattern, expr } => match desugar_expr(expr, table) {
            Ok(e2) => Ok(Some(Declaration::Val { rec, pattern, expr: e2 })),
            Err(err) => Err(err),
        },
        Declaration::Datatype { name, constructors } => Ok(
            Some(Declaration::Datatype { name, constructors }),
        ),
        Declaration::D(dd) => match dd {
            DerivedDeclaration::Infix { priority, names } => {
                let p = match priority {
                    Some(p) => p,
                    None => 0,
                };
                let mut i: usize = 0;
                let mut ns = names;
                while i < ns.len()
                    invariant
                        i <= ns@.len(),
                    decreases ns@.len() - i,
                {
                    let mut nm = Symbol::new(String::new());
                    ns.set_and_swap(i, &mut nm);
                    table.entries.push((nm, p));
                    i = i + 1;
                }
                Ok(None)
            }
            DerivedDeclaration::Fun { clauses } => desugar_fun(clauses, table),
        },
    }
}

/// Desugar a clausal `fun` definition into a single recursive binding
/// `val rec f = fn a1 => ... => fn an => case (a1, ..., an) of ...`.
fn desugar_fun(clauses: Vec<(Symbol, Vec<Pattern>, Expr)>, table: &mut InfixTable) -> (r: Result<
    Option<Declaration>,
    DesugarError,
>)
    requires
        clauses@.len() > 0,
        forall|i: int| 0 <= i < clauses@.len() ==> (#[trigger] clauses@[i]).2.surface_wf(),
    ensures
        r matches Ok(d2) ==> (d2 matches Some(d3) ==> d3.is_core()),
        r matches Ok(d2) ==> (d2 matches Some(d3) && d3 matches Declaration::Val {
            rec,
            pattern,
            expr,
        } && rec == true && pattern == (Pattern::Variable { name: clauses@[0].0 })
            && fun_chain_shape(expr, 0, clauses)),
        r == Err::<Option<Declaration>, DesugarError>(DesugarError::ClauseNameMismatch) ==> (
        exists|i: int|
            0 <= i < clauses@.len() && sym_key((#[trigger] clauses@[i]).0) != sym_key(
                clauses@[0].0,
            )) || exists|i: int|
            0 <= i < clauses@.len() && e_has_mismatch((#[trigger] clauses@[i]).2),
        r == Err::<Option<Declaration>, DesugarError>(DesugarError::UnknownBuiltin) ==> exists|
            i: int,
        | 0 <= i < clauses@.len() && e_has_unknown_builtin((#[trigger] clauses@[i]).2),
        r == Err::<Option<Declaration>, DesugarError>(DesugarError::InfixArityMismatch)
            ==> exists|i: int| 0 <= i < clauses@.len() && e_has_flat_run((#[trigger] clauses@[i]).2),
    decreases clauses,
{
    let ghost cs0 = clauses@;
    let fname = clauses[0].0.clone();
    let arity = clauses[0].1.len();
    let mut v = clauses;
    let mut arms: Vec<(Pattern, Expr)> = Vec::new();
    let mut i: usize = 0;
    while i < v.len()
        invariant
            i <= v@.len(),
            cs0 == clauses@,
            v@.len() == cs0.len(),
            forall|j: int| i <= j < v@.len() ==> v@[j] == cs0[j],
            forall|j: int| 0 <= j < cs0.len() ==> (#[trigger] cs0[j]).2.surface_wf(),
            forall|j: int| 0 <= j < arms@.len() ==> (#[trigger] arms@[j]).1.is_core(),
            arms@.len() == i,
            cs0.len() > 0,
            fname == cs0[0].0,
            forall|j: int| 0 <= j < i ==> (#[trigger] arms@[j]).0 == arm_pat_of(cs0[j].1),
        decreases v@.len() - i,
    {
        let mut x: (Symbol, Vec<Pattern>, Expr) = (
            Symbol::new(String::new()),
            Vec::new(),
            Expr::placeholder(),
        );
        v.set_and_swap(i, &mut x);
        proof {
            assert(x == cs0[i as int]);
        }
        let (cname, mut pats, body) = x;
        if !(cname == fname) {
            proof {
                assert(sym_key(clauses@[i as int].0) != sym_key(clauses@[0].0));
            }
            return Err(DesugarError::ClauseNameMismatch);
        }
        let pat = if pats.len() == 1 {
            match pats.pop() {
                Some(p) => p,
                None => Pattern::Wildcard,
            }
        } else {
            Pattern::Tuple { tuple: pats }
        };
        proof {
            assert(pat == arm_pat_of(cs0[i as int].1));
        }
        match desugar_expr(body, table) {
            Ok(b2) => {
                arms.push((pat, b2));
                proof {
                    assert(arms@[i as int].0 == arm_pat_of(cs0[i as int].1));
                }
            }
            Err(err) => {
                proof {
                    if err == DesugarError::ClauseNameMismatch {
                        assert(e_has_mismatch(clauses@[i as int].2));
                    }
                    if err == DesugarError::UnknownBuiltin {
                        assert(e_has_unknown_builtin(clauses@[i as int].2));
                    }
                    if err == DesugarError::InfixArityMismatch {
                        assert(e_has_flat_run(clauses@[i as int].2));
                    }
                }
                return Err(err);
            }
        }
        i = i + 1;
    }
    // the hidden parameters: `arg` disambiguated by position, which no
    // source symbol (counter 0) can collide with
    let scrutinee: Expr;
    if arity == 1 {
        scrutinee = Expr::Symbol { name: Symbol { name: String::from_str("arg"), id: 1 } };
    } else {
        let mut parts: Vec<Expr> = Vec::new();
        let mut k: usize = 0;
        while k < arity
            invariant
                k <= arity,
                parts@.len() == k,
                forall|j: int| 0 <= j < parts@.len() ==> (#[trigger] parts@[j]).is_core(),
                forall|j: int|
                    0 <= j < parts@.len() ==> ((#[trigger] parts@[j]) matches Expr::Symbol { name }
                        && sym_key(name) == ("arg"@, (j + 1) as u64)),
            decreases arity - k,
        {
            parts.push(Expr::Symbol { name: Symbol { name: String::from_str("arg"), id: (k as u64) + 1 } });
            k = k + 1;
        }
        scrutinee = Expr::Tuple { tuple: parts };
    }
    proof {
        assert(scrutinee.is_core());
    }
    let mut body = Expr::Case { scrutinee: Box::new(scrutinee), arms };
    proof {
        assert(body.is_core());
        assert(fun_chain_shape(body, arity as int, clauses));
    }
    let mut k = arity;
    while k > 0
        invariant
            k <= arity,
            arity == clauses@[0].1@.len(),
            body.is_core(),
            fun_chain_shape(body, k as int, clauses),
        decreases k,
    {
        body = Expr::Fn {
            param: Symbol { name: String::from_str("arg"), id: k as u64 },
            body: Box::new(body),
        };
        proof {
            assert(fun_chain_shape(body, (k - 1) as int, clauses));
        }
        k = k - 1;
    }
    proof {
        assert(fname == clauses@[0].0);
    }
    Ok(
        Some(
            Declaration::Val {
                rec: true,
                pattern: Pattern::Variable { name: fname },
                expr: body,
            },
        ),
    )
}

/// How many infix declarations a list holds; they desugar to nothing.
pub open spec fn n_infix(ds: Seq<Declaration>) -> nat
    decreases ds.len(),
{
    if ds.len() == 0 {
        0
    } else {
        n_infix(ds.drop_last()) + (if ds.last() matches Declaration::D(dd)
            && dd matches DerivedDeclaration::Infix { .. } {
            1nat
        } else {
            0
        })
    }
}

/// A core unit holds no infix declarations.
proof fn lemma_core_no_infix(ds: Seq<Declaration>)
    requires
        forall|i: int| 0 <= i < ds.len() ==> (#[trigger] ds[i]).is_core(),
    ensures
        n_infix(ds) == 0,
    decreases ds.len(),
{
    if ds.len() > 0 {
        assert(ds.drop_last() =~= ds.take(ds.len() - 1));
        assert forall|i: int| 0 <= i < ds.drop_last().len() implies (#[trigger] ds.drop_last()[i]).is_core() by {
            assert(ds.drop_last()[i] == ds[i]);
        }
        lemma_core_no_infix(ds.drop_last());
        assert(ds.last().is_core());
    }
}

proof fn lemma_n_infix_take_step(ds: Seq<Declaration>, i: int)
    requires
        0 <= i < ds.len(),
    ensures
        n_infix(ds.take(i + 1)) == n_infix(ds.take(i)) + (if ds[i] matches Declaration::D(dd)
            && dd matches DerivedDeclaration::Infix { .. } {
            1nat
        } else {
            0
        }),
        n_infix(ds.take(i + 1)) <= n_infix(ds.take(i)) + 1,
{
    assert(ds.take(i + 1).drop_last() =~= ds.take(i));
    assert(ds.take(i + 1).last() == ds[i]);
}

/// Desugar a list of declarations, accumulating infix declarations
/// into the table and dropping them from the output.
pub fn desugar_decls(ds: Vec<Declaration>, table: &mut InfixTable) -> (r: Result<
    Vec<Declaration>,
    DesugarError,
>)
    requires
        forall|i: int| 0 <= i < ds@.len() ==> (#[trigger] ds@[i]).surface_wf(),
    ensures
        r matches Ok(v) ==> v@.len() + n_infix(ds@) == ds@.len(),
        r matches Ok(v) ==> forall|i: int| 0 <= i < v@.len() ==> (#[trigger] v@[i]).is_core(),
        r == Err::<Vec<Declaration>, DesugarError>(DesugarError::ClauseNameMismatch) ==> exists|
            i: int,
        | 0 <= i < ds@.len() && d_has_mismatch(#[trigger] ds@[i]),
        r == Err::<Vec<Declaration>, DesugarError>(DesugarError::UnknownBuiltin) ==> exists|i: int|
            0 <= i < ds@.len() && d_has_unknown_builtin(#[trigger] ds@[i]),
        r == Err::<Vec<Declaration>, DesugarError>(DesugarError::InfixArityMismatch) ==> exists|
            i: int,
        | 0 <= i < ds@.len() && d_has_flat_run(#[trigger] ds@[i]),
    decreases ds,
{
    let ghost ds0 = ds@;
    let mut v = ds;
    let mut out: Vec<Declaration> = Vec::new();
    let mut i: usize = 0;
    while i < v.len()
        invariant
            i <= v@.len(),
            ds0 == ds@,
            v@.len() == ds0.len(),
            forall|j: int| i <= j < v@.len() ==> v@[j] == ds0[j],
            forall|j: int| 0 <= j < ds0.len() ==> (#[trigger] ds0[j]).surface_wf(),
            forall|j: int| 0 <= j < out@.len() ==> (#[trigger] out@[j]).is_core(),
            out@.len() + n_infix(ds0.take(i as int)) == i,
        decreases v@.len() - i,
    {
        let mut x = Declaration::Datatype { name: Symbol::new(String::new()), constructors: Vec::new() };
        v.set_and_swap(i, &mut x);
        proof {
            assert(x == ds0[i as int]);
            lemma_n_infix_take_step(ds0, i as int);
        }
        match desugar_decl(x, table) {
            Ok(Some(d2)) => {
                out.push(d2);
            }
            Ok(None) => {}
            Err(err) => {
                proof {
                    if err == DesugarError::ClauseNameMismatch {
                        assert(d_has_mismatch(ds@[i as int]));
                    }
                    if err == DesugarError::UnknownBuiltin {
                        assert(d_has_unknown_builtin(ds@[i as int]));
                    }
                    if err == DesugarError::InfixArityMismatch {
                        assert(d_has_flat_run(ds@[i as int]));
                    }
                }
                return Err(err);
            }
        }
        i = i + 1;
    }
    proof {
        assert(ds0.take(ds0.len() as int) =~= ds0);
    }
    Ok(out)
}

/// Desugar a whole unit.  Running the desugarer on its own output is
/// a no-op: the result is always in core form, and a unit already in
/// core form comes back unchanged, table and all.
pub fn desugar_ast(ast: AST, table: InfixTable) -> (r: Result<(AST, InfixTable), DesugarError>)
    requires
        ast.surface_wf(),
    ensures
        r matches Ok(p) ==> p.0.is_core(),
        r matches Ok(p) ==> p.0.0@.len() + n_infix(ast.0@) == ast.0@.len(),
        ast.is_core() ==> r == Ok::<(AST, InfixTable), DesugarError>((ast, table)),
        r == Err::<(AST, InfixTable), DesugarError>(DesugarError::ClauseNameMismatch) ==> exists|
            i: int,
        | 0 <= i < ast.0@.len() && d_has_mismatch(#[trigger] ast.0@[i]),
        r == Err::<(AST, InfixTable), DesugarError>(DesugarError::UnknownBuiltin) ==> exists|
            i: int,
        | 0 <= i < ast.0@.len() && d_has_unknown_builtin(#[trigger] ast.0@[i]),
        r == Err::<(AST, InfixTable), DesugarError>(DesugarError::InfixArityMismatch) ==> exists|
            i: int,
        | 0 <= i < ast.0@.len() && d_has_flat_run(#[trigger] ast.0@[i]),
{
    if ast.check_core() {
        proof {
            lemma_core_no_infix(ast.0@);
        }
        return Ok((ast, table));
    }
    let mut t = table;
    match desugar_decls(ast.0, &mut t) {
        Ok(ds) => Ok((AST(ds), t)),
        Err(err) => Err(err),
    }
}

} // verus!
