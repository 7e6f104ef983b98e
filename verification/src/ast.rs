use vstd::prelude::*;

use crate::prim::{Literal, Symbol, BIF};

verus! {

/// A type of the surface and core language.  `Variable` is the
/// unification-variable kind; it exists only while inference runs.
#[derive(PartialEq, Debug)]
pub enum Type {
    Int,
    Real,
    Char,
    Tuple(Vec<Type>),
    Fun(Box<Type>, Box<Type>),
    Datatype(Symbol),
    Variable(u64),
}

/// A whole compilation unit as the parser hands it over, or, after
/// desugaring, in core form.
#[derive(PartialEq, Debug)]
pub struct AST(pub Vec<Declaration>);

/// A top-level or `let`-bound declaration.
#[derive(PartialEq, Debug)]
pub enum Declaration {
    Val { rec: bool, pattern: Pattern, expr: Expr },
    Datatype { name: Symbol, constructors: Vec<(Symbol, Option<Type>)> },
    D(DerivedDeclaration),
}

/// The declaration forms the desugarer eliminates.
#[derive(PartialEq, Debug)]
pub enum DerivedDeclaration {
    /// `fun`-style clausal definitions; every clause repeats the
    /// function name it claims to define.
    Fun { clauses: Vec<(Symbol, Vec<Pattern>, Expr)> },
    /// A user infix declaration with priority 0 to 9 (absent means 0).
    Infix { priority: Option<u8>, names: Vec<Symbol> },
}

/// An expression.
#[derive(PartialEq, Debug)]
pub enum Expr {
    Literal { value: Literal },
    Symbol { name: Symbol },
    Constructor { name: Symbol, arg: Option<Box<Expr>> },
    Tuple { tuple: Vec<Expr> },
    App { fun: Box<Expr>, arg: Box<Expr> },
    Fn { param: Symbol, body: Box<Expr> },
    Let { binds: Vec<Declaration>, body: Box<Expr> },
    Case { scrutinee: Box<Expr>, arms: Vec<(Pattern, Expr)> },
    BuiltinCall { fun: BIF, args: Vec<Expr> },
    ExternCall { module: String, fun: String, args: Vec<Expr> },
    Proj { index: u64, tuple: Box<Expr> },
    D(DerivedExpr),
}

/// The expression forms the desugarer eliminates.
#[derive(PartialEq, Debug)]
pub enum DerivedExpr {
    If { cond: Box<Expr>, then: Box<Expr>, else_: Box<Expr> },
    /// A run of juxtaposed atoms whose infix structure is still
    /// unresolved; the desugarer reads it with the priority table.
    FlatApp { exprs: Vec<Expr> },
    /// `_builtincall "name" (args)` before the name is resolved
    /// against the fixed table of built-in operations.
    BuiltinCallNamed { name: String, args: Vec<Expr> },
}

/// A pattern.
#[derive(PartialEq, Debug)]
pub enum Pattern {
    Constant { value: i64 },
    Char { value: u32 },
    Variable { name: Symbol },
    Wildcard,
    Tuple { tuple: Vec<Pattern> },
    Constructor { name: Symbol, arg: Option<Box<Pattern>> },
}

impl Expr {
    /// Core form: every derived construct is gone.
    pub open spec fn is_core(self) -> bool
        decreases self,
    {
        match self {
            Expr::Literal { .. } => true,
            Expr::Symbol { .. } => true,
            Expr::Constructor { arg, .. } => match arg {
                None => true,
                Some(a) => a.is_core(),
            },
            Expr::Tuple { tuple } => forall|i: int|
                0 <= i < tuple@.len() ==> (#[trigger] tuple@[i]).is_core(),
            Expr::App { fun, arg } => fun.is_core() && arg.is_core(),
            Expr::Fn { body, .. } => body.is_core(),
            Expr::Let { binds, body } => body.is_core() && forall|i: int|
                0 <= i < binds@.len() ==> (#[trigger] binds@[i]).is_core(),
            Expr::Case { scrutinee, arms } => scrutinee.is_core() && forall|i: int|
                0 <= i < arms@.len() ==> (#[trigger] arms@[i]).1.is_core(),
            Expr::BuiltinCall { args, .. } => forall|i: int|
                0 <= i < args@.len() ==> (#[trigger] args@[i]).is_core(),
            Expr::ExternCall { args, .. } => forall|i: int|
                0 <= i < args@.len() ==> (#[trigger] args@[i]).is_core(),
            Expr::Proj { tuple, .. } => tuple.is_core(),
            Expr::D(_) => false,
        }
    }
}

impl Declaration {
    /// Core form: a plain binding or a datatype; no derived
    /// declaration, and a core expression inside.
    pub open spec fn is_core(self) -> bool
        decreases self,
    {
        match self {
            Declaration::Val { expr, .. } => expr.is_core(),
            Declaration::Datatype { .. } => true,
            Declaration::D(_) => false,
        }
    }
}

impl AST {
    /// Core form throughout.
    pub open spec fn is_core(self) -> bool {
        forall|i: int| 0 <= i < self.0@.len() ==> (#[trigger] self.0@[i]).is_core()
    }
}

impl Expr {
    /// Decide core form.
    pub fn check_core(&self) -> (b: bool)
        ensures
            b == self.is_core(),
        decreases *self,
    {
        match self {
            Expr::Literal { .. } => true,
            Expr::Symbol { .. } => true,
            Expr::Constructor { arg, .. } => match arg {
                None => true,
                Some(a) => a.check_core(),
            },
            Expr::Tuple { tuple } => check_core_exprs(tuple),
            Expr::App { fun, arg } => fun.check_core() && arg.check_core(),
            Expr::Fn { body, .. } => body.check_core(),
            Expr::Let { binds, body } => check_core_decls(binds) && body.check_core(),
            Expr::Case { scrutinee, arms } => check_core_arms(arms) && scrutinee.check_core(),
            Expr::BuiltinCall { args, .. } => check_core_exprs(args),
            Expr::ExternCall { args, .. } => check_core_exprs(args),
            Expr::Proj { tuple, .. } => tuple.check_core(),
            Expr::D(_) => false,
        }
    }
}

/// Decide core form for every declaration of a list.
fn check_core_decls(ds: &Vec<Declaration>) -> (b: bool)
    ensures
        b == forall|i: int| 0 <= i < ds@.len() ==> (#[trigger] ds@[i]).is_core(),
    decreases *ds,
{
    check_core_decls_from(ds, 0)
}

fn check_core_decls_from(ds: &Vec<Declaration>, i: usize) -> (b: bool)
    requires
        i <= ds@.len(),
    ensures
        b == forall|j: int| i <= j < ds@.len() ==> (#[trigger] ds@[j]).is_core(),
    decreases *ds, ds@.len() - i,
{
    if i < ds.len() {
        ds[i].check_core() && check_core_decls_from(ds, i + 1)
    } else {
        true
    }
}

/// Decide core form for the body of every case arm.
fn check_core_arms(arms: &Vec<(Pattern, Expr)>) -> (b: bool)
    ensures
        b == forall|i: int| 0 <= i < arms@.len() ==> (#[trigger] arms@[i]).1.is_core(),
    decreases *arms,
{
    check_core_arms_from(arms, 0)
}

fn check_core_arms_from(arms: &Vec<(Pattern, Expr)>, i: usize) -> (b: bool)
    requires
        i <= arms@.len(),
    ensures
        b == forall|j: int| i <= j < arms@.len() ==> (#[trigger] arms@[j]).1.is_core(),
    decreases *arms, arms@.len() - i,
{
    if i < arms.len() {
        arms[i].1.check_core() && check_core_arms_from(arms, i + 1)
    } else {
        true
    }
}

/// Decide core form for every expression of a list.
fn check_core_exprs(es: &Vec<Expr>) -> (b: bool)
    ensures
        b == forall|i: int| 0 <= i < es@.len() ==> (#[trigger] es@[i]).is_core(),
    decreases *es,
{
    check_core_exprs_from(es, 0)
}

fn check_core_exprs_from(es: &Vec<Expr>, i: usize) -> (b: bool)
    requires
        i <= es@.len(),
    ensures
        b == forall|j: int| i <= j < es@.len() ==> (#[trigger] es@[j]).is_core(),
    decreases *es, es@.len() - i,
{
    if i < es.len() {
        es[i].check_core() && check_core_exprs_from(es, i + 1)
    } else {
        true
    }
}

impl Declaration {
    /// Decide core form.
    pub fn check_core(&self) -> (b: bool)
        ensures
            b == self.is_core(),
        decreases *self,
    {
        match self {
            Declaration::Val { expr, .. } => expr.check_core(),
            Declaration::Datatype { .. } => true,
            Declaration::D(_) => false,
        }
    }
}

impl AST {
    /// Decide core form.
    pub fn check_core(&self) -> (b: bool)
        ensures
            b == self.is_core(),
    {
        let mut i: usize = 0;
        while i < self.0.len()
            invariant
                i <= self.0@.len(),
                forall|j: int| 0 <= j < i ==> (#[trigger] self.0@[j]).is_core(),
            decreases self.0@.len() - i,
        {
            if !self.0[i].check_core() {
                return false;
            }
            i = i + 1;
        }
        true
    }
}

} // verus!
