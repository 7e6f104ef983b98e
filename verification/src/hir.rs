use vstd::prelude::*;

use crate::prim::{Literal, Symbol, BIF};

pub mod pp;

verus! {

/// A type in the higher IR.  Inference is over by the time HIR exists,
/// so there is no unification-variable form here.
#[derive(PartialEq, Debug)]
pub enum HTy {
    Char,
    Int,
    Real,
    Tuple(Vec<HTy>),
    Fun(Box<HTy>, Box<HTy>),
    Datatype(Symbol),
}

/// A whole compilation unit in the higher IR: its top-level bindings.
#[derive(PartialEq, Debug)]
pub struct HIR(pub Vec<Val>);

/// One binding.  `rec` marks members of a recursive group.
#[derive(PartialEq, Debug)]
pub struct Val {
    pub rec: bool,
    pub name: Symbol,
    pub ty: HTy,
    pub expr: Expr,
}

/// A typed, closure-converted expression.  `Fun` carries its captured
/// environment explicitly; `Closure` is the allocation of such an
/// environment over a named function.
#[derive(PartialEq, Debug)]
pub enum Expr {
    Binds { ty: HTy, binds: Vec<Val>, ret: Box<Expr> },
    Fun { param: (HTy, Symbol), body_ty: HTy, body: Box<Expr>, captures: Vec<(HTy, Symbol)> },
    Closure { envs: Vec<(HTy, Symbol)>, param_ty: HTy, body_ty: HTy, fname: Symbol },
    App { ty: HTy, fun: Box<Expr>, arg: Box<Expr> },
    Case { ty: HTy, expr: Box<Expr>, arms: Vec<(Pattern, Expr)> },
    Tuple { tys: Vec<HTy>, tuple: Vec<Expr> },
    Proj { ty: HTy, index: u64, tuple: Box<Expr> },
    BuiltinCall { ty: HTy, fun: BIF, args: Vec<Expr> },
    ExternCall { ty: HTy, module: String, fun: String, args: Vec<Expr> },
    Constructor { ty: HTy, descriminant: u64, arg: Option<Box<Expr>> },
    Sym { ty: HTy, name: Symbol },
    Lit { ty: HTy, value: Literal },
}

/// A pattern as it survives match compilation: flat, at most one
/// constructor layer, sub-positions already reduced to variables.
#[derive(PartialEq, Debug)]
pub enum Pattern {
    Constant { ty: HTy, value: i64 },
    Char { ty: HTy, value: u32 },
    Constructor { ty: HTy, descriminant: u64, arg: Option<(HTy, Symbol)> },
    Tuple { tys: Vec<HTy>, tuple: Vec<Symbol> },
    Var { ty: HTy, name: Symbol },
}

} // verus!
