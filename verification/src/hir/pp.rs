use vstd::prelude::*;

use crate::hir::{Expr, HIR, HTy, Pattern, Val};
use crate::prim::{Literal, Symbol, SymbolTable, BIF};
use crate::util::{
    bump, bump_indent, dec_int, dec_nat, nspaces, push_dec_i64, push_dec_u64, push_spaces,
    push_str_chars,
};

verus! {

/// The print form of a symbol: its name, disambiguated by the
/// generation counter when the symbol is compiler-introduced.
pub open spec fn pp_sym(s: Symbol) -> Seq<char> {
    if s.id == 0 {
        s.name@
    } else {
        s.name@ + "@"@ + dec_nat(s.id as nat)
    }
}

/// The print form of a built-in operation.
pub open spec fn pp_bif(b: BIF) -> Seq<char> {
    match b {
        BIF::Add => "add"@,
        BIF::Sub => "sub"@,
        BIF::Mul => "mul"@,
        BIF::Div => "div"@,
        BIF::Mod => "mod"@,
        BIF::Eq => "eq"@,
        BIF::Neq => "neq"@,
        BIF::Gt => "gt"@,
        BIF::Ge => "ge"@,
        BIF::Lt => "lt"@,
        BIF::Le => "le"@,
    }
}

/// The print form of a literal; a real shows as its raw bit pattern.
pub open spec fn pp_lit(l: Literal) -> Seq<char> {
    match l {
        Literal::Int(i) => dec_int(i as int),
        Literal::Real(b) => "r#"@ + dec_nat(b as nat),
        Literal::Char(c) => "#\""@ + dec_nat(c as nat) + "\""@,
    }
}

/// The print form of an HIR type.
pub open spec fn pp_hty(t: HTy) -> Seq<char>
    decreases t,
{
    match t {
        HTy::Char => "char"@,
        HTy::Int => "int"@,
        HTy::Real => "real"@,
        HTy::Tuple(tys) => "("@ + pp_htys(tys, 0) + ")"@,
        HTy::Fun(a, b) => pp_hty(*a) + " -> "@ + pp_hty(*b),
        HTy::Datatype(s) => pp_sym(s),
    }
}

/// The types of a tuple from position `i` on, separated by ` * `.
pub open spec fn pp_htys(tys: Vec<HTy>, i: int) -> Seq<char>
    decreases tys, tys@.len() - i,
{
    if i < 0 || i >= tys@.len() {
        Seq::empty()
    } else if i == tys@.len() - 1 {
        pp_hty(tys@[i])
    } else {
        pp_hty(tys@[i]) + " * "@ + pp_htys(tys, i + 1)
    }
}

/// The print form of a binding.
pub open spec fn pp_val(v: Val, ind: nat) -> Seq<char>
    decreases v,
{
    nspaces(ind) + "val "@ + (if v.rec {
        "rec "@
    } else {
        Seq::<char>::empty()
    }) + pp_sym(v.name) + ": "@ + pp_hty(v.ty) + " = "@ + pp_expr(v.expr, bump(ind))
}

/// The bindings from position `i` on, each followed by a newline.
pub open spec fn pp_vals(vs: Vec<Val>, i: int, ind: nat) -> Seq<char>
    decreases vs, vs@.len() - i,
{
    if i < 0 || i >= vs@.len() {
        Seq::empty()
    } else {
        pp_val(vs@[i], ind) + "\n"@ + pp_vals(vs, i + 1, ind)
    }
}

/// The print form of an expression at the given indentation.
pub open spec fn pp_expr(e: Expr, ind: nat) -> Seq<char>
    decreases e,
{
    match e {
        Expr::Binds { binds, ret, .. } => "let\n"@ + pp_vals(binds, 0, bump(ind)) + nspaces(ind)
            + "in\n"@ + nspaces(bump(ind)) + pp_expr(*ret, bump(ind)) + "\n"@ + nspaces(ind)
            + "end"@,
        Expr::Fun { param, body, captures, .. } => "fun("@ + pp_sym_pairs(captures, 0) + ") "@
            + pp_sym(param.1) + " => "@ + pp_expr(*body, bump(ind)),
        Expr::Closure { envs, fname, .. } => "<closure "@ + pp_sym(fname) + " ("@ + pp_sym_pairs(
            envs,
            0,
        ) + ")>"@,
        Expr::App { fun, arg, .. } => "("@ + pp_expr(*fun, ind) + ") "@ + pp_expr(*arg, bump(ind)),
        Expr::Case { expr, arms, .. } => "case "@ + pp_expr(*expr, bump(ind)) + " of"@ + pp_arms(
            arms,
            0,
            ind,
        ),
        Expr::Tuple { tuple, .. } => "("@ + pp_exprs(tuple, 0, ind) + ")"@,
        Expr::Proj { index, tuple, .. } => "#"@ + dec_nat(index as nat) + " "@ + pp_expr(
            *tuple,
            bump(ind),
        ),
        Expr::BuiltinCall { fun, args, .. } => pp_bif(fun) + "("@ + pp_exprs(args, 0, ind) + ")"@,
        Expr::ExternCall { module, fun, args, .. } => "\""@ + module@ + "\".\""@ + fun@ + "\"("@
            + pp_exprs(args, 0, ind) + ")"@,
        Expr::Constructor { descriminant, arg, .. } => match arg {
            None => dec_nat(descriminant as nat),
            Some(a) => dec_nat(descriminant as nat) + " "@ + pp_expr(*a, ind),
        },
        Expr::Sym { name, .. } => pp_sym(name),
        Expr::Lit { value, .. } => pp_lit(value),
    }
}

/// The expressions from position `i` on, separated by `, `.
pub open spec fn pp_exprs(es: Vec<Expr>, i: int, ind: nat) -> Seq<char>
    decreases es, es@.len() - i,
{
    if i < 0 || i >= es@.len() {
        Seq::empty()
    } else if i == es@.len() - 1 {
        pp_expr(es@[i], ind)
    } else {
        pp_expr(es@[i], ind) + ", "@ + pp_exprs(es, i + 1, ind)
    }
}

/// The case arms from position `i` on, each on its own line.
pub open spec fn pp_arms(arms: Vec<(Pattern, Expr)>, i: int, ind: nat) -> Seq<char>
    decreases arms, arms@.len() - i,
{
    if i < 0 || i >= arms@.len() {
        Seq::empty()
    } else {
        "\n"@ + nspaces(ind) + pp_pat(arms@[i].0, bump(ind)) + " => "@ + pp_expr(
            arms@[i].1,
            bump(ind),
        ) + pp_arms(arms, i + 1, ind)
    }
}

/// The symbols of a captured-environment list from position `i` on,
/// separated by `, `.
pub open spec fn pp_sym_pairs(ps: Vec<(HTy, Symbol)>, i: int) -> Seq<char>
    decreases ps@.len() - i,
{
    if i < 0 || i >= ps@.len() {
        Seq::empty()
    } else if i == ps@.len() - 1 {
        pp_sym(ps@[i].1)
    } else {
        pp_sym(ps@[i].1) + ", "@ + pp_sym_pairs(ps, i + 1)
    }
}

/// The symbols of a tuple pattern from position `i` on, separated by
/// `, `.
pub open spec fn pp_syms(ss: Vec<Symbol>, i: int) -> Seq<char>
    decreases ss@.len() - i,
{
    if i < 0 || i >= ss@.len() {
        Seq::empty()
    } else if i == ss@.len() - 1 {
        pp_sym(ss@[i])
    } else {
        pp_sym(ss@[i]) + ", "@ + pp_syms(ss, i + 1)
    }
}

/// The print form of a flat pattern.
pub open spec fn pp_pat(p: Pattern, ind: nat) -> Seq<char> {
    match p {
        Pattern::Constant { value, .. } => dec_int(value as int),
        Pattern::Char { value, .. } => "#\""@ + dec_nat(value as nat) + "\""@,
        Pattern::Constructor { descriminant, arg, .. } => match arg {
            None => dec_nat(descriminant as nat),
            Some(p) => dec_nat(descriminant as nat) + "("@ + pp_sym(p.1) + ")"@,
        },
        Pattern::Tuple { tuple, .. } => "("@ + pp_syms(tuple, 0) + ")"@,
        Pattern::Var { name, .. } => pp_sym(name),
    }
}

/// The print form of a whole unit: each top-level binding on its own
/// line.
pub open spec fn pp_hir(h: HIR, ind: nat) -> Seq<char> {
    pp_vals(h.0, 0, ind)
}

/// Append the print form of a symbol.
pub fn push_sym(out: &mut Vec<char>, s: &Symbol)
    ensures
        final(out)@ == old(out)@ + pp_sym(*s),
{
    push_str_chars(out, self_name(s));
    if s.id != 0 {
        push_str_chars(out, "@");
        push_dec_u64(out, s.id);
    }
    proof {
        assert(final(out)@ =~= old(out)@ + pp_sym(*s));
    }
}

/// The name field of a symbol as a string slice.
fn self_name(s: &Symbol) -> (r: &str)
    ensures
        r@ == s.name@,
{
    self_name_str(&s.name)
}

fn self_name_str(s: &String) -> (r: &str)
    ensures
        r@ == s@,
{
    s.as_str()
}

impl HTy {
    /// Append the print form of this type.
    pub fn pp(&self, out: &mut Vec<char>, indent: usize)
        ensures
            final(out)@ == old(out)@ + pp_hty(*self),
        decreases *self,
    {
        match self {
            HTy::Char => push_str_chars(out, "char"),
            HTy::Int => push_str_chars(out, "int"),
            HTy::Real => push_str_chars(out, "real"),
            HTy::Tuple(tys) => {
                push_str_chars(out, "(");
                pp_htys_go(tys, 0, out, indent);
                push_str_chars(out, ")");
            }
            HTy::Fun(a, b) => {
                a.pp(out, indent);
                push_str_chars(out, " -> ");
                b.pp(out, indent);
            }
            HTy::Datatype(s) => push_sym(out, s),
        }
        proof {
            assert(final(out)@ =~= old(out)@ + pp_hty(*self));
        }
    }
}

fn pp_htys_go(tys: &Vec<HTy>, i: usize, out: &mut Vec<char>, indent: usize)
    requires
        i <= tys@.len(),
    ensures
        final(out)@ == old(out)@ + pp_htys(*tys, i as int),
    decreases *tys, tys@.len() - i,
{
    if i < tys.len() {
        tys[i].pp(out, indent);
        if i + 1 < tys.len() {
            push_str_chars(out, " * ");
            pp_htys_go(tys, i + 1, out, indent);
        }
    }
    proof {
        assert(final(out)@ =~= old(out)@ + pp_htys(*tys, i as int));
    }
}

impl Val {
    /// Append the print form of this binding.
    pub fn pp(&self, out: &mut Vec<char>, indent: usize)
        ensures
            final(out)@ == old(out)@ + pp_val(*self, indent as nat),
        decreases *self,
    {
        push_spaces(out, indent);
        push_str_chars(out, "val ");
        if self.rec {
            push_str_chars(out, "rec ");
        }
        push_sym(out, &self.name);
        push_str_chars(out, ": ");
        self.ty.pp(out, indent);
        push_str_chars(out, " = ");
        self.expr.pp(out, bump_indent(indent));
        proof {
            assert(final(out)@ =~= old(out)@ + pp_val(*self, indent as nat));
        }
    }
}

fn pp_vals_go(vs: &Vec<Val>, i: usize, out: &mut Vec<char>, indent: usize)
    requires
        i <= vs@.len(),
    ensures
        final(out)@ == old(out)@ + pp_vals(*vs, i as int, indent as nat),
    decreases *vs, vs@.len() - i,
{
    if i < vs.len() {
        vs[i].pp(out, indent);
        push_str_chars(out, "\n");
        pp_vals_go(vs, i + 1, out, indent);
    }
    proof {
        assert(final(out)@ =~= old(out)@ + pp_vals(*vs, i as int, indent as nat));
    }
}

impl Expr {
    /// Append the print form of this expression.
    pub fn pp(&self, out: &mut Vec<char>, indent: usize)
        ensures
            final(out)@ == old(out)@ + pp_expr(*self, indent as nat),
        decreases *self,
    {
        match self {
            Expr::Binds { binds, ret, .. } => {
                push_str_chars(out, "let\n");
                pp_vals_go(binds, 0, out, bump_indent(indent));
                push_spaces(out, indent);
                push_str_chars(out, "in\n");
                push_spaces(out, bump_indent(indent));
                ret.pp(out, bump_indent(indent));
                push_str_chars(out, "\n");
                push_spaces(out, indent);
                push_str_chars(out, "end");
            }
            Expr::Fun { param, body, captures, .. } => {
                push_str_chars(out, "fun(");
                pp_sym_pairs_go(captures, 0, out);
                push_str_chars(out, ") ");
                push_sym(out, &param.1);
                push_str_chars(out, " => ");
                body.pp(out, bump_indent(indent));
            }
            Expr::Closure { envs, fname, .. } => {
                push_str_chars(out, "<closure ");
                push_sym(out, fname);
                push_str_chars(out, " (");
                pp_sym_pairs_go(envs, 0, out);
                push_str_chars(out, ")>");
            }
            Expr::App { fun, arg, .. } => {
                push_str_chars(out, "(");
                fun.pp(out, indent);
                push_str_chars(out, ") ");
                arg.pp(out, bump_indent(indent));
            }
            Expr::Case { expr, arms, .. } => {
                push_str_chars(out, "case ");
                expr.pp(out, bump_indent(indent));
                push_str_chars(out, " of");
                pp_arms_go(arms, 0, out, indent);
            }
            Expr::Tuple { tuple, .. } => {
                push_str_chars(out, "(");
                pp_exprs_go(tuple, 0, out, indent);
                push_str_chars(out, ")");
            }
            Expr::Proj { index, tuple, .. } => {
                push_str_chars(out, "#");
                push_dec_u64(out, *index);
                push_str_chars(out, " ");
                tuple.pp(out, bump_indent(indent));
            }
            Expr::BuiltinCall { fun, args, .. } => {
                match fun {
                    BIF::Add => push_str_chars(out, "add"),
                    BIF::Sub => push_str_chars(out, "sub"),
                    BIF::Mul => push_str_chars(out, "mul"),
                    BIF::Div => push_str_chars(out, "div"),
                    BIF::Mod => push_str_chars(out, "mod"),
                    BIF::Eq => push_str_chars(out, "eq"),
                    BIF::Neq => push_str_chars(out, "neq"),
                    BIF::Gt => push_str_chars(out, "gt"),
                    BIF::Ge => push_str_chars(out, "ge"),
                    BIF::Lt => push_str_chars(out, "lt"),
                    BIF::Le => push_str_chars(out, "le"),
                }
                push_str_chars(out, "(");
                pp_exprs_go(args, 0, out, indent);
                push_str_chars(out, ")");
            }
            Expr::ExternCall { module, fun, args, .. } => {
                push_str_chars(out, "\"");
                push_str_chars(out, self_name_str(module));
                push_str_chars(out, "\".\"");
                push_str_chars(out, self_name_str(fun));
                push_str_chars(out, "\"(");
                pp_exprs_go(args, 0, out, indent);
                push_str_chars(out, ")");
            }
            Expr::Constructor { descriminant, arg, .. } => {
                push_dec_u64(out, *descriminant);
                match arg {
                    None => {}
                    Some(a) => {
                        push_str_chars(out, " ");
                        a.pp(out, indent);
                    }
                }
            }
            Expr::Sym { name, .. } => push_sym(out, name),
            Expr::Lit { value, .. } => {
                match value {
                    Literal::Int(i) => push_dec_i64(out, *i),
                    Literal::Real(b) => {
                        push_str_chars(out, "r#");
                        push_dec_u64(out, *b);
                    }
                    Literal::Char(c) => {
                        push_str_chars(out, "#\"");
                        push_dec_u64(out, *c as u64);
                        push_str_chars(out, "\"");
                    }
                }
            }
        }
        proof {
            assert(final(out)@ =~= old(out)@ + pp_expr(*self, indent as nat));
        }
    }
}

fn pp_exprs_go(es: &Vec<Expr>, i: usize, out: &mut Vec<char>, indent: usize)
    requires
        i <= es@.len(),
    ensures
        final(out)@ == old(out)@ + pp_exprs(*es, i as int, indent as nat),
    decreases *es, es@.len() - i,
{
    if i < es.len() {
        es[i].pp(out, indent);
        if i + 1 < es.len() {
            push_str_chars(out, ", ");
            pp_exprs_go(es, i + 1, out, indent);
        }
    }
    proof {
        assert(final(out)@ =~= old(out)@ + pp_exprs(*es, i as int, indent as nat));
    }
}

fn pp_arms_go(arms: &Vec<(Pattern, Expr)>, i: usize, out: &mut Vec<char>, indent: usize)
    requires
        i <= arms@.len(),
    ensures
        final(out)@ == old(out)@ + pp_arms(*arms, i as int, indent as nat),
    decreases *arms, arms@.len() - i,
{
    if i < arms.len() {
        push_str_chars(out, "\n");
        push_spaces(out, indent);
        arms[i].0.pp(out, bump_indent(indent));
        push_str_chars(out, " => ");
        arms[i].1.pp(out, bump_indent(indent));
        pp_arms_go(arms, i + 1, out, indent);
    }
    proof {
        assert(final(out)@ =~= old(out)@ + pp_arms(*arms, i as int, indent as nat));
    }
}

fn pp_sym_pairs_go(ps: &Vec<(HTy, Symbol)>, i: usize, out: &mut Vec<char>)
    requires
        i <= ps@.len(),
    ensures
        final(out)@ == old(out)@ + pp_sym_pairs(*ps, i as int),
    decreases ps@.len() - i,
{
    if i < ps.len() {
        push_sym(out, &ps[i].1);
        if i + 1 < ps.len() {
            push_str_chars(out, ", ");
            pp_sym_pairs_go(ps, i + 1, out);
        }
    }
    proof {
        assert(final(out)@ =~= old(out)@ + pp_sym_pairs(*ps, i as int));
    }
}

impl Pattern {
    /// Append the print form of this pattern.
    pub fn pp(&self, out: &mut Vec<char>, indent: usize)
        ensures
            final(out)@ == old(out)@ + pp_pat(*self, indent as nat),
    {
        match self {
            Pattern::Constant { value, .. } => push_dec_i64(out, *value),
            Pattern::Char { value, .. } => {
                push_str_chars(out, "#\"");
                push_dec_u64(out, *value as u64);
                push_str_chars(out, "\"");
            }
            Pattern::Constructor { descriminant, arg, .. } => {
                push_dec_u64(out, *descriminant);
                match arg {
                    None => {}
                    Some(p) => {
                        push_str_chars(out, "(");
                        push_sym(out, &p.1);
                        push_str_chars(out, ")");
                    }
                }
            }
            Pattern::Tuple { tuple, .. } => {
                push_str_chars(out, "(");
                pp_syms_go(tuple, 0, out);
                push_str_chars(out, ")");
            }
            Pattern::Var { name, .. } => push_sym(out, name),
        }
        proof {
            assert(final(out)@ =~= old(out)@ + pp_pat(*self, indent as nat));
        }
    }
}

fn pp_syms_go(ss: &Vec<Symbol>, i: usize, out: &mut Vec<char>)
    requires
        i <= ss@.len(),
    ensures
        final(out)@ == old(out)@ + pp_syms(*ss, i as int),
    decreases ss@.len() - i,
{
    if i < ss.len() {
        push_sym(out, &ss[i]);
        if i + 1 < ss.len() {
            push_str_chars(out, ", ");
            pp_syms_go(ss, i + 1, out);
        }
    }
    proof {
        assert(final(out)@ =~= old(out)@ + pp_syms(*ss, i as int));
    }
}

impl HIR {
    /// Append the print form of the whole unit.
    pub fn pp(&self, out: &mut Vec<char>, indent: usize)
        ensures
            final(out)@ == old(out)@ + pp_hir(*self, indent as nat),
    {
        pp_vals_go(&self.0, 0, out, indent);
    }
}

/// Append the print form of a compiled unit; the symbol table rides
/// along but leaves no mark on the page.
pub fn pp(program: &(SymbolTable, HIR), out: &mut Vec<char>, indent: usize)
    ensures
        final(out)@ == old(out)@ + pp_hir(program.1, indent as nat),
{
    program.1.pp(out, indent);
}

} // verus!
