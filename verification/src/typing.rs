use vstd::prelude::*;

use crate::ast::{Declaration, Expr, Pattern, Type, AST};
use crate::pattern::{CtorEnv, CtorInfo};
use crate::prim::{Literal, Symbol, BIF};
use vstd::string::StringExecFns;

verus! {

/// What can go wrong while inferring types.
#[derive(PartialEq, Debug)]
pub enum TypeError {
    Unify { expected: Type, actual: Type },
    UnboundSymbol { name: Symbol },
    ArityMismatch,
    ConstructorArityMismatch,
    DuplicateBinding { name: Symbol },
}

/// A type contains no unification variable.
pub open spec fn ty_resolved(t: Type) -> bool
    decreases t,
{
    match t {
        Type::Int => true,
        Type::Real => true,
        Type::Char => true,
        Type::Tuple(ts) => forall|i: int| 0 <= i < ts@.len() ==> ty_resolved(#[trigger] ts@[i]),
        Type::Fun(a, b) => ty_resolved(*a) && ty_resolved(*b),
        Type::Datatype(_) => true,
        Type::Variable(_) => false,
    }
}

/// Structural size of a type, the second component of the
/// unification measure.
pub open spec fn ty_size(t: Type) -> nat
    decreases t,
{
    match t {
        Type::Tuple(ts) => 1 + tys_size(ts@, 0),
        Type::Fun(a, b) => 1 + ty_size(*a) + ty_size(*b),
        _ => 1,
    }
}

/// Total size of a type sequence from position `i` on.
pub open spec fn tys_size(s: Seq<Type>, i: int) -> nat
    decreases s, s.len() - i,
{
    if i < 0 || i >= s.len() {
        0
    } else {
        ty_size(s[i]) + tys_size(s, i + 1)
    }
}

proof fn lemma_tys_size_ge_elem(s: Seq<Type>, i: int, c: int)
    requires
        0 <= i <= c < s.len(),
    ensures
        tys_size(s, i) >= ty_size(s[c]),
    decreases c - i,
{
    if i < c {
        lemma_tys_size_ge_elem(s, i + 1, c);
    }
}

/// Two types agree structurally: same shape, same datatype names,
/// same unification variables.
pub open spec fn ty_deq(a: Type, b: Type) -> bool
    decreases a,
{
    match (a, b) {
        (Type::Int, Type::Int) => true,
        (Type::Real, Type::Real) => true,
        (Type::Char, Type::Char) => true,
        (Type::Tuple(x), Type::Tuple(y)) => x@.len() == y@.len() && forall|i: int|
            0 <= i < x@.len() ==> ty_deq(#[trigger] x@[i], y@[i]),
        (Type::Fun(a1, a2), Type::Fun(b1, b2)) => ty_deq(*a1, *b1) && ty_deq(*a2, *b2),
        (Type::Datatype(s1), Type::Datatype(s2)) => crate::prim::sym_key(s1)
            == crate::prim::sym_key(s2),
        (Type::Variable(v), Type::Variable(w)) => v == w,
        _ => false,
    }
}

/// A deep copy of a type.
pub fn clone_type(t: &Type) -> (r: Type)
    ensures
        ty_deq(r, *t),
    decreases *t,
{
    match t {
        Type::Int => Type::Int,
        Type::Real => Type::Real,
        Type::Char => Type::Char,
        Type::Tuple(ts) => Type::Tuple(clone_types(ts)),
        Type::Fun(a, b) => Type::Fun(Box::new(clone_type(a)), Box::new(clone_type(b))),
        Type::Datatype(s) => Type::Datatype(s.clone()),
        Type::Variable(v) => Type::Variable(*v),
    }
}

fn clone_types(ts: &Vec<Type>) -> (r: Vec<Type>)
    ensures
        r@.len() == ts@.len(),
        forall|i: int| 0 <= i < r@.len() ==> ty_deq(#[trigger] r@[i], ts@[i]),
    decreases *ts,
{
    let mut out: Vec<Type> = Vec::new();
    clone_types_into(ts, 0, &mut out);
    out
}

fn clone_types_into(ts: &Vec<Type>, j: usize, out: &mut Vec<Type>)
    requires
        j <= ts@.len(),
        out@.len() == j,
        forall|i: int| 0 <= i < j ==> ty_deq(#[trigger] out@[i], ts@[i]),
    ensures
        final(out)@.len() == ts@.len(),
        forall|i: int| 0 <= i < ts@.len() ==> ty_deq(#[trigger] final(out)@[i], ts@[i]),
    decreases *ts, ts@.len() - j,
{
    if j < ts.len() {
        let c = clone_type(&ts[j]);
        out.push(c);
        clone_types_into(ts, j + 1, out);
    }
}

/// The store of unification variables: what each one was bound to,
/// and how many are still unbound.  The count only ever falls, which
/// is what bounds unification.
pub struct TypeStore {
    pub subst: Vec<Option<Type>>,
    pub unbound: usize,
}

impl TypeStore {
    pub fn new() -> (r: TypeStore)
        ensures
            r.subst@.len() == 0,
    {
        TypeStore { subst: Vec::new(), unbound: 0 }
    }

    /// A fresh unification variable.
    pub fn fresh(&mut self) -> (r: u64)
        ensures
            final(self).unbound >= old(self).unbound,
    {
        let id = self.subst.len() as u64;
        self.subst.push(None);
        if self.unbound < usize::MAX {
            self.unbound = self.unbound + 1;
        }
        id
    }

    /// Replace every bound variable at the top layers of a type by
    /// its binding; one pass, since bindings are kept resolved.
    pub fn resolve(&self, t: &Type) -> (r: Type)
        decreases *t,
    {
        match t {
            Type::Variable(v) => {
                let vi = *v;
                if vi < self.subst.len() as u64 {
                    match &self.subst[vi as usize] {
                        Some(u) => clone_type(u),
                        None => Type::Variable(vi),
                    }
                } else {
                    Type::Variable(vi)
                }
            }
            Type::Tuple(ts) => {
                let mut out: Vec<Type> = Vec::new();
                self.resolve_into(ts, 0, &mut out);
                Type::Tuple(out)
            }
            Type::Fun(a, b) => Type::Fun(Box::new(self.resolve(a)), Box::new(self.resolve(b))),
            other => clone_type(other),
        }
    }

    fn resolve_into(&self, ts: &Vec<Type>, j: usize, out: &mut Vec<Type>)
        requires
            j <= ts@.len(),
        decreases *ts, ts@.len() - j,
    {
        if j < ts.len() {
            let c = self.resolve(&ts[j]);
            out.push(c);
            self.resolve_into(ts, j + 1, out);
        }
    }

    /// Ground a type: resolve it, then turn what stays unbound into
    /// the unit type, so that nothing downstream ever meets a
    /// unification variable.  The defaulting is deliberate: a type the
    /// program never constrains is as good as unit.
    pub fn ground(&self, t: &Type) -> (r: Type)
        ensures
            ty_resolved(r),
    {
        let rt = self.resolve(t);
        ground_vars(&rt)
    }
}

/// Replace every unification variable by the unit type.
fn ground_vars(t: &Type) -> (r: Type)
    ensures
        ty_resolved(r),
        *t matches Type::Variable(_) ==> (r matches Type::Tuple(ts) && ts@.len() == 0),
    decreases *t,
{
    match t {
        Type::Int => Type::Int,
        Type::Real => Type::Real,
        Type::Char => Type::Char,
        Type::Tuple(ts) => {
            let mut out: Vec<Type> = Vec::new();
            ground_vars_into(ts, 0, &mut out);
            Type::Tuple(out)
        }
        Type::Fun(a, b) => Type::Fun(Box::new(ground_vars(a)), Box::new(ground_vars(b))),
        Type::Datatype(s) => Type::Datatype(s.clone()),
        Type::Variable(_) => Type::Tuple(Vec::new()),
    }
}

fn ground_vars_into(ts: &Vec<Type>, j: usize, out: &mut Vec<Type>)
    requires
        j <= ts@.len(),
        forall|i: int| 0 <= i < out@.len() ==> ty_resolved(#[trigger] out@[i]),
    ensures
        forall|i: int| 0 <= i < final(out)@.len() ==> ty_resolved(#[trigger] final(out)@[i]),
    decreases *ts, ts@.len() - j,
{
    if j < ts.len() {
        let c = ground_vars(&ts[j]);
        out.push(c);
        ground_vars_into(ts, j + 1, out);
    }
}

/// Does variable `v` occur in `t`?
fn occurs(v: u64, t: &Type) -> bool
    decreases *t,
{
    match t {
        Type::Variable(w) => *w == v,
        Type::Tuple(ts) => occurs_in(v, ts, 0),
        Type::Fun(a, b) => occurs(v, a) || occurs(v, b),
        _ => false,
    }
}

fn occurs_in(v: u64, ts: &Vec<Type>, j: usize) -> bool
    requires
        j <= ts@.len(),
    decreases *ts, ts@.len() - j,
{
    if j < ts.len() {
        occurs(v, &ts[j]) || occurs_in(v, ts, j + 1)
    } else {
        false
    }
}

/// Substitute `Variable(v)` by `r` throughout `t`.
fn subst_var(t: &Type, v: u64, r: &Type) -> Type
    decreases *t,
{
    match t {
        Type::Variable(w) => {
            if *w == v {
                clone_type(r)
            } else {
                Type::Variable(*w)
            }
        }
        Type::Tuple(ts) => {
            let mut out: Vec<Type> = Vec::new();
            subst_var_into(ts, 0, v, r, &mut out);
            Type::Tuple(out)
        }
        Type::Fun(a, b) => Type::Fun(Box::new(subst_var(a, v, r)), Box::new(subst_var(b, v, r))),
        other => clone_type(other),
    }
}

fn subst_var_into(ts: &Vec<Type>, j: usize, v: u64, r: &Type, out: &mut Vec<Type>)
    requires
        j <= ts@.len(),
    decreases *ts, ts@.len() - j,
{
    if j < ts.len() {
        let c = subst_var(&ts[j], v, r);
        out.push(c);
        subst_var_into(ts, j + 1, v, r, out);
    }
}

/// Bind `v` to `t` after the occurs check, and keep every stored
/// binding free of `v`.
fn bind_var(st: &mut TypeStore, v: u64, t: &Type) -> (r: Result<(), TypeError>)
    ensures
        final(st).unbound <= old(st).unbound,
        r is Ok ==> final(st).unbound < old(st).unbound || old(st).unbound == 0,
{
    if occurs(v, t) {
        return Err(TypeError::Unify { expected: Type::Variable(v), actual: clone_type(t) });
    }
    if v >= st.subst.len() as u64 {
        return Err(TypeError::Unify { expected: Type::Variable(v), actual: clone_type(t) });
    }
    let vi = v as usize;
    match &st.subst[vi] {
        Some(_) => {
            return Err(TypeError::Unify { expected: Type::Variable(v), actual: clone_type(t) });
        }
        None => {}
    }
    st.subst.set(vi, Some(clone_type(t)));
    let mut j: usize = 0;
    let n = st.subst.len();
    while j < n
        invariant
            n == st.subst@.len(),
            st.unbound == old(st).unbound,
        decreases n - j,
    {
        if j != vi {
            let upd = match &st.subst[j] {
                Some(u) => Some(subst_var(u, v, t)),
                None => None,
            };
            match upd {
                Some(u2) => {
                    st.subst.set(j, Some(u2));
                }
                None => {}
            }
        }
        j = j + 1;
    }
    if st.unbound > 0 {
        st.unbound = st.unbound - 1;
    }
    Ok(())
}

/// Unify two types under the store.  Callers hand in resolved types;
/// the measure that shrinks is the pair (unbound variables, combined
/// size).
pub fn unify(st: &mut TypeStore, a: &Type, b: &Type) -> (r: Result<(), TypeError>)
    ensures
        final(st).unbound <= old(st).unbound,
    decreases old(st).unbound, ty_size(*a) + ty_size(*b),
{
    let u0 = st.unbound;
    match (a, b) {
        (Type::Variable(v), Type::Variable(w)) => {
            if *v == *w {
                Ok(())
            } else {
                bind_var(st, *v, b)
            }
        }
        (Type::Variable(v), _) => bind_var(st, *v, b),
        (_, Type::Variable(w)) => bind_var(st, *w, a),
        (Type::Int, Type::Int) => Ok(()),
        (Type::Real, Type::Real) => Ok(()),
        (Type::Char, Type::Char) => Ok(()),
        (Type::Datatype(s1), Type::Datatype(s2)) => {
            if s1 == s2 {
                Ok(())
            } else {
                Err(TypeError::Unify { expected: clone_type(a), actual: clone_type(b) })
            }
        }
        (Type::Fun(a1, a2), Type::Fun(b1, b2)) => {
            proof {
                assert(ty_size(*a) == 1 + ty_size(**a1) + ty_size(**a2));
                assert(ty_size(*b) == 1 + ty_size(**b1) + ty_size(**b2));
            }
            match unify(st, a1, b1) {
                Ok(()) => {
                    if st.unbound == u0 {
                        unify(st, a2, b2)
                    } else {
                        let ra = st.resolve(a2);
                        let rb = st.resolve(b2);
                        unify(st, &ra, &rb)
                    }
                }
                Err(e) => Err(e),
            }
        }
        (Type::Tuple(ta), Type::Tuple(tb)) => {
            if ta.len() != tb.len() {
                return Err(TypeError::Unify { expected: clone_type(a), actual: clone_type(b) });
            }
            let mut j: usize = 0;
            let n = ta.len();
            while j < n
                invariant
                    n == ta@.len(),
                    n == tb@.len(),
                    st.unbound <= u0,
                    u0 == old(st).unbound,
                    *a == Type::Tuple(*ta),
                    *b == Type::Tuple(*tb),
                decreases n - j,
            {
                proof {
                    if 0 <= j < ta@.len() {
                        lemma_tys_size_ge_elem(ta@, 0, j as int);
                        lemma_tys_size_ge_elem(tb@, 0, j as int);
                        assert(ty_size(*a) == 1 + tys_size(ta@, 0));
                        assert(ty_size(*b) == 1 + tys_size(tb@, 0));
                    }
                }
                let res = if st.unbound == u0 {
                    unify(st, &ta[j], &tb[j])
                } else {
                    let ra = st.resolve(&ta[j]);
                    let rb = st.resolve(&tb[j]);
                    unify(st, &ra, &rb)
                };
                match res {
                    Ok(()) => {}
                    Err(e) => {
                        return Err(e);
                    }
                }
                j = j + 1;
            }
            Ok(())
        }
        _ => Err(TypeError::Unify { expected: clone_type(a), actual: clone_type(b) }),
    }
}

/// One constructor as typing elaborated it: its discriminant within
/// its datatype, its argument type, its datatype, and how many
/// constructors that datatype has.
#[derive(PartialEq, Debug)]
pub struct CtorDef {
    pub name: Symbol,
    pub descriminant: u64,
    pub arg_ty: Option<Type>,
    pub dt: Symbol,
    pub nctors: u64,
}

/// The constructors in scope; later declarations shadow earlier ones.
pub struct Ctors {
    pub list: Vec<CtorDef>,
}

impl Ctors {
    pub fn new() -> (r: Ctors)
        ensures
            r.list@.len() == 0,
    {
        Ctors { list: Vec::new() }
    }

    /// The newest constructor of the given name, if any.
    pub fn find(&self, name: &Symbol) -> (r: Option<usize>)
        ensures
            r matches Some(i) ==> {
                &&& i < self.list@.len()
                &&& crate::prim::sym_key(self.list@[i as int].name) == crate::prim::sym_key(*name)
                &&& forall|j: int|
                    i < j < self.list@.len() ==> crate::prim::sym_key(
                        (#[trigger] self.list@[j]).name,
                    ) != crate::prim::sym_key(*name)
            },
            r is None ==> forall|j: int|
                0 <= j < self.list@.len() ==> crate::prim::sym_key((#[trigger] self.list@[j]).name)
                    != crate::prim::sym_key(*name),
    {
        let mut i: usize = self.list.len();
        while i > 0
            invariant
                i <= self.list@.len(),
                forall|j: int|
                    i <= j < self.list@.len() ==> crate::prim::sym_key(
                        (#[trigger] self.list@[j]).name,
                    ) != crate::prim::sym_key(*name),
            decreases i,
        {
            i = i - 1;
            if self.list[i].name == *name {
                return Some(i);
            }
        }
        None
    }

    /// The view of the constructors that the match compiler wants:
    /// the same entries, newest first, so that its first-match lookup
    /// agrees with this environment's newest-first lookup.
    pub fn to_ctor_env(&self) -> (r: CtorEnv)
        ensures
            r.entries@.len() == self.list@.len(),
            forall|x: int|
                0 <= x < r.entries@.len() ==> {
                    let e = #[trigger] r.entries@[x];
                    let src = self.list@[self.list@.len() - 1 - x];
                    &&& e.0 == src.name
                    &&& e.1.descriminant == src.descriminant
                    &&& (e.1.has_arg <==> src.arg_ty is Some)
                    &&& e.1.nctors == src.nctors
                },
    {
        let mut entries: Vec<(Symbol, CtorInfo)> = Vec::new();
        let mut i: usize = self.list.len();
        while i > 0
            invariant
                i <= self.list@.len(),
                entries@.len() == self.list@.len() - i,
                forall|x: int|
                    0 <= x < entries@.len() ==> {
                        let e = #[trigger] entries@[x];
                        let src = self.list@[self.list@.len() - 1 - x];
                        &&& e.0 == src.name
                        &&& e.1.descriminant == src.descriminant
                        &&& (e.1.has_arg <==> src.arg_ty is Some)
                        &&& e.1.nctors == src.nctors
                    },
            decreases i,
        {
            i = i - 1;
            entries.push(
                (
                    self.list[i].name.clone(),
                    CtorInfo {
                        descriminant: self.list[i].descriminant,
                        has_arg: matches!(&self.list[i].arg_ty, Some(_)),
                        nctors: self.list[i].nctors,
                    },
                ),
            );
        }
        CtorEnv { entries }
    }
}

/// A type scheme: the variables a binding is polymorphic in.
pub struct Scheme {
    pub vars: Vec<u64>,
    pub ty: Type,
}

/// The typing environment, searched newest first.
pub struct TyEnv {
    pub entries: Vec<(Symbol, Scheme)>,
}

impl TyEnv {
    pub fn new() -> (r: TyEnv)
        ensures
            r.entries@.len() == 0,
    {
        TyEnv { entries: Vec::new() }
    }

    pub fn push(&mut self, name: Symbol, sch: Scheme)
        ensures
            final(self).entries@ == old(self).entries@.push((name, sch)),
    {
        self.entries.push((name, sch));
    }

    /// The newest binding of the given name, if any.
    pub fn find(&self, name: &Symbol) -> (r: Option<usize>)
        ensures
            r matches Some(i) ==> {
                &&& i < self.entries@.len()
                &&& crate::prim::sym_key(self.entries@[i as int].0) == crate::prim::sym_key(*name)
                &&& forall|j: int|
                    i < j < self.entries@.len() ==> crate::prim::sym_key(
                        (#[trigger] self.entries@[j]).0,
                    ) != crate::prim::sym_key(*name)
            },
            r is None ==> forall|j: int|
                0 <= j < self.entries@.len() ==> crate::prim::sym_key(
                    (#[trigger] self.entries@[j]).0,
                ) != crate::prim::sym_key(*name),
    {
        let mut i: usize = self.entries.len();
        while i > 0
            invariant
                i <= self.entries@.len(),
                forall|j: int|
                    i <= j < self.entries@.len() ==> crate::prim::sym_key(
                        (#[trigger] self.entries@[j]).0,
                    ) != crate::prim::sym_key(*name),
            decreases i,
        {
            i = i - 1;
            if self.entries[i].0 == *name {
                return Some(i);
            }
        }
        None
    }
}

/// A typed binding.
#[derive(PartialEq, Debug)]
pub struct TVal {
    pub rec: bool,
    pub pattern: Pattern,
    pub binders: Vec<(Symbol, Type)>,
    pub ty: Type,
    pub expr: TExpr,
}

/// One arm of a typed case: the (resolved) pattern, the variables it
/// binds with their types, and the arm body.
#[derive(PartialEq, Debug)]
pub struct TArm {
    pub pattern: Pattern,
    pub binders: Vec<(Symbol, Type)>,
    pub body: TExpr,
}

/// A typed core expression: every node carries its type.
#[derive(PartialEq, Debug)]
pub enum TExpr {
    Sym { ty: Type, name: Symbol },
    Lit { ty: Type, value: Literal },
    Con { ty: Type, descriminant: u64, arg: Option<Box<TExpr>> },
    Tuple { tys: Vec<Type>, tuple: Vec<TExpr> },
    App { ty: Type, fun: Box<TExpr>, arg: Box<TExpr> },
    Fn { param_ty: Type, body_ty: Type, param: Symbol, body: Box<TExpr> },
    Binds { ty: Type, binds: Vec<TVal>, ret: Box<TExpr> },
    Case { ty: Type, scrutinee_ty: Type, scrutinee: Box<TExpr>, arms: Vec<TArm> },
    BuiltinCall { ty: Type, fun: BIF, args: Vec<TExpr> },
    ExternCall { ty: Type, module: String, fun: String, args: Vec<TExpr> },
    Proj { ty: Type, index: u64, tuple: Box<TExpr> },
}

/// A whole typed unit.
#[derive(PartialEq, Debug)]
pub struct TAST(pub Vec<TVal>);

/// Is the expression a syntactic value?  The value restriction admits
/// polymorphism only for these.
fn is_value(e: &Expr) -> bool
    decreases *e,
{
    match e {
        Expr::Literal { .. } => true,
        Expr::Symbol { .. } => true,
        Expr::Fn { .. } => true,
        Expr::Constructor { arg, .. } => match arg {
            None => true,
            Some(a) => is_value(a),
        },
        Expr::Tuple { tuple } => are_values(tuple, 0),
        _ => false,
    }
}

fn are_values(es: &Vec<Expr>, j: usize) -> bool
    requires
        j <= es@.len(),
    decreases *es, es@.len() - j,
{
    if j < es.len() {
        is_value(&es[j]) && are_values(es, j + 1)
    } else {
        true
    }
}

/// Collect the unification variables of a type.
fn collect_vars(t: &Type, out: &mut Vec<u64>)
    decreases *t,
{
    match t {
        Type::Variable(v) => {
            let mut seen = false;
            let mut j: usize = 0;
            while j < out.len()
                decreases out@.len() - j,
            {
                if out[j] == *v {
                    seen = true;
                }
                j = j + 1;
            }
            if !seen {
                out.push(*v);
            }
        }
        Type::Tuple(ts) => collect_vars_in(ts, 0, out),
        Type::Fun(a, b) => {
            collect_vars(a, out);
            collect_vars(b, out);
        }
        _ => {}
    }
}

fn collect_vars_in(ts: &Vec<Type>, j: usize, out: &mut Vec<u64>)
    requires
        j <= ts@.len(),
    decreases *ts, ts@.len() - j,
{
    if j < ts.len() {
        collect_vars(&ts[j], out);
        collect_vars_in(ts, j + 1, out);
    }
}

/// Does any binding of the environment mention `v` outside its own
/// quantified variables?
fn env_mentions(env: &TyEnv, v: u64) -> bool {
    let mut i: usize = 0;
    while i < env.entries.len()
        invariant
            i <= env.entries@.len(),
        decreases env.entries@.len() - i,
    {
        let mut quantified = false;
        let mut j: usize = 0;
        let nv = env.entries[i].1.vars.len();
        while j < nv
            invariant
                nv == env.entries@[i as int].1.vars@.len(),
                i < env.entries@.len(),
            decreases nv - j,
        {
            if env.entries[i].1.vars[j] == v {
                quantified = true;
            }
            j = j + 1;
        }
        if !quantified && occurs(v, &env.entries[i].1.ty) {
            return true;
        }
        i = i + 1;
    }
    false
}

/// Generalize a resolved type over the variables the environment does
/// not pin down.
fn generalize(env: &TyEnv, t: Type) -> Scheme {
    let mut vars: Vec<u64> = Vec::new();
    collect_vars(&t, &mut vars);
    let mut keep: Vec<u64> = Vec::new();
    let mut j: usize = 0;
    while j < vars.len()
        decreases vars@.len() - j,
    {
        if !env_mentions(env, vars[j]) {
            keep.push(vars[j]);
        }
        j = j + 1;
    }
    Scheme { vars: keep, ty: t }
}

/// Instantiate a scheme with fresh variables.
fn instantiate(st: &mut TypeStore, sch: &Scheme) -> Type {
    let mut t = clone_type(&sch.ty);
    let mut j: usize = 0;
    while j < sch.vars.len()
        decreases sch.vars@.len() - j,
    {
        let f = st.fresh();
        let fv = Type::Variable(f);
        t = subst_var(&t, sch.vars[j], &fv);
        j = j + 1;
    }
    t
}

/// The unit type.
fn unit_ty() -> Type {
    Type::Tuple(Vec::new())
}

/// The boolean datatype's symbol.
fn bool_sym() -> (r: Symbol)
    ensures
        crate::prim::sym_key(r) == ("bool"@, 0u64),
{
    Symbol { name: String::from_str("bool"), id: 0 }
}

/// Infer a pattern against an expected type.  A lowercase-or-unknown
/// name stays a variable; a name the environment knows as a nullary
/// constructor becomes that constructor, which is the only
/// constructor/variable disambiguation the pipeline does.
fn infer_pattern(st: &mut TypeStore, ctors: &Ctors, p: &Pattern, expected: &Type, binders: &mut Vec<
    (Symbol, Type),
>) -> (r: Result<Pattern, TypeError>)
    decreases *p,
{
    match p {
        Pattern::Constant { value } => {
            match unify(st, &st.resolve(expected), &Type::Int) {
                Ok(()) => Ok(Pattern::Constant { value: *value }),
                Err(e) => Err(e),
            }
        }
        Pattern::Char { value } => {
            match unify(st, &st.resolve(expected), &Type::Char) {
                Ok(()) => Ok(Pattern::Char { value: *value }),
                Err(e) => Err(e),
            }
        }
        Pattern::Wildcard => Ok(Pattern::Wildcard),
        Pattern::Variable { name } => {
            let nullary = match ctors.find(name) {
                Some(i) => matches!(&ctors.list[i].arg_ty, None),
                None => false,
            };
            if nullary {
                let i = match ctors.find(name) {
                    Some(i) => i,
                    None => {
                        return Err(TypeError::UnboundSymbol { name: name.clone() });
                    }
                };
                let dt = Type::Datatype(ctors.list[i].dt.clone());
                match unify(st, &st.resolve(expected), &dt) {
                    Ok(()) => Ok(Pattern::Constructor { name: name.clone(), arg: None }),
                    Err(e) => Err(e),
                }
            } else {
                let mut j: usize = 0;
                while j < binders.len()
                    decreases binders@.len() - j,
                {
                    if binders[j].0 == *name {
                        return Err(TypeError::DuplicateBinding { name: name.clone() });
                    }
                    j = j + 1;
                }
                binders.push((name.clone(), clone_type(expected)));
                Ok(Pattern::Variable { name: name.clone() })
            }
        }
        Pattern::Tuple { tuple } => {
            let mut vars: Vec<Type> = Vec::new();
            let mut j: usize = 0;
            while j < tuple.len()
                invariant
                    j <= tuple@.len(),
                    vars@.len() == j,
                decreases tuple@.len() - j,
            {
                let f = st.fresh();
                vars.push(Type::Variable(f));
                j = j + 1;
            }
            proof {
                assert(vars@.len() == tuple@.len());
            }
            let want = Type::Tuple(clone_types(&vars));
            match unify(st, &st.resolve(expected), &want) {
                Ok(()) => {}
                Err(e) => {
                    return Err(e);
                }
            }
            let mut out: Vec<Pattern> = Vec::new();
            match infer_pats_into(st, ctors, tuple, &vars, 0, binders, &mut out) {
                Ok(()) => Ok(Pattern::Tuple { tuple: out }),
                Err(e) => Err(e),
            }
        }
        Pattern::Constructor { name, arg } => {
            let i = match ctors.find(name) {
                Some(i) => i,
                None => {
                    return Err(TypeError::UnboundSymbol { name: name.clone() });
                }
            };
            let dt = Type::Datatype(ctors.list[i].dt.clone());
            match unify(st, &st.resolve(expected), &dt) {
                Ok(()) => {}
                Err(e) => {
                    return Err(e);
                }
            }
            let arg_ty = match &ctors.list[i].arg_ty {
                Some(t) => Some(clone_type(t)),
                None => None,
            };
            match (arg, arg_ty) {
                (None, None) => Ok(Pattern::Constructor { name: name.clone(), arg: None }),
                (Some(ap), Some(at)) => {
                    match infer_pattern(st, ctors, ap, &at, binders) {
                        Ok(p2) => Ok(
                            Pattern::Constructor { name: name.clone(), arg: Some(Box::new(p2)) },
                        ),
                        Err(e) => Err(e),
                    }
                }
                _ => Err(TypeError::ConstructorArityMismatch),
            }
        }
    }
}

fn infer_pats_into(
    st: &mut TypeStore,
    ctors: &Ctors,
    ps: &Vec<Pattern>,
    tys: &Vec<Type>,
    j: usize,
    binders: &mut Vec<(Symbol, Type)>,
    out: &mut Vec<Pattern>,
) -> (r: Result<(), TypeError>)
    requires
        j <= ps@.len(),
        ps@.len() == tys@.len(),
    decreases *ps, ps@.len() - j,
{
    if j < ps.len() {
        let p2 = match infer_pattern(st, ctors, &ps[j], &tys[j], binders) {
            Ok(p2) => p2,
            Err(e) => {
                return Err(e);
            }
        };
        out.push(p2);
        infer_pats_into(st, ctors, ps, tys, j + 1, binders, out)
    } else {
        Ok(())
    }
}

/// The type a typed node carries, as a specification value.
pub open spec fn spec_ty_of(e: TExpr) -> Type {
    match e {
        TExpr::Sym { ty, .. } => ty,
        TExpr::Lit { ty, .. } => ty,
        TExpr::Con { ty, .. } => ty,
        TExpr::Tuple { tys, .. } => Type::Tuple(tys),
        TExpr::App { ty, .. } => ty,
        TExpr::Fn { param_ty, body_ty, .. } => Type::Fun(Box::new(param_ty), Box::new(body_ty)),
        TExpr::Binds { ty, .. } => ty,
        TExpr::Case { ty, .. } => ty,
        TExpr::BuiltinCall { ty, .. } => ty,
        TExpr::ExternCall { ty, .. } => ty,
        TExpr::Proj { ty, .. } => ty,
    }
}

/// The type stored at a typed node.
pub fn texpr_ty(e: &TExpr) -> (r: Type)
    ensures
        ty_deq(r, spec_ty_of(*e)),
{
    match e {
        TExpr::Sym { ty, .. } => clone_type(ty),
        TExpr::Lit { ty, .. } => clone_type(ty),
        TExpr::Con { ty, .. } => clone_type(ty),
        TExpr::Tuple { tys, .. } => Type::Tuple(clone_types(tys)),
        TExpr::App { ty, .. } => clone_type(ty),
        TExpr::Fn { param_ty, body_ty, .. } => Type::Fun(
            Box::new(clone_type(param_ty)),
            Box::new(clone_type(body_ty)),
        ),
        TExpr::Binds { ty, .. } => clone_type(ty),
        TExpr::Case { ty, .. } => clone_type(ty),
        TExpr::BuiltinCall { ty, .. } => clone_type(ty),
        TExpr::ExternCall { ty, .. } => clone_type(ty),
        TExpr::Proj { ty, .. } => clone_type(ty),
    }
}

/// Infer one core expression.
pub fn infer_expr(
    st: &mut TypeStore,
    env: &mut TyEnv,
    ctors: &mut Ctors,
    e: &Expr,
) -> (r: Result<TExpr, TypeError>)
    requires
        e.is_core(),
    ensures
        e matches Expr::Literal { value } ==> (r matches Ok(t) && t matches TExpr::Lit {
            ty,
            value: v2,
        } && v2 == value && ty == (match value {
            Literal::Int(_) => Type::Int,
            Literal::Real(_) => Type::Real,
            Literal::Char(_) => Type::Char,
        })),
        e matches Expr::BuiltinCall { fun, args } ==> (r matches Ok(t) ==> (t
            matches TExpr::BuiltinCall { ty, fun: f2, args: a2 } && f2 == fun && a2@.len()
            == args@.len() && (match fun {
            BIF::Add => ty == Type::Int,
            BIF::Sub => ty == Type::Int,
            BIF::Mul => ty == Type::Int,
            BIF::Div => ty == Type::Int,
            BIF::Mod => ty == Type::Int,
            _ => ty matches Type::Datatype(s) && crate::prim::sym_key(s) == ("bool"@, 0u64),
        }))),
    decreases *e, 0int,
{
    match e {
        Expr::Literal { value } => {
            let ty = match value {
                Literal::Int(_) => Type::Int,
                Literal::Real(_) => Type::Real,
                Literal::Char(_) => Type::Char,
            };
            Ok(TExpr::Lit { ty, value: *value })
        }
        Expr::Symbol { name } => {
            match env.find(name) {
                None => {
                    // a name the environment does not bind may still be
                    // a nullary constructor; elaboration decides here
                    match ctors.find(name) {
                        Some(ci) => {
                            let nullary = matches!(&ctors.list[ci].arg_ty, None);
                            if nullary {
                                return Ok(
                                    TExpr::Con {
                                        ty: Type::Datatype(ctors.list[ci].dt.clone()),
                                        descriminant: ctors.list[ci].descriminant,
                                        arg: None,
                                    },
                                );
                            }
                        }
                        None => {}
                    }
                    Err(TypeError::UnboundSymbol { name: name.clone() })
                }
                Some(i) => {
                    let sch = Scheme {
                        vars: {
                            let mut vs: Vec<u64> = Vec::new();
                            let mut j: usize = 0;
                            let nv = env.entries[i].1.vars.len();
                            while j < nv
                                invariant
                                    i < env.entries@.len(),
                                    nv == env.entries@[i as int].1.vars@.len(),
                                decreases nv - j,
                            {
                                vs.push(env.entries[i].1.vars[j]);
                                j = j + 1;
                            }
                            vs
                        },
                        ty: clone_type(&env.entries[i].1.ty),
                    };
                    let ty = instantiate(st, &sch);
                    Ok(TExpr::Sym { ty, name: name.clone() })
                }
            }
        }
        Expr::Constructor { name, arg } => {
            let i = match ctors.find(name) {
                Some(i) => i,
                None => {
                    return Err(TypeError::UnboundSymbol { name: name.clone() });
                }
            };
            let dt = Type::Datatype(ctors.list[i].dt.clone());
            let descriminant = ctors.list[i].descriminant;
            let arg_ty = match &ctors.list[i].arg_ty {
                Some(t) => Some(clone_type(t)),
                None => None,
            };
            match (arg, arg_ty) {
                (None, None) => Ok(TExpr::Con { ty: dt, descriminant, arg: None }),
                (Some(ae), Some(at)) => {
                    let ta = match infer_expr(st, env, ctors, ae) {
                        Ok(t) => t,
                        Err(e2) => {
                            return Err(e2);
                        }
                    };
                    match unify(st, &st.resolve(&texpr_ty(&ta)), &st.resolve(&at)) {
                        Ok(()) => Ok(TExpr::Con { ty: dt, descriminant, arg: Some(Box::new(ta)) }),
                        Err(e2) => Err(e2),
                    }
                }
                _ => Err(TypeError::ConstructorArityMismatch),
            }
        }
        Expr::Tuple { tuple } => {
            let mut parts: Vec<TExpr> = Vec::new();
            match infer_exprs_into(st, env, ctors, tuple, 0, &mut parts) {
                Ok(()) => {}
                Err(e2) => {
                    return Err(e2);
                }
            }
            let mut tys: Vec<Type> = Vec::new();
            let mut j: usize = 0;
            while j < parts.len()
                decreases parts@.len() - j,
            {
                tys.push(texpr_ty(&parts[j]));
                j = j + 1;
            }
            Ok(TExpr::Tuple { tys, tuple: parts })
        }
        Expr::App { fun, arg } => {
            let tf = match infer_expr(st, env, ctors, fun) {
                Ok(t) => t,
                Err(e2) => {
                    return Err(e2);
                }
            };
            let ta = match infer_expr(st, env, ctors, arg) {
                Ok(t) => t,
                Err(e2) => {
                    return Err(e2);
                }
            };
            let rv = st.fresh();
            let want = Type::Fun(Box::new(texpr_ty(&ta)), Box::new(Type::Variable(rv)));
            match unify(st, &st.resolve(&texpr_ty(&tf)), &st.resolve(&want)) {
                Ok(()) => Ok(
                    TExpr::App {
                        ty: Type::Variable(rv),
                        fun: Box::new(tf),
                        arg: Box::new(ta),
                    },
                ),
                Err(e2) => Err(e2),
            }
        }
        Expr::Fn { param, body } => {
            let pv = st.fresh();
            let depth = env.entries.len();
            env.push(
                param.clone(),
                Scheme { vars: Vec::new(), ty: Type::Variable(pv) },
            );
            let tb = match infer_expr(st, env, ctors, body) {
                Ok(t) => t,
                Err(e2) => {
                    env.entries.truncate(depth);
                    return Err(e2);
                }
            };
            env.entries.truncate(depth);
            Ok(
                TExpr::Fn {
                    param_ty: Type::Variable(pv),
                    body_ty: texpr_ty(&tb),
                    param: param.clone(),
                    body: Box::new(tb),
                },
            )
        }
        Expr::Let { binds, body } => {
            let depth = env.entries.len();
            let mut tvals: Vec<TVal> = Vec::new();
            match infer_decls_into(st, env, ctors, binds, 0, &mut tvals) {
                Ok(()) => {}
                Err(e2) => {
                    env.entries.truncate(depth);
                    return Err(e2);
                }
            }
            let tb = match infer_expr(st, env, ctors, body) {
                Ok(t) => t,
                Err(e2) => {
                    env.entries.truncate(depth);
                    return Err(e2);
                }
            };
            env.entries.truncate(depth);
            Ok(TExpr::Binds { ty: texpr_ty(&tb), binds: tvals, ret: Box::new(tb) })
        }
        Expr::Case { scrutinee, arms } => {
            let ts = match infer_expr(st, env, ctors, scrutinee) {
                Ok(t) => t,
                Err(e2) => {
                    return Err(e2);
                }
            };
            let rv = st.fresh();
            let sty = texpr_ty(&ts);
            let mut tarms: Vec<TArm> = Vec::new();
            match infer_arms_into(st, env, ctors, arms, 0, &sty, rv, &mut tarms) {
                Ok(()) => {}
                Err(e2) => {
                    return Err(e2);
                }
            }
            Ok(
                TExpr::Case {
                    ty: Type::Variable(rv),
                    scrutinee_ty: sty,
                    scrutinee: Box::new(ts),
                    arms: tarms,
                },
            )
        }
        Expr::BuiltinCall { fun, args } => {
            if args.len() != 2 {
                return Err(TypeError::ArityMismatch);
            }
            let mut parts: Vec<TExpr> = Vec::new();
            match infer_exprs_into(st, env, ctors, args, 0, &mut parts) {
                Ok(()) => {}
                Err(e2) => {
                    return Err(e2);
                }
            }
            let mut j: usize = 0;
            while j < parts.len()
                invariant
                    j <= parts@.len(),
                    parts@.len() == args@.len(),
                    *e matches Expr::BuiltinCall { fun: f4, args: a4 } && f4 == *fun && a4
                        == *args,
                decreases parts@.len() - j,
            {
                match unify(st, &st.resolve(&texpr_ty(&parts[j])), &Type::Int) {
                    Ok(()) => {}
                    Err(e2) => {
                        return Err(e2);
                    }
                }
                j = j + 1;
            }
            let ty = match fun {
                BIF::Add => Type::Int,
                BIF::Sub => Type::Int,
                BIF::Mul => Type::Int,
                BIF::Div => Type::Int,
                BIF::Mod => Type::Int,
                _ => Type::Datatype(bool_sym()),
            };
            Ok(TExpr::BuiltinCall { ty, fun: *fun, args: parts })
        }
        Expr::ExternCall { module, fun, args } => {
            let mut parts: Vec<TExpr> = Vec::new();
            match infer_exprs_into(st, env, ctors, args, 0, &mut parts) {
                Ok(()) => {}
                Err(e2) => {
                    return Err(e2);
                }
            }
            let rv = st.fresh();
            Ok(
                TExpr::ExternCall {
                    ty: Type::Variable(rv),
                    module: module.clone(),
                    fun: fun.clone(),
                    args: parts,
                },
            )
        }
        Expr::Proj { index, tuple } => {
            let tt = match infer_expr(st, env, ctors, tuple) {
                Ok(t) => t,
                Err(e2) => {
                    return Err(e2);
                }
            };
            let rt = st.resolve(&texpr_ty(&tt));
            match rt {
                Type::Tuple(ts) => {
                    if *index < ts.len() as u64 {
                        let ty = clone_type(&ts[*index as usize]);
                        Ok(TExpr::Proj { ty, index: *index, tuple: Box::new(tt) })
                    } else {
                        Err(TypeError::ArityMismatch)
                    }
                }
                other => Err(
                    TypeError::Unify { expected: Type::Tuple(Vec::new()), actual: other },
                ),
            }
        }
        Expr::D(_) => {
            proof {
                assert(false);
            }
            Err(TypeError::ArityMismatch)
        }
    }
}

fn infer_exprs_into(
    st: &mut TypeStore,
    env: &mut TyEnv,
    ctors: &mut Ctors,
    es: &Vec<Expr>,
    j: usize,
    out: &mut Vec<TExpr>,
) -> (r: Result<(), TypeError>)
    requires
        j <= es@.len(),
        forall|i: int| 0 <= i < es@.len() ==> (#[trigger] es@[i]).is_core(),
    ensures
        r is Ok ==> final(out)@.len() == old(out)@.len() + es@.len() - j,
    decreases *es, es@.len() - j,
{
    if j < es.len() {
        let t = match infer_expr(st, env, ctors, &es[j]) {
            Ok(t) => t,
            Err(e) => {
                return Err(e);
            }
        };
        out.push(t);
        infer_exprs_into(st, env, ctors, es, j + 1, out)
    } else {
        Ok(())
    }
}

fn infer_arms_into(
    st: &mut TypeStore,
    env: &mut TyEnv,
    ctors: &mut Ctors,
    arms: &Vec<(Pattern, Expr)>,
    j: usize,
    sty: &Type,
    rv: u64,
    out: &mut Vec<TArm>,
) -> (r: Result<(), TypeError>)
    requires
        j <= arms@.len(),
        forall|i: int| 0 <= i < arms@.len() ==> (#[trigger] arms@[i]).1.is_core(),
    decreases *arms, arms@.len() - j,
{
    if j < arms.len() {
        let mut binders: Vec<(Symbol, Type)> = Vec::new();
        let p2 = match infer_pattern(st, ctors, &arms[j].0, sty, &mut binders) {
            Ok(p2) => p2,
            Err(e) => {
                return Err(e);
            }
        };
        let depth = env.entries.len();
        let mut b: usize = 0;
        while b < binders.len()
            decreases binders@.len() - b,
        {
            env.push(
                binders[b].0.clone(),
                Scheme { vars: Vec::new(), ty: clone_type(&binders[b].1) },
            );
            b = b + 1;
        }
        let tb = match infer_expr(st, env, ctors, &arms[j].1) {
            Ok(t) => t,
            Err(e) => {
                env.entries.truncate(depth);
                return Err(e);
            }
        };
        env.entries.truncate(depth);
        match unify(st, &st.resolve(&texpr_ty(&tb)), &st.resolve(&Type::Variable(rv))) {
            Ok(()) => {}
            Err(e) => {
                return Err(e);
            }
        }
        out.push(TArm { pattern: p2, binders, body: tb });
        infer_arms_into(st, env, ctors, arms, j + 1, sty, rv, out)
    } else {
        Ok(())
    }
}

/// Infer one binding and leave its binders in scope for what follows.
/// Generalization follows the value restriction.
fn infer_val(
    st: &mut TypeStore,
    env: &mut TyEnv,
    ctors: &mut Ctors,
    rec: bool,
    pattern: &Pattern,
    expr: &Expr,
) -> (r: Result<TVal, TypeError>)
    requires
        expr.is_core(),
    decreases *expr, 1int,
{
    let pv = st.fresh();
    let pvt = Type::Variable(pv);
    let mut binders: Vec<(Symbol, Type)> = Vec::new();
    let p2 = match infer_pattern(st, ctors, pattern, &pvt, &mut binders) {
        Ok(p2) => p2,
        Err(e) => {
            return Err(e);
        }
    };
    if rec {
        let mut b: usize = 0;
        while b < binders.len()
            decreases binders@.len() - b,
        {
            env.push(
                binders[b].0.clone(),
                Scheme { vars: Vec::new(), ty: clone_type(&binders[b].1) },
            );
            b = b + 1;
        }
    }
    let te = match infer_expr(st, env, ctors, expr) {
        Ok(t) => t,
        Err(e) => {
            return Err(e);
        }
    };
    match unify(st, &st.resolve(&pvt), &st.resolve(&texpr_ty(&te))) {
        Ok(()) => {}
        Err(e) => {
            return Err(e);
        }
    }
    // rebind the pattern's names, generalized where the value
    // restriction allows
    if rec {
        let mut back: usize = binders.len();
        let cur = env.entries.len();
        if back <= cur {
            env.entries.truncate(cur - back);
        }
    }
    let val = is_value(expr);
    let mut b: usize = 0;
    while b < binders.len()
        decreases binders@.len() - b,
    {
        let rt = st.resolve(&binders[b].1);
        let sch = if val {
            generalize(env, rt)
        } else {
            Scheme { vars: Vec::new(), ty: rt }
        };
        env.push(binders[b].0.clone(), sch);
        b = b + 1;
    }
    Ok(
        TVal {
            rec,
            pattern: p2,
            binders,
            ty: st.resolve(&texpr_ty(&te)),
            expr: te,
        },
    )
}

/// Register a datatype: its constructors get dense discriminants,
/// starting at 0, in declaration order.  Two constructors of one
/// declaration may not share a name; a refused declaration leaves the
/// environment untouched.
pub fn elaborate_datatype(
    ctors: &mut Ctors,
    name: &Symbol,
    constructors: &Vec<(Symbol, Option<Type>)>,
) -> (r: Result<(), TypeError>)
    ensures
        r is Err <==> exists|i: int, j: int|
            0 <= i < j < constructors@.len() && crate::prim::sym_key((#[trigger] constructors@[i]).0)
                == crate::prim::sym_key((#[trigger] constructors@[j]).0),
        r is Err ==> *final(ctors) == *old(ctors),
        r is Ok ==> {
            &&& final(ctors).list@.len() == old(ctors).list@.len() + constructors@.len()
            &&& forall|k: int| 0 <= k < old(ctors).list@.len() ==> final(ctors).list@[k] == old(
                ctors,
            ).list@[k]
            &&& forall|k: int|
                old(ctors).list@.len() <= k < final(ctors).list@.len() ==> {
                    let e = #[trigger] final(ctors).list@[k];
                    let src = constructors@[k - old(ctors).list@.len()];
                    &&& e.descriminant == k - old(ctors).list@.len()
                    &&& e.name == src.0
                    &&& (e.arg_ty is Some <==> src.1 is Some)
                    &&& e.dt == *name
                    &&& e.nctors == constructors@.len()
                }
        },
{
    // first pass: refuse duplicate constructor names
    let mut a: usize = 0;
    while a < constructors.len()
        invariant
            a <= constructors@.len(),
            forall|i: int, j: int|
                0 <= i < j < a ==> crate::prim::sym_key((#[trigger] constructors@[i]).0)
                    != crate::prim::sym_key((#[trigger] constructors@[j]).0),
        decreases constructors@.len() - a,
    {
        let mut j: usize = 0;
        while j < a
            invariant
                j <= a,
                a < constructors@.len(),
                forall|x: int|
                    0 <= x < j ==> crate::prim::sym_key((#[trigger] constructors@[x]).0)
                        != crate::prim::sym_key(constructors@[a as int].0),
            decreases a - j,
        {
            if constructors[j].0 == constructors[a].0 {
                proof {
                    assert(crate::prim::sym_key(constructors@[j as int].0) == crate::prim::sym_key(
                        constructors@[a as int].0,
                    ));
                }
                return Err(TypeError::DuplicateBinding { name: constructors[a].0.clone() });
            }
            j = j + 1;
        }
        a = a + 1;
    }
    // second pass: enter the constructors with dense discriminants
    let base = ctors.list.len();
    let mut i: usize = 0;
    while i < constructors.len()
        invariant
            i <= constructors@.len(),
            base == old(ctors).list@.len(),
            ctors.list@.len() == base + i,
            forall|k: int| 0 <= k < base ==> ctors.list@[k] == old(ctors).list@[k],
            forall|k: int|
                base <= k < ctors.list@.len() ==> {
                    let e = #[trigger] ctors.list@[k];
                    let src = constructors@[k - base];
                    &&& e.descriminant == k - base
                    &&& e.name == src.0
                    &&& (e.arg_ty is Some <==> src.1 is Some)
                    &&& e.dt == *name
                    &&& e.nctors == constructors@.len()
                },
        decreases constructors@.len() - i,
    {
        let arg_ty = match &constructors[i].1 {
            Some(t) => Some(clone_type(t)),
            None => None,
        };
        ctors.list.push(
            CtorDef {
                name: constructors[i].0.clone(),
                descriminant: i as u64,
                arg_ty,
                dt: name.clone(),
                nctors: constructors.len() as u64,
            },
        );
        i = i + 1;
    }
    Ok(())
}

fn infer_decls_into(
    st: &mut TypeStore,
    env: &mut TyEnv,
    ctors: &mut Ctors,
    ds: &Vec<Declaration>,
    j: usize,
    out: &mut Vec<TVal>,
) -> (r: Result<(), TypeError>)
    requires
        j <= ds@.len(),
        forall|i: int| 0 <= i < ds@.len() ==> (#[trigger] ds@[i]).is_core(),
    decreases *ds, ds@.len() - j,
{
    if j < ds.len() {
        match &ds[j] {
            Declaration::Val { rec, pattern, expr } => {
                let tv = match infer_val(st, env, ctors, *rec, pattern, expr) {
                    Ok(tv) => tv,
                    Err(e) => {
                        return Err(e);
                    }
                };
                out.push(tv);
            }
            Declaration::Datatype { name, constructors } => {
                match elaborate_datatype(ctors, name, constructors) {
                    Ok(()) => {}
                    Err(e) => {
                        return Err(e);
                    }
                }
            }
            Declaration::D(_) => {
                proof {
                    assert(false);
                }
            }
        }
        infer_decls_into(st, env, ctors, ds, j + 1, out)
    } else {
        Ok(())
    }
}

/// Ground every type annotation of a typed expression.
fn zonk_expr(st: &TypeStore, e: &TExpr) -> (r: TExpr)
    decreases *e,
{
    match e {
        TExpr::Sym { ty, name } => TExpr::Sym { ty: st.ground(ty), name: name.clone() },
        TExpr::Lit { ty, value } => TExpr::Lit { ty: st.ground(ty), value: *value },
        TExpr::Con { ty, descriminant, arg } => TExpr::Con {
            ty: st.ground(ty),
            descriminant: *descriminant,
            arg: match arg {
                Some(a) => Some(Box::new(zonk_expr(st, a))),
                None => None,
            },
        },
        TExpr::Tuple { tys, tuple } => {
            let mut ntys: Vec<Type> = Vec::new();
            let mut j: usize = 0;
            while j < tys.len()
                decreases tys@.len() - j,
            {
                ntys.push(st.ground(&tys[j]));
                j = j + 1;
            }
            let mut nt: Vec<TExpr> = Vec::new();
            zonk_exprs_into(st, tuple, 0, &mut nt);
            TExpr::Tuple { tys: ntys, tuple: nt }
        }
        TExpr::App { ty, fun, arg } => TExpr::App {
            ty: st.ground(ty),
            fun: Box::new(zonk_expr(st, fun)),
            arg: Box::new(zonk_expr(st, arg)),
        },
        TExpr::Fn { param_ty, body_ty, param, body } => TExpr::Fn {
            param_ty: st.ground(param_ty),
            body_ty: st.ground(body_ty),
            param: param.clone(),
            body: Box::new(zonk_expr(st, body)),
        },
        TExpr::Binds { ty, binds, ret } => {
            let mut nb: Vec<TVal> = Vec::new();
            zonk_vals_into(st, binds, 0, &mut nb);
            TExpr::Binds { ty: st.ground(ty), binds: nb, ret: Box::new(zonk_expr(st, ret)) }
        }
        TExpr::Case { ty, scrutinee_ty, scrutinee, arms } => {
            let mut na: Vec<TArm> = Vec::new();
            zonk_arms_into(st, arms, 0, &mut na);
            TExpr::Case {
                ty: st.ground(ty),
                scrutinee_ty: st.ground(scrutinee_ty),
                scrutinee: Box::new(zonk_expr(st, scrutinee)),
                arms: na,
            }
        }
        TExpr::BuiltinCall { ty, fun, args } => {
            let mut na: Vec<TExpr> = Vec::new();
            zonk_exprs_into(st, args, 0, &mut na);
            TExpr::BuiltinCall { ty: st.ground(ty), fun: *fun, args: na }
        }
        TExpr::ExternCall { ty, module, fun, args } => {
            let mut na: Vec<TExpr> = Vec::new();
            zonk_exprs_into(st, args, 0, &mut na);
            TExpr::ExternCall {
                ty: st.ground(ty),
                module: module.clone(),
                fun: fun.clone(),
                args: na,
            }
        }
        TExpr::Proj { ty, index, tuple } => TExpr::Proj {
            ty: st.ground(ty),
            index: *index,
            tuple: Box::new(zonk_expr(st, tuple)),
        },
    }
}

fn zonk_exprs_into(st: &TypeStore, es: &Vec<TExpr>, j: usize, out: &mut Vec<TExpr>)
    requires
        j <= es@.len(),
    decreases *es, es@.len() - j,
{
    if j < es.len() {
        let z = zonk_expr(st, &es[j]);
        out.push(z);
        zonk_exprs_into(st, es, j + 1, out);
    }
}

fn zonk_arms_into(st: &TypeStore, arms: &Vec<TArm>, j: usize, out: &mut Vec<TArm>)
    requires
        j <= arms@.len(),
    decreases *arms, arms@.len() - j,
{
    if j < arms.len() {
        let mut nb: Vec<(Symbol, Type)> = Vec::new();
        let mut b: usize = 0;
        let arm = &arms[j];
        while b < arm.binders.len()
            decreases arm.binders@.len() - b,
        {
            nb.push((arm.binders[b].0.clone(), st.ground(&arm.binders[b].1)));
            b = b + 1;
        }
        let body = zonk_expr(st, &arm.body);
        out.push(TArm { pattern: clone_src_pattern(&arm.pattern), binders: nb, body });
        zonk_arms_into(st, arms, j + 1, out);
    }
}

fn zonk_vals_into(st: &TypeStore, vs: &Vec<TVal>, j: usize, out: &mut Vec<TVal>)
    requires
        j <= vs@.len(),
    decreases *vs, vs@.len() - j,
{
    if j < vs.len() {
        let z = zonk_val(st, &vs[j]);
        out.push(z);
        zonk_vals_into(st, vs, j + 1, out);
    }
}

/// Ground every type annotation of a typed binding: what leaves
/// inference carries no unification variable.
pub fn zonk_val(st: &TypeStore, v: &TVal) -> (r: TVal)
    ensures
        ty_resolved(r.ty),
        r.rec == v.rec,
        r.binders@.len() == v.binders@.len(),
        forall|i: int| 0 <= i < r.binders@.len() ==> ty_resolved((#[trigger] r.binders@[i]).1),
        forall|i: int| 0 <= i < r.binders@.len() ==> (#[trigger] r.binders@[i]).0 == v.binders@[i].0,
    decreases *v,
{
    let mut nb: Vec<(Symbol, Type)> = Vec::new();
    let mut b: usize = 0;
    while b < v.binders.len()
        invariant
            b <= v.binders@.len(),
            nb@.len() == b,
            forall|i: int| 0 <= i < nb@.len() ==> ty_resolved((#[trigger] nb@[i]).1),
            forall|i: int| 0 <= i < nb@.len() ==> (#[trigger] nb@[i]).0 == v.binders@[i].0,
        decreases v.binders@.len() - b,
    {
        nb.push((v.binders[b].0.clone(), st.ground(&v.binders[b].1)));
        b = b + 1;
    }
    TVal {
        rec: v.rec,
        pattern: clone_src_pattern(&v.pattern),
        binders: nb,
        ty: st.ground(&v.ty),
        expr: zonk_expr(st, &v.expr),
    }
}

/// A deep copy of a source pattern.
fn clone_src_pattern(p: &Pattern) -> (r: Pattern)
    decreases *p,
{
    match p {
        Pattern::Constant { value } => Pattern::Constant { value: *value },
        Pattern::Char { value } => Pattern::Char { value: *value },
        Pattern::Variable { name } => Pattern::Variable { name: name.clone() },
        Pattern::Wildcard => Pattern::Wildcard,
        Pattern::Tuple { tuple } => {
            let mut out: Vec<Pattern> = Vec::new();
            clone_src_pats_into(tuple, 0, &mut out);
            Pattern::Tuple { tuple: out }
        }
        Pattern::Constructor { name, arg } => Pattern::Constructor {
            name: name.clone(),
            arg: match arg {
                Some(a) => Some(Box::new(clone_src_pattern(a))),
                None => None,
            },
        },
    }
}

fn clone_src_pats_into(ps: &Vec<Pattern>, j: usize, out: &mut Vec<Pattern>)
    requires
        j <= ps@.len(),
    decreases *ps, ps@.len() - j,
{
    if j < ps.len() {
        let c = clone_src_pattern(&ps[j]);
        out.push(c);
        clone_src_pats_into(ps, j + 1, out);
    }
}

fn int_pair_to(res: Type) -> Type {
    let mut ps: Vec<Type> = Vec::new();
    ps.push(Type::Int);
    ps.push(Type::Int);
    Type::Fun(Box::new(Type::Tuple(ps)), Box::new(res))
}

/// The environment a compilation starts from: the five integer
/// operators, the six comparison operators, and the boolean datatype
/// with `false` at discriminant 0 and `true` at 1.
pub fn initial_env() -> (r: (TyEnv, Ctors))
    ensures
        r.0.entries@.len() == 11,
        r.1.list@.len() == 2,
        crate::prim::sym_key(r.1.list@[0].name) == ("false"@, 0u64),
        crate::prim::sym_key(r.1.list@[1].name) == ("true"@, 0u64),
        r.1.list@[0].descriminant == 0 && r.1.list@[1].descriminant == 1,
        r.1.list@[0].arg_ty is None && r.1.list@[1].arg_ty is None,
        r.1.list@[0].nctors == 2 && r.1.list@[1].nctors == 2,
{
    let mut env = TyEnv::new();
    let mut names: Vec<&str> = Vec::new();
    names.push("+");
    names.push("-");
    names.push("*");
    names.push("div");
    names.push("mod");
    let mut i: usize = 0;
    while i < names.len()
        invariant
            i <= names@.len(),
            names@.len() == 5,
            env.entries@.len() == i,
        decreases names@.len() - i,
    {
        env.push(
            Symbol { name: String::from_str(names[i]), id: 0 },
            Scheme { vars: Vec::new(), ty: int_pair_to(Type::Int) },
        );
        i = i + 1;
    }
    let mut cmps: Vec<&str> = Vec::new();
    cmps.push("=");
    cmps.push("<>");
    cmps.push("<");
    cmps.push(">");
    cmps.push("<=");
    cmps.push(">=");
    let mut j: usize = 0;
    while j < cmps.len()
        invariant
            j <= cmps@.len(),
            cmps@.len() == 6,
            env.entries@.len() == 5 + j,
        decreases cmps@.len() - j,
    {
        env.push(
            Symbol { name: String::from_str(cmps[j]), id: 0 },
            Scheme { vars: Vec::new(), ty: int_pair_to(Type::Datatype(bool_sym())) },
        );
        j = j + 1;
    }
    let mut ctors = Ctors::new();
    ctors.list.push(
        CtorDef {
            name: Symbol { name: String::from_str("false"), id: 0 },
            descriminant: 0,
            arg_ty: None,
            dt: bool_sym(),
            nctors: 2,
        },
    );
    ctors.list.push(
        CtorDef {
            name: Symbol { name: String::from_str("true"), id: 0 },
            descriminant: 1,
            arg_ty: None,
            dt: bool_sym(),
            nctors: 2,
        },
    );
    (env, ctors)
}

/// How many `val` declarations a unit holds.
pub open spec fn n_vals(ds: Seq<Declaration>) -> nat
    decreases ds.len(),
{
    if ds.len() == 0 {
        0
    } else {
        n_vals(ds.drop_last()) + (if ds.last() matches Declaration::Val { .. } {
            1nat
        } else {
            0
        })
    }
}

proof fn lemma_n_vals_take_step(ds: Seq<Declaration>, i: int)
    requires
        0 <= i < ds.len(),
    ensures
        n_vals(ds.take(i + 1)) == n_vals(ds.take(i)) + (if ds[i] matches Declaration::Val { .. } {
            1nat
        } else {
            0
        }),
{
    assert(ds.take(i + 1).drop_last() =~= ds.take(i));
    assert(ds.take(i + 1).last() == ds[i]);
}

/// Infer a whole core unit.  The first hard error of one declaration
/// abandons that declaration; the compiler goes on with the next.
/// Every binding that comes out is grounded: no unification variable
/// survives inference.
pub fn infer_ast(ast: &AST) -> (r: (TAST, Ctors, Vec<TypeError>))
    requires
        ast.is_core(),
    ensures
        forall|i: int| 0 <= i < r.0.0@.len() ==> ty_resolved((#[trigger] r.0.0@[i]).ty),
        r.0.0@.len() + r.2@.len() >= n_vals(ast.0@),
        r.0.0@.len() <= n_vals(ast.0@),
{
    let mut st = TypeStore::new();
    let (mut env, mut ctors) = initial_env();
    let mut out: Vec<TVal> = Vec::new();
    let mut errors: Vec<TypeError> = Vec::new();
    let mut i: usize = 0;
    while i < ast.0.len()
        invariant
            i <= ast.0@.len(),
            forall|k: int| 0 <= k < ast.0@.len() ==> (#[trigger] ast.0@[k]).is_core(),
            forall|k: int| 0 <= k < out@.len() ==> ty_resolved((#[trigger] out@[k]).ty),
            out@.len() + errors@.len() >= n_vals(ast.0@.take(i as int)),
            out@.len() <= n_vals(ast.0@.take(i as int)),
        decreases ast.0@.len() - i,
    {
        proof {
            lemma_n_vals_take_step(ast.0@, i as int);
        }
        match &ast.0[i] {
            Declaration::Val { rec, pattern, expr } => {
                match infer_val(&mut st, &mut env, &mut ctors, *rec, pattern, expr) {
                    Ok(tv) => {
                        let z = zonk_val(&st, &tv);
                        out.push(z);
                    }
                    Err(e) => {
                        errors.push(e);
                    }
                }
            }
            Declaration::Datatype { name, constructors } => {
                match elaborate_datatype(&mut ctors, name, constructors) {
                    Ok(()) => {}
                    Err(e) => {
                        errors.push(e);
                    }
                }
            }
            Declaration::D(_) => {
                proof {
                    assert(false);
                }
            }
        }
        i = i + 1;
    }
    proof {
        assert(ast.0@.take(ast.0@.len() as int) =~= ast.0@);
    }
    (TAST(out), ctors, errors)
}

} // verus!
