use vstd::prelude::*;

use crate::ast::Pattern;
use crate::prim::{sym_key, InternalError, Symbol};

verus! {

/// A warning the compiler surfaces beside its result.
#[derive(PartialEq, Eq, Structural, Clone, Copy, Debug)]
pub enum Warn {
    /// The compiled tree can reach `Fail`.
    NonExhaustive,
    /// No path reaches the given source arm.
    RedundantArm { index: usize },
    /// A binding is never referenced.  The taxonomy reserves it; no
    /// stage tracks binding uses yet, so nothing raises it so far.
    UnusedBinding,
}

/// A scrutinee path: the projections that lead from the root
/// scrutinee to the value under test.  A step is a tuple index, or 0
/// for the argument of a constructor.
#[derive(PartialEq, Debug)]
pub struct Occ {
    pub path: Vec<u64>,
}

impl Occ {
    /// The root scrutinee itself.
    pub fn root() -> (r: Occ)
        ensures
            r.path@.len() == 0,
    {
        Occ { path: Vec::new() }
    }

    /// A copy of this path.
    pub fn dup(&self) -> (r: Occ)
        ensures
            r.path@ == self.path@,
    {
        let mut p: Vec<u64> = Vec::new();
        let mut i: usize = 0;
        while i < self.path.len()
            invariant
                i <= self.path@.len(),
                p@ == self.path@.subrange(0, i as int),
            decreases self.path@.len() - i,
        {
            p.push(self.path[i]);
            proof {
                assert(p@ =~= self.path@.subrange(0, i + 1));
            }
            i = i + 1;
        }
        proof {
            assert(p@ =~= self.path@);
        }
        Occ { path: p }
    }

    /// The path one projection deeper.
    pub fn child(&self, step: u64) -> (r: Occ)
        ensures
            r.path@ == self.path@.push(step),
    {
        let mut r = self.dup();
        r.path.push(step);
        r
    }
}

/// A decision tree: internal nodes are primitive tests on a scrutinee
/// path, leaves are arm indices or `Fail`.
#[derive(PartialEq, Debug)]
pub enum DecisionTree {
    /// Run the given source arm.
    Leaf { arm: usize },
    /// Bind a source variable to the value at a path, then continue.
    Bind { name: Symbol, scrut: Occ, rest: Box<DecisionTree> },
    /// Break a tuple at a path into its components, then continue.
    Decompose { scrut: Occ, width: usize, rest: Box<DecisionTree> },
    /// Test an integer at a path against each constant.
    SwitchInt { scrut: Occ, cases: Vec<(i64, DecisionTree)>, default: Box<DecisionTree> },
    /// Test a character at a path against each constant.
    SwitchChar { scrut: Occ, cases: Vec<(u32, DecisionTree)>, default: Box<DecisionTree> },
    /// Test a constructor discriminant at a path; no default when the
    /// heads cover the whole datatype.
    SwitchCtor { scrut: Occ, cases: Vec<(u64, DecisionTree)>, default: Option<Box<DecisionTree>> },
    /// No source arm covers this combination.
    Fail,
}

/// Every leaf of the tree names an arm below `n`.
pub open spec fn arms_in_range(t: DecisionTree, n: nat) -> bool
    decreases t,
{
    match t {
        DecisionTree::Leaf { arm } => (arm as nat) < n,
        DecisionTree::Bind { rest, .. } => arms_in_range(*rest, n),
        DecisionTree::Decompose { rest, .. } => arms_in_range(*rest, n),
        DecisionTree::SwitchInt { cases, default, .. } => (forall|i: int|
            0 <= i < cases@.len() ==> arms_in_range((#[trigger] cases@[i]).1, n))
            && arms_in_range(*default, n),
        DecisionTree::SwitchChar { cases, default, .. } => (forall|i: int|
            0 <= i < cases@.len() ==> arms_in_range((#[trigger] cases@[i]).1, n))
            && arms_in_range(*default, n),
        DecisionTree::SwitchCtor { cases, default, .. } => (forall|i: int|
            0 <= i < cases@.len() ==> arms_in_range((#[trigger] cases@[i]).1, n)) && (match default {
            Some(d) => arms_in_range(*d, n),
            None => true,
        }),
        DecisionTree::Fail => true,
    }
}

/// The tree holds a `Fail` node somewhere.
pub open spec fn has_fail(t: DecisionTree) -> bool
    decreases t,
{
    match t {
        DecisionTree::Leaf { .. } => false,
        DecisionTree::Bind { rest, .. } => has_fail(*rest),
        DecisionTree::Decompose { rest, .. } => has_fail(*rest),
        DecisionTree::SwitchInt { cases, default, .. } => (exists|i: int|
            0 <= i < cases@.len() && has_fail((#[trigger] cases@[i]).1)) || has_fail(*default),
        DecisionTree::SwitchChar { cases, default, .. } => (exists|i: int|
            0 <= i < cases@.len() && has_fail((#[trigger] cases@[i]).1)) || has_fail(*default),
        DecisionTree::SwitchCtor { cases, default, .. } => (exists|i: int|
            0 <= i < cases@.len() && has_fail((#[trigger] cases@[i]).1)) || (match default {
            Some(d) => has_fail(*d),
            None => false,
        }),
        DecisionTree::Fail => true,
    }
}

/// The tree holds a leaf for the given source arm.
pub open spec fn tree_uses_arm(t: DecisionTree, a: int) -> bool
    decreases t,
{
    match t {
        DecisionTree::Leaf { arm } => arm as int == a,
        DecisionTree::Bind { rest, .. } => tree_uses_arm(*rest, a),
        DecisionTree::Decompose { rest, .. } => tree_uses_arm(*rest, a),
        DecisionTree::SwitchInt { cases, default, .. } => (exists|i: int|
            0 <= i < cases@.len() && tree_uses_arm((#[trigger] cases@[i]).1, a)) || tree_uses_arm(
            *default,
            a,
        ),
        DecisionTree::SwitchChar { cases, default, .. } => (exists|i: int|
            0 <= i < cases@.len() && tree_uses_arm((#[trigger] cases@[i]).1, a)) || tree_uses_arm(
            *default,
            a,
        ),
        DecisionTree::SwitchCtor { cases, default, .. } => (exists|i: int|
            0 <= i < cases@.len() && tree_uses_arm((#[trigger] cases@[i]).1, a)) || (match default {
            Some(d) => tree_uses_arm(*d, a),
            None => false,
        }),
        DecisionTree::Fail => false,
    }
}

/// What one constructor contributes to matching: its discriminant,
/// whether it carries an argument, and how many constructors its
/// datatype has in all.
#[derive(PartialEq, Eq, Structural, Clone, Copy, Debug)]
pub struct CtorInfo {
    pub descriminant: u64,
    pub has_arg: bool,
    pub nctors: u64,
}

/// The constructors in scope, as typing elaborated them.
pub struct CtorEnv {
    pub entries: Vec<(Symbol, CtorInfo)>,
}

/// The info the environment gives a constructor name: first entry
/// wins.
pub open spec fn spec_ctor(entries: Seq<(Symbol, CtorInfo)>, k: (Seq<char>, u64)) -> Option<
    CtorInfo,
>
    decreases entries.len(),
{
    if entries.len() == 0 {
        None
    } else if sym_key(entries.first().0) == k {
        Some(entries.first().1)
    } else {
        spec_ctor(entries.drop_first(), k)
    }
}

impl CtorEnv {
    pub fn new() -> (r: CtorEnv)
        ensures
            r.entries@.len() == 0,
    {
        CtorEnv { entries: Vec::new() }
    }

    /// The info for a constructor name, if declared.
    pub fn lookup(&self, name: &Symbol) -> (r: Option<CtorInfo>)
        ensures
            r == spec_ctor(self.entries@, sym_key(*name)),
    {
        let mut i: usize = 0;
        proof {
            assert(self.entries@.skip(0) =~= self.entries@);
        }
        while i < self.entries.len()
            invariant
                i <= self.entries@.len(),
                spec_ctor(self.entries@, sym_key(*name)) == spec_ctor(
                    self.entries@.skip(i as int),
                    sym_key(*name),
                ),
            decreases self.entries@.len() - i,
        {
            proof {
                assert(self.entries@.skip(i as int).first() == self.entries@[i as int]);
                assert(self.entries@.skip(i as int).drop_first() =~= self.entries@.skip(i + 1));
            }
            if self.entries[i].0 == *name {
                return Some(self.entries[i].1);
            }
            i = i + 1;
        }
        None
    }
}

/// Weight of a pattern: its non-wildcard, non-variable nodes.  The
/// matrix algorithm strictly shrinks the total weight at every step.
pub open spec fn pat_w(p: Pattern) -> nat
    decreases p,
{
    match p {
        Pattern::Constant { .. } => 1,
        Pattern::Char { .. } => 1,
        Pattern::Variable { .. } => 0,
        Pattern::Wildcard => 0,
        Pattern::Tuple { tuple } => 1 + pats_w_list(tuple),
        Pattern::Constructor { arg, .. } => match arg {
            None => 1,
            Some(a) => 1 + pat_w(*a),
        },
    }
}

/// Total weight of a pattern vector.
pub open spec fn pats_w_list(ps: Vec<Pattern>) -> nat
    decreases ps,
{
    pats_w(ps@)
}

/// Total weight of a pattern sequence.
pub open spec fn pats_w(s: Seq<Pattern>) -> nat
    decreases s, s.len() + 1,
{
    pats_w_from(s, 0)
}

/// Total weight of a pattern sequence from position `i` on.
pub open spec fn pats_w_from(s: Seq<Pattern>, i: int) -> nat
    decreases s, s.len() - i,
{
    if i < 0 || i >= s.len() {
        0
    } else {
        pat_w(s[i]) + pats_w_from(s, i + 1)
    }
}

/// A pattern is wildcard-like: it constrains nothing.
pub open spec fn is_wild(p: Pattern) -> bool {
    match p {
        Pattern::Variable { .. } => true,
        Pattern::Wildcard => true,
        _ => false,
    }
}

proof fn lemma_pats_w_from_push(s: Seq<Pattern>, p: Pattern, i: int)
    requires
        0 <= i <= s.len(),
    ensures
        pats_w_from(s.push(p), i) == pats_w_from(s, i) + pat_w(p),
    decreases s.len() - i,
{
    if i == s.len() {
        assert(s.push(p)[i] == p);
        assert(pats_w_from(s.push(p), i) == pat_w(p) + pats_w_from(s.push(p), i + 1));
        assert(pats_w_from(s.push(p), i + 1) == 0);
        assert(pats_w_from(s, i) == 0);
    } else {
        assert(s.push(p)[i] == s[i]);
        lemma_pats_w_from_push(s, p, i + 1);
        assert(pats_w_from(s.push(p), i) == pat_w(s[i]) + pats_w_from(s.push(p), i + 1));
        assert(pats_w_from(s, i) == pat_w(s[i]) + pats_w_from(s, i + 1));
    }
}

proof fn lemma_pats_w_push(s: Seq<Pattern>, p: Pattern)
    ensures
        pats_w(s.push(p)) == pats_w(s) + pat_w(p),
{
    lemma_pats_w_from_push(s, p, 0);
}

proof fn lemma_pats_w_take_step(s: Seq<Pattern>, i: int)
    requires
        0 <= i < s.len(),
    ensures
        pats_w(s.take(i + 1)) == pats_w(s.take(i)) + pat_w(s[i]),
{
    assert(s.take(i + 1) =~= s.take(i).push(s[i]));
    lemma_pats_w_push(s.take(i), s[i]);
}

proof fn lemma_pats_w_whole(s: Seq<Pattern>)
    ensures
        pats_w(s.take(s.len() as int)) == pats_w(s),
{
    assert(s.take(s.len() as int) =~= s);
}

/// One row of the match matrix: parallel patterns, the variable
/// bindings collected so far, and the source arm the row stands for.
pub struct Row {
    pub pats: Vec<Pattern>,
    pub binds: Vec<(Symbol, Occ)>,
    pub arm: usize,
}

/// Weight of a row.
pub open spec fn row_w(r: Row) -> nat {
    pats_w(r.pats@)
}

/// Total weight of a sequence of rows from position `i` on.
pub open spec fn rows_w_from(s: Seq<Row>, i: int) -> nat
    decreases s.len() - i,
{
    if i < 0 || i >= s.len() {
        0
    } else {
        row_w(s[i]) + rows_w_from(s, i + 1)
    }
}

/// Total weight of the matrix.
pub open spec fn rows_w(s: Seq<Row>) -> nat {
    rows_w_from(s, 0)
}

proof fn lemma_rows_w_from_push(s: Seq<Row>, r: Row, i: int)
    requires
        0 <= i <= s.len(),
    ensures
        rows_w_from(s.push(r), i) == rows_w_from(s, i) + row_w(r),
    decreases s.len() - i,
{
    if i == s.len() {
        assert(s.push(r)[i] == r);
        assert(rows_w_from(s.push(r), i) == row_w(r) + rows_w_from(s.push(r), i + 1));
        assert(rows_w_from(s.push(r), i + 1) == 0);
        assert(rows_w_from(s, i) == 0);
    } else {
        assert(s.push(r)[i] == s[i]);
        lemma_rows_w_from_push(s, r, i + 1);
        assert(rows_w_from(s.push(r), i) == row_w(s[i]) + rows_w_from(s.push(r), i + 1));
        assert(rows_w_from(s, i) == row_w(s[i]) + rows_w_from(s, i + 1));
    }
}

proof fn lemma_rows_w_push(s: Seq<Row>, r: Row)
    ensures
        rows_w(s.push(r)) == rows_w(s) + row_w(r),
{
    lemma_rows_w_from_push(s, r, 0);
}

proof fn lemma_rows_w_take_step(s: Seq<Row>, i: int)
    requires
        0 <= i < s.len(),
    ensures
        rows_w(s.take(i + 1)) == rows_w(s.take(i)) + row_w(s[i]),
{
    assert(s.take(i + 1) =~= s.take(i).push(s[i]));
    lemma_rows_w_push(s.take(i), s[i]);
}

proof fn lemma_rows_w_whole(s: Seq<Row>)
    ensures
        rows_w(s.take(s.len() as int)) == rows_w(s),
{
    assert(s.take(s.len() as int) =~= s);
}

/// The matrix is rectangular, with every arm index in range.
pub open spec fn m_wf(rows: Seq<Row>, width: nat, n: nat) -> bool {
    forall|j: int|
        0 <= j < rows.len() ==> (#[trigger] rows[j]).pats@.len() == width && (rows[j].arm as nat)
            < n
}

/// A deep copy of a pattern, weight for weight.
fn clone_pattern(p: &Pattern) -> (r: Pattern)
    ensures
        pat_w(r) == pat_w(*p),
    decreases *p,
{
    match p {
        Pattern::Constant { value } => {
            let r = Pattern::Constant { value: *value };
            proof {
                assert(pat_w(r) == 1);
                assert(pat_w(*p) == 1);
            }
            r
        }
        Pattern::Char { value } => Pattern::Char { value: *value },
        Pattern::Variable { name } => Pattern::Variable { name: name.clone() },
        Pattern::Wildcard => Pattern::Wildcard,
        Pattern::Tuple { tuple } => {
            let mut out: Vec<Pattern> = Vec::new();
            clone_pats_into(tuple, 0, &mut out);
            let res = Pattern::Tuple { tuple: out };
            proof {
                assert(pats_w(Seq::<Pattern>::empty()) == 0);
                assert(pats_w(out@) == pats_w_from(tuple@, 0));
                assert(pats_w_list(out) == pats_w_from(tuple@, 0));
                assert(pats_w_list(*tuple) == pats_w_from(tuple@, 0));
                assert(pat_w(res) == 1 + pats_w_from(tuple@, 0));
                assert(pat_w(*p) == 1 + pats_w_from(tuple@, 0));
            }
            res
        }
        Pattern::Constructor { name, arg } => match arg {
            None => Pattern::Constructor { name: name.clone(), arg: None },
            Some(a) => {
                let ca = clone_pattern(a);
                let res = Pattern::Constructor { name: name.clone(), arg: Some(Box::new(ca)) };
                proof {
                    assert(pat_w(res) == 1 + pat_w(ca));
                    assert(pat_w(*p) == 1 + pat_w(**a));
                }
                res
            }
        },
    }
}

/// Copy the patterns of a vector from position `j` on onto the end of
/// a buffer.
fn clone_pats_into(v: &Vec<Pattern>, j: usize, out: &mut Vec<Pattern>)
    requires
        j <= v@.len(),
    ensures
        final(out)@.len() == old(out)@.len() + v@.len() - j,
        pats_w(final(out)@) == pats_w(old(out)@) + pats_w_from(v@, j as int),
    decreases *v, v@.len() - j,
{
    if j < v.len() {
        let c = clone_pattern(&v[j]);
        proof {
            lemma_pats_w_push(out@, c);
        }
        out.push(c);
        clone_pats_into(v, j + 1, out);
    }
}

/// A copy of the collected bindings of a row.
fn clone_binds(binds: &Vec<(Symbol, Occ)>) -> (r: Vec<(Symbol, Occ)>) {
    let mut out: Vec<(Symbol, Occ)> = Vec::new();
    let mut j: usize = 0;
    while j < binds.len()
        decreases binds@.len() - j,
    {
        out.push((binds[j].0.clone(), binds[j].1.dup()));
        j = j + 1;
    }
    out
}

/// A copy of a row's patterns with column `c` removed.
fn clone_pats_except(pats: &Vec<Pattern>, c: usize) -> (r: Vec<Pattern>)
    requires
        c < pats@.len(),
    ensures
        r@.len() == pats@.len() - 1,
        pats_w(r@) + pat_w(pats@[c as int]) == pats_w(pats@),
{
    let mut out: Vec<Pattern> = Vec::new();
    let mut j: usize = 0;
    while j < pats.len()
        invariant
            j <= pats@.len(),
            c < pats@.len(),
            out@.len() == if j <= c {
                j as int
            } else {
                j - 1
            },
            pats_w(out@) + (if j > c {
                pat_w(pats@[c as int])
            } else {
                0
            }) == pats_w(pats@.take(j as int)),
        decreases pats@.len() - j,
    {
        proof {
            lemma_pats_w_take_step(pats@, j as int);
        }
        if j != c {
            let cp = clone_pattern(&pats[j]);
            proof {
                lemma_pats_w_push(out@, cp);
            }
            out.push(cp);
        }
        j = j + 1;
    }
    proof {
        lemma_pats_w_whole(pats@);
    }
    out
}

/// A copy of the occurrence columns with column `c` removed.
fn clone_occs_except(occs: &Vec<Occ>, c: usize) -> (r: Vec<Occ>)
    requires
        c < occs@.len(),
    ensures
        r@.len() == occs@.len() - 1,
{
    let mut out: Vec<Occ> = Vec::new();
    let mut j: usize = 0;
    while j < occs.len()
        invariant
            j <= occs@.len(),
            c < occs@.len(),
            out@.len() == if j <= c {
                j as int
            } else {
                j - 1
            },
        decreases occs@.len() - j,
    {
        if j != c {
            out.push(occs[j].dup());
        }
        j = j + 1;
    }
    out
}

/// Append `k` wildcards to a pattern vector; the weight is unchanged.
fn push_wildcards(np: &mut Vec<Pattern>, k: usize)
    ensures
        final(np)@.len() == old(np)@.len() + k,
        pats_w(final(np)@) == pats_w(old(np)@),
{
    let mut t: usize = 0;
    while t < k
        invariant
            t <= k,
            np@.len() == old(np)@.len() + t,
            pats_w(np@) == pats_w(old(np)@),
        decreases k - t,
    {
        proof {
            lemma_pats_w_push(np@, Pattern::Wildcard);
        }
        np.push(Pattern::Wildcard);
        t = t + 1;
    }
}

/// A non-wildcard pattern weighs at least one.
proof fn lemma_pat_w_pos(p: Pattern)
    requires
        !is_wild(p),
    ensures
        pat_w(p) >= 1,
{
}

/// A row weighs at least as much as any one of its cells.
proof fn lemma_row_w_ge_cell(s: Seq<Pattern>, i: int, c: int)
    requires
        0 <= i <= c < s.len(),
    ensures
        pats_w_from(s, i) >= pat_w(s[c]),
    decreases c - i,
{
    if i < c {
        lemma_row_w_ge_cell(s, i + 1, c);
    }
}

/// Decide wildcard-likeness.
fn is_wild_exec(p: &Pattern) -> (b: bool)
    ensures
        b == is_wild(*p),
{
    match p {
        Pattern::Variable { .. } => true,
        Pattern::Wildcard => true,
        _ => false,
    }
}

/// Some row has the integer constant `v` in column `c`.
pub open spec fn col_has_const(rows: Seq<Row>, c: int, v: i64) -> bool {
    exists|j: int|
        0 <= j < rows.len() && ((#[trigger] rows[j]).pats@[c] matches Pattern::Constant { value }
            && value == v)
}

/// Some row has the character constant `v` in column `c`.
pub open spec fn col_has_char(rows: Seq<Row>, c: int, v: u32) -> bool {
    exists|j: int|
        0 <= j < rows.len() && ((#[trigger] rows[j]).pats@[c] matches Pattern::Char { value }
            && value == v)
}

/// Some row has, in column `c`, a constructor the environment maps to
/// the discriminant `d`.
pub open spec fn col_has_ctor(rows: Seq<Row>, c: int, d: u64, env: Seq<(Symbol, CtorInfo)>) -> bool {
    exists|j: int|
        0 <= j < rows.len() && ((#[trigger] rows[j]).pats@[c] matches Pattern::Constructor {
            name,
            ..
        } && (spec_ctor(env, sym_key(name)) matches Some(ci) && ci.descriminant == d))
}

fn contains_i64(v: &Vec<i64>, x: i64) -> bool {
    let mut j: usize = 0;
    while j < v.len()
        decreases v@.len() - j,
    {
        if v[j] == x {
            return true;
        }
        j = j + 1;
    }
    false
}

fn contains_u32(v: &Vec<u32>, x: u32) -> bool {
    let mut j: usize = 0;
    while j < v.len()
        decreases v@.len() - j,
    {
        if v[j] == x {
            return true;
        }
        j = j + 1;
    }
    false
}

fn contains_disc(v: &Vec<(u64, bool)>, x: u64) -> bool {
    let mut j: usize = 0;
    while j < v.len()
        decreases v@.len() - j,
    {
        if v[j].0 == x {
            return true;
        }
        j = j + 1;
    }
    false
}

/// The distinct integer constants heading column `c`.
fn collect_consts(rows: &Vec<Row>, c: usize) -> (r: Result<Vec<i64>, InternalError>)
    requires
        forall|j: int| 0 <= j < rows@.len() ==> c < (#[trigger] rows@[j]).pats@.len(),
    ensures
        r matches Ok(v) ==> forall|x: int|
            0 <= x < v@.len() ==> col_has_const(rows@, c as int, #[trigger] v@[x]),
{
    let mut out: Vec<i64> = Vec::new();
    let mut i: usize = 0;
    while i < rows.len()
        invariant
            i <= rows@.len(),
            forall|j: int| 0 <= j < rows@.len() ==> c < (#[trigger] rows@[j]).pats@.len(),
            forall|x: int| 0 <= x < out@.len() ==> col_has_const(rows@, c as int, #[trigger] out@[x]),
        decreases rows@.len() - i,
    {
        match &rows[i].pats[c] {
            Pattern::Constant { value } => {
                if !contains_i64(&out, *value) {
                    proof {
                        assert(col_has_const(rows@, c as int, rows@[i as int].pats@[c as int]->Constant_value));
                    }
                    out.push(*value);
                }
            }
            Pattern::Variable { .. } => {}
            Pattern::Wildcard => {}
            _ => {
                return Err(InternalError);
            }
        }
        i = i + 1;
    }
    Ok(out)
}

/// The distinct character constants heading column `c`.
fn collect_chars(rows: &Vec<Row>, c: usize) -> (r: Result<Vec<u32>, InternalError>)
    requires
        forall|j: int| 0 <= j < rows@.len() ==> c < (#[trigger] rows@[j]).pats@.len(),
    ensures
        r matches Ok(v) ==> forall|x: int|
            0 <= x < v@.len() ==> col_has_char(rows@, c as int, #[trigger] v@[x]),
{
    let mut out: Vec<u32> = Vec::new();
    let mut i: usize = 0;
    while i < rows.len()
        invariant
            i <= rows@.len(),
            forall|j: int| 0 <= j < rows@.len() ==> c < (#[trigger] rows@[j]).pats@.len(),
            forall|x: int| 0 <= x < out@.len() ==> col_has_char(rows@, c as int, #[trigger] out@[x]),
        decreases rows@.len() - i,
    {
        match &rows[i].pats[c] {
            Pattern::Char { value } => {
                if !contains_u32(&out, *value) {
                    proof {
                        assert(col_has_char(rows@, c as int, rows@[i as int].pats@[c as int]->Char_value));
                    }
                    out.push(*value);
                }
            }
            Pattern::Variable { .. } => {}
            Pattern::Wildcard => {}
            _ => {
                return Err(InternalError);
            }
        }
        i = i + 1;
    }
    Ok(out)
}

/// The distinct constructor heads of column `c`, as (discriminant,
/// carries an argument) pairs.
fn collect_ctors(rows: &Vec<Row>, c: usize, env: &CtorEnv) -> (r: Result<
    Vec<(u64, bool)>,
    InternalError,
>)
    requires
        forall|j: int| 0 <= j < rows@.len() ==> c < (#[trigger] rows@[j]).pats@.len(),
    ensures
        r matches Ok(v) ==> forall|x: int|
            0 <= x < v@.len() ==> col_has_ctor(rows@, c as int, (#[trigger] v@[x]).0, env.entries@),
{
    let mut out: Vec<(u64, bool)> = Vec::new();
    let mut i: usize = 0;
    while i < rows.len()
        invariant
            i <= rows@.len(),
            forall|j: int| 0 <= j < rows@.len() ==> c < (#[trigger] rows@[j]).pats@.len(),
            forall|x: int|
                0 <= x < out@.len() ==> col_has_ctor(rows@, c as int, (#[trigger] out@[x]).0, env.entries@),
        decreases rows@.len() - i,
    {
        match &rows[i].pats[c] {
            Pattern::Constructor { name, .. } => {
                match env.lookup(name) {
                    Some(ci) => {
                        if !contains_disc(&out, ci.descriminant) {
                            proof {
                                assert(col_has_ctor(rows@, c as int, ci.descriminant, env.entries@));
                            }
                            out.push((ci.descriminant, ci.has_arg));
                        }
                    }
                    None => {
                        return Err(InternalError);
                    }
                }
            }
            Pattern::Variable { .. } => {}
            Pattern::Wildcard => {}
            _ => {
                return Err(InternalError);
            }
        }
        i = i + 1;
    }
    Ok(out)
}

/// Replace column `c`, headed in row 0 by a tuple of width `k`, with
/// the tuple's components.  The matrix strictly loses weight.
fn decompose_matrix(occs: &Vec<Occ>, rows: &Vec<Row>, c: usize, k: usize, Ghost(n): Ghost<nat>)
    -> (r: Result<(Vec<Occ>, Vec<Row>), InternalError>)
    requires
        c < occs@.len(),
        m_wf(rows@, occs@.len() as nat, n),
        rows@.len() > 0,
        rows@[0].pats@[c as int] matches Pattern::Tuple { tuple } && tuple@.len() == k,
    ensures
        r matches Ok(p) ==> {
            &&& m_wf(p.1@, p.0@.len() as nat, n)
            &&& p.0@.len() == occs@.len() - 1 + k
            &&& rows_w(p.1@) < rows_w(rows@)
        },
{
    let mut o2 = clone_occs_except(occs, c);
    let mut t: usize = 0;
    while t < k
        invariant
            t <= k,
            c < occs@.len(),
            o2@.len() == occs@.len() - 1 + t,
        decreases k - t,
    {
        o2.push(occs[c].child(t as u64));
        t = t + 1;
    }
    let ghost w2 = (occs@.len() - 1 + k) as nat;
    let mut out: Vec<Row> = Vec::new();
    let mut i: usize = 0;
    while i < rows.len()
        invariant
            i <= rows@.len(),
            c < occs@.len(),
            m_wf(rows@, occs@.len() as nat, n),
            rows@.len() > 0,
            rows@[0].pats@[c as int] matches Pattern::Tuple { tuple } && tuple@.len() == k,
            w2 == (occs@.len() - 1 + k) as nat,
            m_wf(out@, w2, n),
            rows_w(out@) + (if i > 0 { 1int } else { 0int }) <= rows_w(rows@.take(i as int)),
        decreases rows@.len() - i,
    {
        proof {
            lemma_rows_w_take_step(rows@, i as int);
        }
        let row = &rows[i];
        let mut np: Vec<Pattern>;
        let mut nb = clone_binds(&row.binds);
        match &row.pats[c] {
            Pattern::Tuple { tuple } => {
                if tuple.len() != k {
                    return Err(InternalError);
                }
                np = clone_pats_except(&row.pats, c);
                clone_pats_into(tuple, 0, &mut np);
                proof {
                    assert(pats_w(tuple@) == pats_w_from(tuple@, 0));
                    assert(pats_w_list(*tuple) == pats_w(tuple@));
                    assert(row.pats@[c as int] == Pattern::Tuple { tuple: *tuple });
                    assert(pat_w(row.pats@[c as int]) == 1 + pats_w_list(*tuple));
                    assert(pats_w(np@) + 1 == pats_w(row.pats@));
                }
            }
            Pattern::Variable { name } => {
                np = clone_pats_except(&row.pats, c);
                push_wildcards(&mut np, k);
                nb.push((name.clone(), occs[c].dup()));
            }
            Pattern::Wildcard => {
                np = clone_pats_except(&row.pats, c);
                push_wildcards(&mut np, k);
            }
            _ => {
                return Err(InternalError);
            }
        }
        let nr = Row { pats: np, binds: nb, arm: row.arm };
        proof {
            lemma_rows_w_push(out@, nr);
        }
        out.push(nr);
        i = i + 1;
    }
    proof {
        lemma_rows_w_whole(rows@);
    }
    Ok((o2, out))
}

/// Keep only the rows that put no constraint on column `c`, dropping
/// that column.  Row 0 constrains it, so the matrix strictly loses
/// weight.
fn default_matrix(occs: &Vec<Occ>, rows: &Vec<Row>, c: usize, Ghost(n): Ghost<nat>)
    -> (r: (Vec<Occ>, Vec<Row>))
    requires
        c < occs@.len(),
        m_wf(rows@, occs@.len() as nat, n),
        rows@.len() > 0,
        !is_wild(rows@[0].pats@[c as int]),
    ensures
        m_wf(r.1@, r.0@.len() as nat, n),
        r.0@.len() == occs@.len() - 1,
        rows_w(r.1@) < rows_w(rows@),
{
    let o2 = clone_occs_except(occs, c);
    let mut out: Vec<Row> = Vec::new();
    let mut i: usize = 0;
    while i < rows.len()
        invariant
            i <= rows@.len(),
            c < occs@.len(),
            m_wf(rows@, occs@.len() as nat, n),
            rows@.len() > 0,
            !is_wild(rows@[0].pats@[c as int]),
            m_wf(out@, (occs@.len() - 1) as nat, n),
            rows_w(out@) + (if i > 0 { 1int } else { 0int }) <= rows_w(rows@.take(i as int)),
        decreases rows@.len() - i,
    {
        proof {
            lemma_rows_w_take_step(rows@, i as int);
            if i == 0 {
                lemma_pat_w_pos(rows@[0].pats@[c as int]);
                lemma_row_w_ge_cell(rows@[0].pats@, 0, c as int);
            }
        }
        let row = &rows[i];
        if is_wild_exec(&row.pats[c]) {
            let mut nb = clone_binds(&row.binds);
            match &row.pats[c] {
                Pattern::Variable { name } => {
                    nb.push((name.clone(), occs[c].dup()));
                }
                _ => {}
            }
            let np = clone_pats_except(&row.pats, c);
            let nr = Row { pats: np, binds: nb, arm: row.arm };
            proof {
                lemma_rows_w_push(out@, nr);
            }
            out.push(nr);
        } else {
            proof {
                lemma_pat_w_pos(rows@[i as int].pats@[c as int]);
                lemma_row_w_ge_cell(rows@[i as int].pats@, 0, c as int);
            }
        }
        i = i + 1;
    }
    proof {
        lemma_rows_w_whole(rows@);
    }
    (o2, out)
}

/// Keep the rows compatible with the integer constant `v` in column
/// `c`, dropping that column.  Some row carries `v` there, so the
/// matrix strictly loses weight.
fn specialize_const(occs: &Vec<Occ>, rows: &Vec<Row>, c: usize, v: i64, Ghost(n): Ghost<nat>)
    -> (r: Result<(Vec<Occ>, Vec<Row>), InternalError>)
    requires
        c < occs@.len(),
        m_wf(rows@, occs@.len() as nat, n),
        col_has_const(rows@, c as int, v),
    ensures
        r matches Ok(p) ==> {
            &&& m_wf(p.1@, p.0@.len() as nat, n)
            &&& p.0@.len() == occs@.len() - 1
            &&& rows_w(p.1@) < rows_w(rows@)
        },
{
    let ghost jw = choose|j: int|
        0 <= j < rows@.len() && ((#[trigger] rows@[j]).pats@[c as int] matches Pattern::Constant {
            value,
        } && value == v);
    let o2 = clone_occs_except(occs, c);
    let mut out: Vec<Row> = Vec::new();
    let mut i: usize = 0;
    while i < rows.len()
        invariant
            i <= rows@.len(),
            c < occs@.len(),
            m_wf(rows@, occs@.len() as nat, n),
            0 <= jw < rows@.len(),
            rows@[jw].pats@[c as int] matches Pattern::Constant { value } && value == v,
            m_wf(out@, (occs@.len() - 1) as nat, n),
            rows_w(out@) + (if i > jw { 1int } else { 0int }) <= rows_w(rows@.take(i as int)),
        decreases rows@.len() - i,
    {
        proof {
            lemma_rows_w_take_step(rows@, i as int);
        }
        let row = &rows[i];
        match &row.pats[c] {
            Pattern::Constant { value } => {
                if *value == v {
                    let np = clone_pats_except(&row.pats, c);
                    let nb = clone_binds(&row.binds);
                    let nr = Row { pats: np, binds: nb, arm: row.arm };
                    proof {
                        lemma_rows_w_push(out@, nr);
                    }
                    out.push(nr);
                } else {
                    proof {
                        lemma_row_w_ge_cell(rows@[i as int].pats@, 0, c as int);
                    }
                }
            }
            Pattern::Variable { name } => {
                let np = clone_pats_except(&row.pats, c);
                let mut nb = clone_binds(&row.binds);
                nb.push((name.clone(), occs[c].dup()));
                let nr = Row { pats: np, binds: nb, arm: row.arm };
                proof {
                    lemma_rows_w_push(out@, nr);
                }
                out.push(nr);
            }
            Pattern::Wildcard => {
                let np = clone_pats_except(&row.pats, c);
                let nb = clone_binds(&row.binds);
                let nr = Row { pats: np, binds: nb, arm: row.arm };
                proof {
                    lemma_rows_w_push(out@, nr);
                }
                out.push(nr);
            }
            _ => {
                return Err(InternalError);
            }
        }
        i = i + 1;
    }
    proof {
        lemma_rows_w_whole(rows@);
    }
    Ok((o2, out))
}

/// As `specialize_const`, for a character constant.
fn specialize_char(occs: &Vec<Occ>, rows: &Vec<Row>, c: usize, v: u32, Ghost(n): Ghost<nat>)
    -> (r: Result<(Vec<Occ>, Vec<Row>), InternalError>)
    requires
        c < occs@.len(),
        m_wf(rows@, occs@.len() as nat, n),
        col_has_char(rows@, c as int, v),
    ensures
        r matches Ok(p) ==> {
            &&& m_wf(p.1@, p.0@.len() as nat, n)
            &&& p.0@.len() == occs@.len() - 1
            &&& rows_w(p.1@) < rows_w(rows@)
        },
{
    let ghost jw = choose|j: int|
        0 <= j < rows@.len() && ((#[trigger] rows@[j]).pats@[c as int] matches Pattern::Char {
            value,
        } && value == v);
    let o2 = clone_occs_except(occs, c);
    let mut out: Vec<Row> = Vec::new();
    let mut i: usize = 0;
    while i < rows.len()
        invariant
            i <= rows@.len(),
            c < occs@.len(),
            m_wf(rows@, occs@.len() as nat, n),
            0 <= jw < rows@.len(),
            rows@[jw].pats@[c as int] matches Pattern::Char { value } && value == v,
            m_wf(out@, (occs@.len() - 1) as nat, n),
            rows_w(out@) + (if i > jw { 1int } else { 0int }) <= rows_w(rows@.take(i as int)),
        decreases rows@.len() - i,
    {
        proof {
            lemma_rows_w_take_step(rows@, i as int);
        }
        let row = &rows[i];
        match &row.pats[c] {
            Pattern::Char { value } => {
                if *value == v {
                    let np = clone_pats_except(&row.pats, c);
                    let nb = clone_binds(&row.binds);
                    let nr = Row { pats: np, binds: nb, arm: row.arm };
                    proof {
                        lemma_rows_w_push(out@, nr);
                    }
                    out.push(nr);
                } else {
                    proof {
                        lemma_row_w_ge_cell(rows@[i as int].pats@, 0, c as int);
                    }
                }
            }
            Pattern::Variable { name } => {
                let np = clone_pats_except(&row.pats, c);
                let mut nb = clone_binds(&row.binds);
                nb.push((name.clone(), occs[c].dup()));
                let nr = Row { pats: np, binds: nb, arm: row.arm };
                proof {
                    lemma_rows_w_push(out@, nr);
                }
                out.push(nr);
            }
            Pattern::Wildcard => {
                let np = clone_pats_except(&row.pats, c);
                let nb = clone_binds(&row.binds);
                let nr = Row { pats: np, binds: nb, arm: row.arm };
                proof {
                    lemma_rows_w_push(out@, nr);
                }
                out.push(nr);
            }
            _ => {
                return Err(InternalError);
            }
        }
        i = i + 1;
    }
    proof {
        lemma_rows_w_whole(rows@);
    }
    Ok((o2, out))
}

/// Keep the rows compatible with the constructor of discriminant `d`
/// in column `c`; the column becomes the constructor argument, or
/// disappears for a nullary constructor.  Some row carries that
/// constructor there, so the matrix strictly loses weight.
fn specialize_ctor(
    occs: &Vec<Occ>,
    rows: &Vec<Row>,
    c: usize,
    d: u64,
    has_arg: bool,
    env: &CtorEnv,
    Ghost(n): Ghost<nat>,
) -> (r: Result<(Vec<Occ>, Vec<Row>), InternalError>)
    requires
        c < occs@.len(),
        m_wf(rows@, occs@.len() as nat, n),
        col_has_ctor(rows@, c as int, d, env.entries@),
    ensures
        r matches Ok(p) ==> {
            &&& m_wf(p.1@, p.0@.len() as nat, n)
            &&& p.0@.len() == occs@.len() - 1 + (if has_arg { 1int } else { 0int })
            &&& rows_w(p.1@) < rows_w(rows@)
        },
{
    let ghost jw = choose|j: int|
        0 <= j < rows@.len() && ((#[trigger] rows@[j]).pats@[c as int] matches Pattern::Constructor {
            name,
            ..
        } && (spec_ctor(env.entries@, sym_key(name)) matches Some(ci) && ci.descriminant == d));
    let mut o2 = clone_occs_except(occs, c);
    if has_arg {
        o2.push(occs[c].child(0));
    }
    let ghost w2 = (occs@.len() - 1 + if has_arg { 1int } else { 0int }) as nat;
    let mut out: Vec<Row> = Vec::new();
    let mut i: usize = 0;
    while i < rows.len()
        invariant
            i <= rows@.len(),
            c < occs@.len(),
            m_wf(rows@, occs@.len() as nat, n),
            0 <= jw < rows@.len(),
            rows@[jw].pats@[c as int] matches Pattern::Constructor { name, .. } && (spec_ctor(
                env.entries@,
                sym_key(name),
            ) matches Some(ci) && ci.descriminant == d),
            w2 == (occs@.len() - 1 + if has_arg { 1int } else { 0int }) as nat,
            m_wf(out@, w2, n),
            rows_w(out@) + (if i > jw { 1int } else { 0int }) <= rows_w(rows@.take(i as int)),
        decreases rows@.len() - i,
    {
        proof {
            lemma_rows_w_take_step(rows@, i as int);
        }
        let row = &rows[i];
        match &row.pats[c] {
            Pattern::Constructor { name, arg } => {
                let ci = match env.lookup(name) {
                    Some(ci) => ci,
                    None => {
                        return Err(InternalError);
                    }
                };
                if ci.descriminant == d {
                    if ci.has_arg != has_arg {
                        return Err(InternalError);
                    }
                    let mut np = clone_pats_except(&row.pats, c);
                    match arg {
                        Some(a) => {
                            if !has_arg {
                                return Err(InternalError);
                            }
                            let ca = clone_pattern(a);
                            proof {
                                lemma_pats_w_push(np@, ca);
                                assert(pat_w(row.pats@[c as int]) == 1 + pat_w(**a));
                            }
                            np.push(ca);
                        }
                        None => {
                            if has_arg {
                                return Err(InternalError);
                            }
                        }
                    }
                    let nb = clone_binds(&row.binds);
                    let nr = Row { pats: np, binds: nb, arm: row.arm };
                    proof {
                        lemma_rows_w_push(out@, nr);
                    }
                    out.push(nr);
                } else {
                    proof {
                        lemma_pat_w_pos(rows@[i as int].pats@[c as int]);
                        lemma_row_w_ge_cell(rows@[i as int].pats@, 0, c as int);
                    }
                }
            }
            Pattern::Variable { name } => {
                let mut np = clone_pats_except(&row.pats, c);
                if has_arg {
                    push_wildcards(&mut np, 1);
                }
                let mut nb = clone_binds(&row.binds);
                nb.push((name.clone(), occs[c].dup()));
                let nr = Row { pats: np, binds: nb, arm: row.arm };
                proof {
                    lemma_rows_w_push(out@, nr);
                }
                out.push(nr);
            }
            Pattern::Wildcard => {
                let mut np = clone_pats_except(&row.pats, c);
                if has_arg {
                    push_wildcards(&mut np, 1);
                }
                let nb = clone_binds(&row.binds);
                let nr = Row { pats: np, binds: nb, arm: row.arm };
                proof {
                    lemma_rows_w_push(out@, nr);
                }
                out.push(nr);
            }
            _ => {
                return Err(InternalError);
            }
        }
        i = i + 1;
    }
    proof {
        lemma_rows_w_whole(rows@);
    }
    Ok((o2, out))
}

/// Compile one match matrix into a decision tree.  The boolean says
/// whether the tree holds a `Fail`; `n` bounds the source arm
/// indices.
fn compile_rec(occs: &Vec<Occ>, rows: &Vec<Row>, Ghost(n): Ghost<nat>, env: &CtorEnv) -> (r:
    Result<(DecisionTree, bool), InternalError>)
    requires
        m_wf(rows@, occs@.len() as nat, n),
    ensures
        r matches Ok(p) ==> arms_in_range(p.0, n) && p.1 == has_fail(p.0),
    decreases rows_w(rows@),
{
    if rows.len() == 0 {
        return Ok((DecisionTree::Fail, true));
    }
    // the column the first row constrains, if any
    let width = occs.len();
    let mut col: usize = 0;
    let mut found = false;
    while col < width && !found
        invariant
            col <= width,
            width == occs@.len(),
            m_wf(rows@, occs@.len() as nat, n),
            rows@.len() > 0,
            rows@[0].pats@.len() == width,
            found ==> col < width && !is_wild(rows@[0].pats@[col as int]),
            !found ==> forall|j: int| 0 <= j < col ==> is_wild(#[trigger] rows@[0].pats@[j]),
        decreases width - col + (if found { 0int } else { 1int }),
    {
        if !is_wild_exec(&rows[0].pats[col]) {
            found = true;
        } else {
            col = col + 1;
        }
    }
    if !found {
        // the first row matches whatever arrives: bind its variables
        // and run its arm
        let row0 = &rows[0];
        proof {
            assert(rows@[0].arm < n);
        }
        let mut t = DecisionTree::Leaf { arm: row0.arm };
        let mut j: usize = 0;
        while j < width
            invariant
                j <= width,
                width == occs@.len(),
                rows@.len() > 0,
                rows@[0].pats@.len() == width,
                arms_in_range(t, n),
                !has_fail(t),
            decreases width - j,
        {
            match &rows[0].pats[j] {
                Pattern::Variable { name } => {
                    t = DecisionTree::Bind {
                        name: name.clone(),
                        scrut: occs[j].dup(),
                        rest: Box::new(t),
                    };
                }
                _ => {}
            }
            j = j + 1;
        }
        let mut b: usize = 0;
        let nbinds = row0.binds.len();
        while b < nbinds
            invariant
                b <= nbinds,
                rows@.len() > 0,
                nbinds == rows@[0].binds@.len(),
                arms_in_range(t, n),
                !has_fail(t),
            decreases nbinds - b,
        {
            t = DecisionTree::Bind {
                name: rows[0].binds[b].0.clone(),
                scrut: rows[0].binds[b].1.dup(),
                rest: Box::new(t),
            };
            b = b + 1;
        }
        return Ok((t, false));
    }
    let c = col;
    match &rows[0].pats[c] {
        Pattern::Tuple { tuple } => {
            let k = tuple.len();
            let (o2, r2) = match decompose_matrix(occs, rows, c, k, Ghost(n)) {
                Ok(p) => p,
                Err(e) => {
                    return Err(e);
                }
            };
            let (sub, f) = match compile_rec(&o2, &r2, Ghost(n), env) {
                Ok(p) => p,
                Err(e) => {
                    return Err(e);
                }
            };
            let t = DecisionTree::Decompose { scrut: occs[c].dup(), width: k, rest: Box::new(sub) };
            proof {
                assert(arms_in_range(t, n));
                assert(has_fail(t) == f);
            }
            Ok((t, f))
        }
        Pattern::Constant { .. } => {
            let consts = match collect_consts(rows, c) {
                Ok(v) => v,
                Err(e) => {
                    return Err(e);
                }
            };
            let mut cases: Vec<(i64, DecisionTree)> = Vec::new();
            let mut anyf = false;
            let mut x: usize = 0;
            while x < consts.len()
                invariant
                    x <= consts@.len(),
                    c < occs@.len(),
                    m_wf(rows@, occs@.len() as nat, n),
                    rows@.len() > 0,
                    !is_wild(rows@[0].pats@[c as int]),
                    forall|y: int|
                        0 <= y < consts@.len() ==> col_has_const(rows@, c as int, #[trigger] consts@[y]),
                    forall|y: int| 0 <= y < cases@.len() ==> arms_in_range((#[trigger] cases@[y]).1, n),
                    anyf == exists|y: int| 0 <= y < cases@.len() && has_fail((#[trigger] cases@[y]).1),
                decreases consts@.len() - x,
            {
                let (o2, r2) = match specialize_const(occs, rows, c, consts[x], Ghost(n)) {
                    Ok(p) => p,
                    Err(e) => {
                        return Err(e);
                    }
                };
                let (sub, f) = match compile_rec(&o2, &r2, Ghost(n), env) {
                    Ok(p) => p,
                    Err(e) => {
                        return Err(e);
                    }
                };
                let ghost old_cases = cases@;
                cases.push((consts[x], sub));
                anyf = anyf || f;
                proof {
                    assert(cases@.last().1 == sub);
                    assert forall|y: int| 0 <= y < cases@.len() implies arms_in_range(
                        (#[trigger] cases@[y]).1,
                        n,
                    ) by {
                        if y < old_cases.len() {
                            assert(cases@[y] == old_cases[y]);
                        }
                    }
                    if anyf {
                        if f {
                            assert(has_fail(cases@[cases@.len() - 1].1));
                        } else {
                            let w = choose|y: int|
                                0 <= y < old_cases.len() && has_fail((#[trigger] old_cases[y]).1);
                            assert(has_fail(cases@[w].1));
                        }
                    } else {
                        assert forall|y: int| 0 <= y < cases@.len() implies !has_fail(
                            (#[trigger] cases@[y]).1,
                        ) by {
                            if y < old_cases.len() {
                                assert(cases@[y] == old_cases[y]);
                            }
                        }
                    }
                }
                x = x + 1;
            }
            let (od, rd) = default_matrix(occs, rows, c, Ghost(n));
            let (dt, df) = match compile_rec(&od, &rd, Ghost(n), env) {
                Ok(p) => p,
                Err(e) => {
                    return Err(e);
                }
            };
            let ghost c0 = cases@;
            let t = DecisionTree::SwitchInt {
                scrut: occs[c].dup(),
                cases,
                default: Box::new(dt),
            };
            proof {
                assert(t->SwitchInt_cases@ == c0);
                assert(*t->SwitchInt_default == dt);
                assert((exists|y: int| 0 <= y < c0.len() && has_fail((#[trigger] c0[y]).1))
                    == anyf);
                assert(arms_in_range(t, n));
                assert(has_fail(t) == (anyf || df));
            }
            Ok((t, anyf || df))
        }
        Pattern::Char { .. } => {
            let chars = match collect_chars(rows, c) {
                Ok(v) => v,
                Err(e) => {
                    return Err(e);
                }
            };
            let mut cases: Vec<(u32, DecisionTree)> = Vec::new();
            let mut anyf = false;
            let mut x: usize = 0;
            while x < chars.len()
                invariant
                    x <= chars@.len(),
                    c < occs@.len(),
                    m_wf(rows@, occs@.len() as nat, n),
                    rows@.len() > 0,
                    !is_wild(rows@[0].pats@[c as int]),
                    forall|y: int|
                        0 <= y < chars@.len() ==> col_has_char(rows@, c as int, #[trigger] chars@[y]),
                    forall|y: int| 0 <= y < cases@.len() ==> arms_in_range((#[trigger] cases@[y]).1, n),
                    anyf == exists|y: int| 0 <= y < cases@.len() && has_fail((#[trigger] cases@[y]).1),
                decreases chars@.len() - x,
            {
                let (o2, r2) = match specialize_char(occs, rows, c, chars[x], Ghost(n)) {
                    Ok(p) => p,
                    Err(e) => {
                        return Err(e);
                    }
                };
                let (sub, f) = match compile_rec(&o2, &r2, Ghost(n), env) {
                    Ok(p) => p,
                    Err(e) => {
                        return Err(e);
                    }
                };
                let ghost old_cases = cases@;
                cases.push((chars[x], sub));
                anyf = anyf || f;
                proof {
                    assert(cases@.last().1 == sub);
                    assert forall|y: int| 0 <= y < cases@.len() implies arms_in_range(
                        (#[trigger] cases@[y]).1,
                        n,
                    ) by {
                        if y < old_cases.len() {
                            assert(cases@[y] == old_cases[y]);
                        }
                    }
                    if anyf {
                        if f {
                            assert(has_fail(cases@[cases@.len() - 1].1));
                        } else {
                            let w = choose|y: int|
                                0 <= y < old_cases.len() && has_fail((#[trigger] old_cases[y]).1);
                            assert(has_fail(cases@[w].1));
                        }
                    } else {
                        assert forall|y: int| 0 <= y < cases@.len() implies !has_fail(
                            (#[trigger] cases@[y]).1,
                        ) by {
                            if y < old_cases.len() {
                                assert(cases@[y] == old_cases[y]);
                            }
                        }
                    }
                }
                x = x + 1;
            }
            let (od, rd) = default_matrix(occs, rows, c, Ghost(n));
            let (dt, df) = match compile_rec(&od, &rd, Ghost(n), env) {
                Ok(p) => p,
                Err(e) => {
                    return Err(e);
                }
            };
            let ghost c0 = cases@;
            let t = DecisionTree::SwitchChar {
                scrut: occs[c].dup(),
                cases,
                default: Box::new(dt),
            };
            proof {
                assert(t->SwitchChar_cases@ == c0);
                assert(*t->SwitchChar_default == dt);
                assert((exists|y: int| 0 <= y < c0.len() && has_fail((#[trigger] c0[y]).1))
                    == anyf);
                assert(arms_in_range(t, n));
                assert(has_fail(t) == (anyf || df));
            }
            Ok((t, anyf || df))
        }
        Pattern::Constructor { name, .. } => {
            let ci0 = match env.lookup(name) {
                Ok_placeholder => match Ok_placeholder {
                    Some(ci) => ci,
                    None => {
                        return Err(InternalError);
                    }
                },
            };
            let heads = match collect_ctors(rows, c, env) {
                Ok(v) => v,
                Err(e) => {
                    return Err(e);
                }
            };
            let mut cases: Vec<(u64, DecisionTree)> = Vec::new();
            let mut anyf = false;
            let mut x: usize = 0;
            while x < heads.len()
                invariant
                    x <= heads@.len(),
                    c < occs@.len(),
                    m_wf(rows@, occs@.len() as nat, n),
                    rows@.len() > 0,
                    !is_wild(rows@[0].pats@[c as int]),
                    forall|y: int|
                        0 <= y < heads@.len() ==> col_has_ctor(
                            rows@,
                            c as int,
                            (#[trigger] heads@[y]).0,
                            env.entries@,
                        ),
                    forall|y: int| 0 <= y < cases@.len() ==> arms_in_range((#[trigger] cases@[y]).1, n),
                    anyf == exists|y: int| 0 <= y < cases@.len() && has_fail((#[trigger] cases@[y]).1),
                decreases heads@.len() - x,
            {
                let (o2, r2) = match specialize_ctor(
                    occs,
                    rows,
                    c,
                    heads[x].0,
                    heads[x].1,
                    env,
                    Ghost(n),
                ) {
                    Ok(p) => p,
                    Err(e) => {
                        return Err(e);
                    }
                };
                let (sub, f) = match compile_rec(&o2, &r2, Ghost(n), env) {
                    Ok(p) => p,
                    Err(e) => {
                        return Err(e);
                    }
                };
                let ghost old_cases = cases@;
                cases.push((heads[x].0, sub));
                anyf = anyf || f;
                proof {
                    assert(cases@.last().1 == sub);
                    assert forall|y: int| 0 <= y < cases@.len() implies arms_in_range(
                        (#[trigger] cases@[y]).1,
                        n,
                    ) by {
                        if y < old_cases.len() {
                            assert(cases@[y] == old_cases[y]);
                        }
                    }
                    if anyf {
                        if f {
                            assert(has_fail(cases@[cases@.len() - 1].1));
                        } else {
                            let w = choose|y: int|
                                0 <= y < old_cases.len() && has_fail((#[trigger] old_cases[y]).1);
                            assert(has_fail(cases@[w].1));
                        }
                    } else {
                        assert forall|y: int| 0 <= y < cases@.len() implies !has_fail(
                            (#[trigger] cases@[y]).1,
                        ) by {
                            if y < old_cases.len() {
                                assert(cases@[y] == old_cases[y]);
                            }
                        }
                    }
                }
                x = x + 1;
            }
            if heads.len() as u64 == ci0.nctors {
                // every constructor of the datatype has its own case
                let ghost c0 = cases@;
                let t = DecisionTree::SwitchCtor { scrut: occs[c].dup(), cases, default: None };
                proof {
                    assert(t->SwitchCtor_cases@ == c0);
                    assert((exists|y: int| 0 <= y < c0.len() && has_fail((#[trigger] c0[y]).1))
                        == anyf);
                    assert(arms_in_range(t, n));
                    assert(has_fail(t) == anyf);
                }
                Ok((t, anyf))
            } else {
                let (od, rd) = default_matrix(occs, rows, c, Ghost(n));
                let (dt, df) = match compile_rec(&od, &rd, Ghost(n), env) {
                    Ok(p) => p,
                    Err(e) => {
                        return Err(e);
                    }
                };
                let ghost c0 = cases@;
                let t = DecisionTree::SwitchCtor {
                    scrut: occs[c].dup(),
                    cases,
                    default: Some(Box::new(dt)),
                };
                proof {
                    assert(t->SwitchCtor_cases@ == c0);
                    assert(t->SwitchCtor_default matches Some(bd) && *bd == dt);
                    assert((exists|y: int| 0 <= y < c0.len() && has_fail((#[trigger] c0[y]).1))
                        == anyf);
                    assert(arms_in_range(t, n));
                    assert(has_fail(t) == (anyf || df));
                }
                Ok((t, anyf || df))
            }
        }
        _ => Err(InternalError),
    }
}

/// Decide whether the tree holds a leaf for the given arm.
fn uses_arm_exec(t: &DecisionTree, a: usize) -> (b: bool)
    ensures
        b == tree_uses_arm(*t, a as int),
    decreases *t,
{
    match t {
        DecisionTree::Leaf { arm } => *arm == a,
        DecisionTree::Bind { rest, .. } => uses_arm_exec(rest, a),
        DecisionTree::Decompose { rest, .. } => uses_arm_exec(rest, a),
        DecisionTree::SwitchInt { cases, default, .. } => cases_use_arm_int(cases, 0, a)
            || uses_arm_exec(default, a),
        DecisionTree::SwitchChar { cases, default, .. } => cases_use_arm_char(cases, 0, a)
            || uses_arm_exec(default, a),
        DecisionTree::SwitchCtor { cases, default, .. } => cases_use_arm_ctor(cases, 0, a) || (
        match default {
            Some(d) => uses_arm_exec(d, a),
            None => false,
        }),
        DecisionTree::Fail => false,
    }
}

fn cases_use_arm_int(cases: &Vec<(i64, DecisionTree)>, j: usize, a: usize) -> (b: bool)
    requires
        j <= cases@.len(),
    ensures
        b == exists|i: int| j <= i < cases@.len() && tree_uses_arm((#[trigger] cases@[i]).1, a as int),
    decreases *cases, cases@.len() - j,
{
    if j < cases.len() {
        if uses_arm_exec(&cases[j].1, a) {
            proof {
                assert(tree_uses_arm(cases@[j as int].1, a as int));
            }
            true
        } else {
            cases_use_arm_int(cases, j + 1, a)
        }
    } else {
        false
    }
}

fn cases_use_arm_char(cases: &Vec<(u32, DecisionTree)>, j: usize, a: usize) -> (b: bool)
    requires
        j <= cases@.len(),
    ensures
        b == exists|i: int| j <= i < cases@.len() && tree_uses_arm((#[trigger] cases@[i]).1, a as int),
    decreases *cases, cases@.len() - j,
{
    if j < cases.len() {
        if uses_arm_exec(&cases[j].1, a) {
            proof {
                assert(tree_uses_arm(cases@[j as int].1, a as int));
            }
            true
        } else {
            cases_use_arm_char(cases, j + 1, a)
        }
    } else {
        false
    }
}

fn cases_use_arm_ctor(cases: &Vec<(u64, DecisionTree)>, j: usize, a: usize) -> (b: bool)
    requires
        j <= cases@.len(),
    ensures
        b == exists|i: int| j <= i < cases@.len() && tree_uses_arm((#[trigger] cases@[i]).1, a as int),
    decreases *cases, cases@.len() - j,
{
    if j < cases.len() {
        if uses_arm_exec(&cases[j].1, a) {
            proof {
                assert(tree_uses_arm(cases@[j as int].1, a as int));
            }
            true
        } else {
            cases_use_arm_ctor(cases, j + 1, a)
        }
    } else {
        false
    }
}

/// Compile the patterns of a `case` into a decision tree, with the
/// warnings the match deserves.  Every arm index reachable in the
/// tree lies below the number of source arms; `NonExhaustive` is
/// reported exactly when the tree can reach `Fail`; an arm is
/// reported redundant exactly when no leaf of the tree runs it.
pub fn compile_case(pats: &Vec<Pattern>, env: &CtorEnv) -> (r: Result<
    (DecisionTree, Vec<Warn>),
    InternalError,
>)
    ensures
        r matches Ok(p) ==> {
            &&& arms_in_range(p.0, pats@.len() as nat)
            &&& ((exists|i: int| 0 <= i < p.1@.len() && p.1@[i] == Warn::NonExhaustive) <==> has_fail(
                p.0,
            ))
            &&& forall|i: int|
                0 <= i < pats@.len() ==> ((exists|w: int|
                    0 <= w < p.1@.len() && p.1@[w] == (Warn::RedundantArm { index: i as usize }))
                    <==> !tree_uses_arm(p.0, i))
        },
{
    let n = pats.len();
    let mut occs: Vec<Occ> = Vec::new();
    occs.push(Occ::root());
    let mut rows: Vec<Row> = Vec::new();
    let mut i: usize = 0;
    while i < n
        invariant
            i <= n,
            n == pats@.len(),
            occs@.len() == 1,
            rows@.len() == i,
            m_wf(rows@, 1, n as nat),
        decreases n - i,
    {
        let mut rp: Vec<Pattern> = Vec::new();
        rp.push(clone_pattern(&pats[i]));
        let nr = Row { pats: rp, binds: Vec::new(), arm: i };
        rows.push(nr);
        i = i + 1;
    }
    let (tree, fail) = match compile_rec(&occs, &rows, Ghost(n as nat), env) {
        Ok(p) => p,
        Err(e) => {
            return Err(e);
        }
    };
    let mut warns: Vec<Warn> = Vec::new();
    if fail {
        warns.push(Warn::NonExhaustive);
    }
    proof {
        if fail {
            assert(warns@[0] == Warn::NonExhaustive);
        }
        assert forall|w: int| 0 <= w < warns@.len() implies ((#[trigger] warns@[w])
            matches Warn::RedundantArm { index } ==> (index as int) < 0) by {}
    }
    let mut a: usize = 0;
    while a < n
        invariant
            a <= n,
            n == pats@.len(),
            (exists|i2: int| 0 <= i2 < warns@.len() && warns@[i2] == Warn::NonExhaustive) <==> fail,
            forall|i: int|
                0 <= i < a ==> ((exists|w: int|
                    0 <= w < warns@.len() && warns@[w] == (Warn::RedundantArm { index: i as usize }))
                    <==> !tree_uses_arm(tree, i)),
            forall|w: int|
                0 <= w < warns@.len() ==> ((#[trigger] warns@[w]) matches Warn::RedundantArm {
                    index,
                } ==> (index as int) < a),
        decreases n - a,
    {
        if !uses_arm_exec(&tree, a) {
            let ghost oldw = warns@;
            warns.push(Warn::RedundantArm { index: a });
            proof {
                if fail {
                    let w = choose|i2: int| 0 <= i2 < oldw.len() && oldw[i2] == Warn::NonExhaustive;
                    assert(warns@[w] == Warn::NonExhaustive);
                } else {
                    assert forall|i2: int| 0 <= i2 < warns@.len() implies warns@[i2]
                        != Warn::NonExhaustive by {
                        if i2 < oldw.len() {
                            assert(warns@[i2] == oldw[i2]);
                        }
                    }
                }
                assert(warns@.last() == (Warn::RedundantArm { index: a }));
                assert forall|i: int|
                    0 <= i < a + 1 implies ((exists|w: int|
                        0 <= w < warns@.len() && warns@[w] == (Warn::RedundantArm {
                            index: i as usize,
                        })) <==> !tree_uses_arm(tree, i)) by {
                    if i == a as int {
                        assert(warns@[warns@.len() - 1] == (Warn::RedundantArm {
                            index: i as usize,
                        }));
                    } else {
                        if exists|w: int|
                            0 <= w < warns@.len() && warns@[w] == (Warn::RedundantArm {
                                index: i as usize,
                            }) {
                            let w = choose|w: int|
                                0 <= w < warns@.len() && warns@[w] == (Warn::RedundantArm {
                                    index: i as usize,
                                });
                            assert(w < oldw.len());
                            assert(oldw[w] == (Warn::RedundantArm { index: i as usize }));
                        }
                        if exists|w: int|
                            0 <= w < oldw.len() && oldw[w] == (Warn::RedundantArm {
                                index: i as usize,
                            }) {
                            let w = choose|w: int|
                                0 <= w < oldw.len() && oldw[w] == (Warn::RedundantArm {
                                    index: i as usize,
                                });
                            assert(warns@[w] == (Warn::RedundantArm { index: i as usize }));
                        }
                    }
                }
            }
        } else {
            proof {
                assert forall|i: int|
                    0 <= i < a + 1 implies ((exists|w: int|
                        0 <= w < warns@.len() && warns@[w] == (Warn::RedundantArm {
                            index: i as usize,
                        })) <==> !tree_uses_arm(tree, i)) by {
                    if i == a as int {
                        assert forall|w: int| 0 <= w < warns@.len() implies warns@[w]
                            != (Warn::RedundantArm { index: i as usize }) by {}
                    }
                }
            }
        }
        a = a + 1;
    }
    proof {
        assert(arms_in_range(tree, pats@.len() as nat));
    }
    Ok((tree, warns))
}

} // verus!
