use vstd::prelude::*;

use crate::hir::HTy;
use crate::prim::{sym_key, Literal, Symbol, BIF};

pub mod cfg;

verus! {

/// A whole compilation unit in the low IR.
pub struct MIR(pub Vec<Function>);

/// A function: typed parameters and a flat vector of extended basic
/// blocks.  The entry block is the one at index 0.  Control flow
/// between blocks goes by block *name*; the CFG resolves names to
/// indices.
pub struct Function {
    pub name: Symbol,
    pub params: Vec<(HTy, Symbol)>,
    pub ret_ty: HTy,
    pub body: Vec<EBB>,
}

/// An extended basic block: straight-line operations ending in exactly
/// one terminator.  Block parameters stand in for phi nodes.
pub struct EBB {
    pub name: Symbol,
    pub params: Vec<(HTy, Symbol)>,
    pub body: Vec<Op>,
}

/// One operation.  `Jump`, `Branch` and `Ret` are the terminators; a
/// well-formed block holds exactly one, in last position.
pub enum Op {
    Lit { var: Symbol, ty: HTy, value: Literal },
    Builtin { var: Symbol, ty: HTy, fun: BIF, args: Vec<Symbol> },
    Alias { var: Symbol, ty: HTy, src: Symbol },
    MkTuple { var: Symbol, tys: Vec<HTy>, tuple: Vec<Symbol> },
    MkClosure { var: Symbol, ty: HTy, fname: Symbol, envs: Vec<Symbol> },
    MkCtor { var: Symbol, ty: HTy, descriminant: u64, arg: Option<Symbol> },
    Proj { var: Symbol, ty: HTy, index: u64, tuple: Symbol },
    Tag { var: Symbol, value: Symbol },
    Call { var: Symbol, ty: HTy, fun: Symbol, arg: Symbol },
    ExternCall { var: Symbol, ty: HTy, module: String, fun: String, args: Vec<Symbol> },
    Jump { target: Symbol, args: Vec<Symbol> },
    Branch { cond: Symbol, then: Symbol, then_args: Vec<Symbol>, else_: Symbol, else_args: Vec<Symbol> },
    Ret { value: Symbol },
}

impl Op {
    /// Whether this operation may stand last in a block.
    pub open spec fn is_terminator(self) -> bool {
        match self {
            Op::Jump { .. } => true,
            Op::Branch { .. } => true,
            Op::Ret { .. } => true,
            _ => false,
        }
    }

    /// The block names a terminator transfers control to, in order:
    /// `Branch` to its two targets, `Jump` to one, `Ret` to none.
    pub open spec fn targets(self) -> Seq<Symbol> {
        match self {
            Op::Branch { then, else_, .. } => seq![then, else_],
            Op::Jump { target, .. } => seq![target],
            _ => Seq::empty(),
        }
    }
}

impl EBB {
    /// Exactly one terminator, in last position.
    pub open spec fn wf(self) -> bool {
        &&& self.body@.len() > 0
        &&& self.body@.last().is_terminator()
        &&& forall|i: int| 0 <= i < self.body@.len() - 1 ==> !(#[trigger] self.body@[i]).is_terminator()
    }
}

impl Function {
    /// Block names are unique within the function.
    pub open spec fn names_unique(self) -> bool {
        forall|i: int, j: int|
            0 <= i < j < self.body@.len() ==> sym_key(self.body@[i].name) != sym_key(
                self.body@[j].name,
            )
    }

    /// Some block of this function bears the given name.
    pub open spec fn has_ebb_named(self, k: (Seq<char>, u64)) -> bool {
        exists|j: int| 0 <= j < self.body@.len() && sym_key((#[trigger] self.body@[j]).name) == k
    }

    /// Every block is well formed and every terminator references
    /// blocks that exist in this function; block names are unique and
    /// there is an entry block.
    pub open spec fn wf(self) -> bool {
        &&& self.body@.len() > 0
        &&& self.names_unique()
        &&& forall|i: int| 0 <= i < self.body@.len() ==> (#[trigger] self.body@[i]).wf()
        &&& forall|i: int, t: int|
            0 <= i < self.body@.len() && 0 <= t < self.body@[i].body@.last().targets().len()
                ==> self.has_ebb_named(
                sym_key(#[trigger] self.body@[i].body@.last().targets()[t]),
            )
    }

    /// Block `j` is a control-flow successor of block `i`.
    pub open spec fn is_succ(self, i: int, j: int) -> bool {
        &&& 0 <= i < self.body@.len()
        &&& 0 <= j < self.body@.len()
        &&& exists|t: int|
            0 <= t < self.body@[i].body@.last().targets().len() && sym_key(
                #[trigger] self.body@[i].body@.last().targets()[t],
            ) == sym_key(self.body@[j].name)
    }

    /// Block `i` can be discovered from the entry block in at most `n`
    /// successor steps.
    pub open spec fn reach_n(self, i: int, n: nat) -> bool
        decreases n,
    {
        if n == 0 {
            i == 0
        } else {
            self.reach_n(i, (n - 1) as nat) || exists|j: int|
                self.reach_n(j, (n - 1) as nat) && #[trigger] self.is_succ(j, i)
        }
    }

    /// Block `i` is reachable from the entry block.
    pub open spec fn reachable(self, i: int) -> bool {
        exists|n: nat| self.reach_n(i, n)
    }
}

impl MIR {
    /// Every function of the unit is well formed; in particular every
    /// terminator of every function references blocks that exist in
    /// that same function.
    pub open spec fn wf(self) -> bool {
        forall|i: int| 0 <= i < self.0@.len() ==> (#[trigger] self.0@[i]).wf()
    }
}

} // verus!
