use vstd::prelude::*;

verus! {

/// The mathematical identity of a symbol: its printed name and its
/// generation counter.
pub open spec fn sym_key(s: Symbol) -> (Seq<char>, u64) {
    (s.name@, s.id)
}

/// A name paired with a generation counter.  Equality is structural
/// over both parts.  Symbols written in source code carry counter 0;
/// compiler-introduced symbols get a positive counter from
/// [`SymbolTable::fresh`], which makes them distinct from every source
/// name and from each other.
#[derive(Debug)]
pub struct Symbol {
    pub name: String,
    pub id: u64,
}

impl Symbol {
    /// A symbol as it appears in source code: counter 0.
    pub fn new(name: String) -> (r: Symbol)
        ensures
            r.name == name,
            r.id == 0,
    {
        Symbol { name, id: 0 }
    }
}

impl PartialEq for Symbol {
    fn eq(&self, o: &Symbol) -> (r: bool) {
        self.id == o.id && self.name == o.name
    }
}

impl vstd::std_specs::cmp::PartialEqSpecImpl for Symbol {
    open spec fn obeys_eq_spec() -> bool {
        true
    }

    open spec fn eq_spec(&self, o: &Symbol) -> bool {
        self.id == o.id && self.name@ == o.name@
    }
}

impl Clone for Symbol {
    fn clone(&self) -> (r: Self)
        ensures
            r == *self,
    {
        Symbol { name: self.name.clone(), id: self.id }
    }
}

/// The allocator of fresh symbols: a monotonic counter threaded through
/// the whole compilation, so every `fresh` result is unique.
pub struct SymbolTable {
    pub next: u64,
}

impl SymbolTable {
    pub fn new() -> (r: SymbolTable)
        ensures
            r.next == 1,
    {
        SymbolTable { next: 1 }
    }

    /// A symbol for a name introduced by source code.  Two identical
    /// source names yield equal symbols; distinguishing separate
    /// bindings of one name is the renamer's business, done with
    /// `fresh`.
    pub fn intern(&self, name: String) -> (r: Symbol)
        ensures
            r.name == name,
            r.id == 0,
    {
        Symbol { name, id: 0 }
    }

    /// A symbol no other call has produced: print form `hint`
    /// disambiguated by the counter.
    pub fn fresh(&mut self, hint: String) -> (r: Symbol)
        requires
            old(self).next < u64::MAX,
        ensures
            r.name == hint,
            r.id == old(self).next,
            final(self).next == old(self).next + 1,
    {
        let id = self.next;
        self.next = self.next + 1;
        Symbol { name: hint, id }
    }
}

/// A violated compiler invariant.  The pipeline cannot recover from
/// one: the IR would be inconsistent, so it is surfaced as a value
/// and ends the run.
#[derive(PartialEq, Eq, Structural, Clone, Copy, Debug)]
pub struct InternalError;

/// A literal constant.  The middle end never computes with reals, it
/// only moves them, so a real is carried as the raw bit pattern of an
/// IEEE-754 double.
#[derive(PartialEq, Eq, Structural, Clone, Copy, Debug)]
pub enum Literal {
    Int(i64),
    Real(u64),
    Char(u32),
}

/// The fixed enumeration of built-in operations reachable through
/// `_builtincall`.
#[derive(PartialEq, Eq, Structural, Clone, Copy, Debug)]
pub enum BIF {
    Add,
    Sub,
    Mul,
    Div,
    Mod,
    Eq,
    Neq,
    Gt,
    Ge,
    Lt,
    Le,
}

} // verus!
