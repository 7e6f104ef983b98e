use vstd::prelude::*;

use crate::mir::{Function, EBB};
use crate::prim::{sym_key, Symbol};

verus! {

/// Declares petgraph's adjacency-list graph so that its values can
/// cross verified signatures; the value stays opaque to the verifier.
#[verifier::external_type_specification]
#[verifier::external_body]
#[verifier::reject_recursive_types(N)]
#[verifier::reject_recursive_types(E)]
#[verifier::reject_recursive_types(Ty)]
#[verifier::reject_recursive_types(Ix)]
pub struct ExGraph<N, E, Ty, Ix>(petgraph::graph::Graph<N, E, Ty, Ix>);

/// Declares petgraph's edge-direction marker, the default type
/// argument of its graphs.
#[verifier::external_type_specification]
#[verifier::external_body]
pub struct ExDirected(petgraph::Directed);

/// The node weights a CFG graph holds, in insertion order; petgraph
/// numbers node slots in exactly that order.
pub uninterp spec fn graph_nodes(g: petgraph::graph::Graph<usize, ()>) -> Seq<usize>;

/// The edges a CFG graph holds, as (source slot, target slot) pairs in
/// insertion order.
pub uninterp spec fn graph_edges(g: petgraph::graph::Graph<usize, ()>) -> Seq<(usize, usize)>;

/// Relies on petgraph's Graph::new: a directed graph with no nodes and
/// no edges.
#[verifier::external_body]
fn graph_new() -> (g: petgraph::graph::Graph<usize, ()>)
    ensures
        graph_nodes(g) == Seq::<usize>::empty(),
        graph_edges(g) == Seq::<(usize, usize)>::empty(),
{
    petgraph::graph::Graph::new()
}

/// Relies on petgraph's Graph::add_node: appends one node slot holding
/// the weight and returns that slot.  The node-count bound keeps the
/// call away from the index-type limit it panics at.
#[verifier::external_body]
fn graph_add_node(g: &mut petgraph::graph::Graph<usize, ()>, w: usize) -> (r: usize)
    requires
        graph_nodes(*old(g)).len() < 0xFFFF_FFFE,
    ensures
        graph_nodes(*final(g)) == graph_nodes(*old(g)).push(w),
        graph_edges(*final(g)) == graph_edges(*old(g)),
        r == graph_nodes(*old(g)).len(),
{
    g.add_node(w).index()
}

/// Relies on petgraph's Graph::add_edge: appends one directed edge
/// between two existing node slots.  The bounds keep the call away
/// from the out-of-bounds and edge-count panics.
#[verifier::external_body]
fn graph_add_edge(g: &mut petgraph::graph::Graph<usize, ()>, a: usize, b: usize)
    requires
        a < graph_nodes(*old(g)).len(),
        b < graph_nodes(*old(g)).len(),
        graph_nodes(*old(g)).len() < 0xFFFF_FFFE,
        graph_edges(*old(g)).len() < 0xFFFF_FFFE,
    ensures
        graph_nodes(*final(g)) == graph_nodes(*old(g)),
        graph_edges(*final(g)) == graph_edges(*old(g)).push((a, b)),
{
    g.add_edge(
        petgraph::graph::NodeIndex::new(a),
        petgraph::graph::NodeIndex::new(b),
        (),
    );
}

/// How many flags of a sequence are set.
spec fn count_true(s: Seq<bool>) -> nat
    decreases s.len(),
{
    if s.len() == 0 {
        0
    } else {
        count_true(s.drop_last()) + if s.last() {
            1nat
        } else {
            0
        }
    }
}

proof fn lemma_count_true_le_len(s: Seq<bool>)
    ensures
        count_true(s) <= s.len(),
    decreases s.len(),
{
    if s.len() > 0 {
        lemma_count_true_le_len(s.drop_last());
    }
}

proof fn lemma_count_true_update(s: Seq<bool>, i: int)
    requires
        0 <= i < s.len(),
        !s[i],
    ensures
        count_true(s.update(i, true)) == count_true(s) + 1,
    decreases s.len(),
{
    let s2 = s.update(i, true);
    if i == s.len() - 1 {
        assert(s2.drop_last() =~= s.drop_last());
    } else {
        assert(s2.drop_last() =~= s.drop_last().update(i, true));
        lemma_count_true_update(s.drop_last(), i);
    }
}

impl EBB {
    /// The names of the blocks the block's terminator can transfer
    /// control to.
    pub fn next_ebbs(&self) -> (r: Vec<Symbol>)
        requires
            self.body@.len() > 0,
            self.body@.last().is_terminator(),
        ensures
            r@ == self.body@.last().targets(),
    {
        let last = self.body.len() - 1;
        let mut r: Vec<Symbol> = Vec::new();
        match &self.body[last] {
            crate::mir::Op::Branch { then, else_, .. } => {
                r.push(then.clone());
                r.push(else_.clone());
            }
            crate::mir::Op::Jump { target, .. } => {
                r.push(target.clone());
            }
            _ => {}
        }
        proof {
            assert(r@ =~= self.body@.last().targets());
        }
        r
    }
}

impl Function {
    /// The position of the first block bearing the given name, if any.
    pub fn find_ebb(&self, name: &Symbol) -> (r: Option<usize>)
        ensures
            match r {
                Some(i) => {
                    &&& i < self.body@.len()
                    &&& sym_key(self.body@[i as int].name) == sym_key(*name)
                    &&& forall|j: int|
                        0 <= j < i ==> sym_key((#[trigger] self.body@[j]).name) != sym_key(*name)
                },
                None => forall|j: int|
                    0 <= j < self.body@.len() ==> sym_key((#[trigger] self.body@[j]).name)
                        != sym_key(*name),
            },
    {
        let mut i: usize = 0;
        while i < self.body.len()
            invariant
                i <= self.body@.len(),
                forall|j: int|
                    0 <= j < i ==> sym_key((#[trigger] self.body@[j]).name) != sym_key(*name),
            decreases self.body@.len() - i,
        {
            if self.body[i].name == *name {
                return Some(i);
            }
            i = i + 1;
        }
        None
    }

    /// One step extends reachability.
    proof fn lemma_step_reachable(self, i: int, j: int)
        requires
            self.reachable(i),
            self.is_succ(i, j),
        ensures
            self.reachable(j),
    {
        let n = choose|n: nat| self.reach_n(i, n);
        assert(self.reach_n(j, n + 1));
    }

    /// A set of discovered blocks that contains the entry block and is
    /// closed under successors contains every reachable block.
    proof fn lemma_closed_covers(self, q: Seq<usize>, i: int, k: nat)
        requires
            self.reach_n(i, k),
            self.body@.len() <= usize::MAX,
            q.contains(0usize),
            forall|s: int, i2: int|
                0 <= s < q.len() && 0 <= i2 < self.body@.len() && self.is_succ(
                    q[s] as int,
                    i2,
                ) ==> q.contains(i2 as usize),
        ensures
            0 <= i < self.body@.len() ==> q.contains(i as usize),
        decreases k,
    {
        if k == 0 {
        } else {
            if self.reach_n(i, (k - 1) as nat) {
                self.lemma_closed_covers(q, i, (k - 1) as nat);
            } else {
                let j = choose|j: int| self.reach_n(j, (k - 1) as nat) && self.is_succ(j, i);
                self.lemma_closed_covers(q, j, (k - 1) as nat);
                assert(0 <= j < self.body@.len());
                assert(q.contains(j as usize));
                let s = choose|s: int| 0 <= s < q.len() && q[s] == j as usize;
                assert(q[s] as int == j);
                assert(self.is_succ(q[s] as int, i));
            }
        }
    }

    /// The control-flow graph of this function: one node per block
    /// reachable from the entry block, holding that block's index, and
    /// one edge per successor relation among those blocks.  Blocks
    /// that cannot be reached are pruned.
    pub fn cfg(&self) -> (g: petgraph::graph::Graph<usize, ()>)
        requires
            self.wf(),
            self.body@.len() < 0x4000_0000,
        ensures
            graph_nodes(g).no_duplicates(),
            graph_nodes(g).len() > 0 && graph_nodes(g)[0] == 0usize,
            forall|s: int| 0 <= s < graph_nodes(g).len() ==> (#[trigger] graph_nodes(g)[s]) < self.body@.len(),
            forall|i: int|
                0 <= i < self.body@.len() ==> (self.reachable(i) <==> graph_nodes(g).contains(
                    i as usize,
                )),
            forall|e: int|
                0 <= e < graph_edges(g).len() ==> {
                    let p = #[trigger] graph_edges(g)[e];
                    &&& (p.0 as int) < graph_nodes(g).len()
                    &&& (p.1 as int) < graph_nodes(g).len()
                    &&& self.is_succ(
                        graph_nodes(g)[p.0 as int] as int,
                        graph_nodes(g)[p.1 as int] as int,
                    )
                },
            forall|u: int, v: int|
                0 <= u < graph_nodes(g).len() && 0 <= v < graph_nodes(g).len() && self.is_succ(
                    graph_nodes(g)[u] as int,
                    graph_nodes(g)[v] as int,
                ) ==> graph_edges(g).contains((u as usize, v as usize)),
    {
        let n = self.body.len();
        let mut g = graph_new();
        let mut seen: Vec<bool> = Vec::new();
        let mut k: usize = 0;
        while k < n
            invariant
                k <= n,
                n == self.body@.len(),
                seen@.len() == k,
                forall|j: int| 0 <= j < k ==> !(#[trigger] seen@[j]),
                count_true(seen@) == 0,
            decreases n - k,
        {
            let ghost prev = seen@;
            seen.push(false);
            proof {
                assert(seen@.drop_last() =~= prev);
            }
            k = k + 1;
        }
        let mut queue: Vec<usize> = Vec::new();
        let mut head: usize = 0;

        proof {
            assert(self.reach_n(0, 0));
            lemma_count_true_update(seen@, 0);
        }
        seen.set(0, true);
        let _slot = graph_add_node(&mut g, 0);
        queue.push(0);
        proof {
            assert(queue@[0] == 0usize);
            assert forall|i: int| 0 <= i < n && #[trigger] seen@[i] implies queue@.contains(
                i as usize,
            ) by {
                assert(i == 0);
            }
        }

        while head < queue.len()
            invariant
                self.wf(),
                n == self.body@.len(),
                n < 0x4000_0000,
                seen@.len() == n,
                head <= queue.len(),
                queue@.len() == count_true(seen@),
                queue@.len() <= n,
                queue@.len() > 0 && queue@[0] == 0usize,
                graph_nodes(g) == queue@,
                graph_edges(g).len() <= 2 * head,
                queue@.no_duplicates(),
                forall|s: int|
                    0 <= s < queue@.len() ==> (#[trigger] queue@[s]) < n && seen@[queue@[s] as int]
                        && self.reachable(queue@[s] as int),
                forall|i: int| 0 <= i < n && #[trigger] seen@[i] ==> queue@.contains(i as usize),
                forall|s: int, i2: int|
                    0 <= s < head && 0 <= i2 < n && self.is_succ(queue@[s] as int, i2) ==> seen@[i2],
                forall|e: int|
                    0 <= e < graph_edges(g).len() ==> {
                        let p = #[trigger] graph_edges(g)[e];
                        &&& (p.0 as int) < queue@.len()
                        &&& (p.1 as int) < queue@.len()
                        &&& self.is_succ(queue@[p.0 as int] as int, queue@[p.1 as int] as int)
                    },
                forall|s: int, v: int|
                    0 <= s < head && 0 <= v < queue@.len() && self.is_succ(
                        queue@[s] as int,
                        queue@[v] as int,
                    ) ==> graph_edges(g).contains((s as usize, v as usize)),
            decreases n - head,
        {
            let u_idx = queue[head];
            assert(self.body@[u_idx as int].wf());
            let nexts = self.body[u_idx].next_ebbs();
            let ghost targets = self.body@[u_idx as int].body@.last().targets();
            let mut t: usize = 0;
            while t < nexts.len()
                invariant
                    self.wf(),
                    n == self.body@.len(),
                    n < 0x4000_0000,
                    seen@.len() == n,
                    head < queue.len(),
                    queue@.len() <= n,
                    queue@.len() > 0 && queue@[0] == 0usize,
                    queue@[head as int] == u_idx,
                    u_idx < n,
                    nexts@ == targets,
                    targets == self.body@[u_idx as int].body@.last().targets(),
                    t <= nexts@.len(),
                    nexts@.len() <= 2,
                    queue@.len() == count_true(seen@),
                    graph_nodes(g) == queue@,
                    graph_edges(g).len() <= 2 * head + t,
                    queue@.no_duplicates(),
                    forall|s: int|
                        0 <= s < queue@.len() ==> (#[trigger] queue@[s]) < n && seen@[queue@[s] as int]
                            && self.reachable(queue@[s] as int),
                    forall|i: int| 0 <= i < n && #[trigger] seen@[i] ==> queue@.contains(i as usize),
                    forall|s: int, i2: int|
                        0 <= s < head && 0 <= i2 < n && self.is_succ(queue@[s] as int, i2)
                            ==> seen@[i2],
                    forall|i2: int|
                        0 <= i2 < n && (exists|tt: int|
                            0 <= tt < t && sym_key(targets[tt]) == sym_key(
                                self.body@[i2].name,
                            )) ==> seen@[i2],
                    forall|e: int|
                        0 <= e < graph_edges(g).len() ==> {
                            let p = #[trigger] graph_edges(g)[e];
                            &&& (p.0 as int) < queue@.len()
                            &&& (p.1 as int) < queue@.len()
                            &&& self.is_succ(queue@[p.0 as int] as int, queue@[p.1 as int] as int)
                        },
                    forall|s: int, v: int|
                        0 <= s < head && 0 <= v < queue@.len() && self.is_succ(
                            queue@[s] as int,
                            queue@[v] as int,
                        ) ==> graph_edges(g).contains((s as usize, v as usize)),
                    forall|v: int|
                        0 <= v < queue@.len() && (exists|tt: int|
                            0 <= tt < t && sym_key(targets[tt]) == sym_key(
                                self.body@[(#[trigger] queue@[v]) as int].name,
                            )) ==> graph_edges(g).contains((head as usize, v as usize)),
                decreases nexts@.len() - t,
            {
                let jopt = self.find_ebb(&nexts[t]);
                proof {
                    if jopt is None {
                        assert(self.has_ebb_named(sym_key(targets[t as int])));
                        assert(false);
                    }
                }
                let j = match jopt {
                    Some(j) => j,
                    None => 0,
                };
                let ghost q0 = queue@;
                let ghost seen0 = seen@;
                let ghost e0 = graph_edges(g);
                let ghost was_seen = seen@[j as int];
                let jslot: usize;
                if !seen[j] {
                    seen.set(j, true);
                    proof {
                        lemma_count_true_update(seen0, j as int);
                        lemma_count_true_le_len(seen@);
                        self.lemma_step_reachable(u_idx as int, j as int);
                        assert forall|x: int| 0 <= x < q0.len() implies (#[trigger] q0[x])
                            != j as usize by {
                            assert(seen0[q0[x] as int]);
                        }
                    }
                    jslot = graph_add_node(&mut g, j);
                    queue.push(j);
                    proof {
                        assert(queue@ == q0.push(j));
                        assert(queue@[q0.len() as int] == j);
                        assert forall|a: int, b: int|
                            0 <= a < queue@.len() && 0 <= b < queue@.len() && a != b
                            implies queue@[a] != queue@[b] by {
                            if a < q0.len() && b < q0.len() {
                                assert(queue@[a] == q0[a] && queue@[b] == q0[b]);
                            } else if a < q0.len() {
                                assert(queue@[a] == q0[a] && q0[a] != j as usize);
                            } else {
                                assert(queue@[b] == q0[b] && q0[b] != j as usize);
                            }
                        }
                        assert(queue@.no_duplicates());
                    }
                } else {
                    match self.find_slot(&queue, j) {
                        Some(s) => {
                            jslot = s;
                        }
                        None => {
                            proof {
                                assert(queue@.contains(j as usize));
                                assert(false);
                            }
                            jslot = 0;
                        }
                    }
                }
                graph_add_edge(&mut g, head, jslot);
                proof {
                    assert(queue@[jslot as int] == j);
                    assert(graph_edges(g) == e0.push((head, jslot)));
                    // an old edge keeps its place after the push
                    assert forall|p: (usize, usize)| e0.contains(p) implies graph_edges(
                        g,
                    ).contains(p) by {
                        let x = choose|x: int| 0 <= x < e0.len() && e0[x] == p;
                        assert(graph_edges(g)[x] == p);
                    }
                    // old queue members keep their place too
                    assert forall|i2: int| 0 <= i2 < n && #[trigger] seen@[i2]
                        implies queue@.contains(i2 as usize) by {
                        if i2 == j as int {
                            assert(queue@[jslot as int] == j);
                        } else {
                            assert(seen0[i2]);
                            let x = choose|x: int| 0 <= x < q0.len() && q0[x] == i2 as usize;
                            assert(queue@[x] == i2 as usize);
                        }
                    }
                    // a name key matched by some prefix of the targets marks a
                    // block this very loop has already seen
                    assert forall|i2: int|
                        0 <= i2 < n && (exists|tt: int|
                            0 <= tt < t + 1 && sym_key(targets[tt]) == sym_key(
                                self.body@[i2].name,
                            )) implies seen@[i2] by {
                        let tt = choose|tt: int|
                            0 <= tt < t + 1 && sym_key(targets[tt]) == sym_key(self.body@[i2].name);
                        if tt == t {
                            assert(sym_key(self.body@[j as int].name) == sym_key(
                                self.body@[i2].name,
                            ));
                            if i2 != j as int {
                                assert(sym_key(self.body@[i2].name) != sym_key(
                                    self.body@[j as int].name,
                                ));
                            }
                        } else {
                            assert(seen0[i2]);
                        }
                    }
                    // edges of blocks processed earlier stay complete: a fresh
                    // queue member cannot be their successor, else it would
                    // already have been seen
                    assert forall|s: int, v: int|
                        0 <= s < head && 0 <= v < queue@.len() && self.is_succ(
                            queue@[s] as int,
                            queue@[v] as int,
                        ) implies graph_edges(g).contains((s as usize, v as usize)) by {
                        if v < q0.len() {
                            assert(queue@[s] == q0[s] && queue@[v] == q0[v]);
                            assert(e0.contains((s as usize, v as usize)));
                        } else {
                            assert(queue@[v] == j);
                            assert(self.is_succ(q0[s] as int, j as int));
                            assert(seen0[j as int]);
                            assert(false);
                        }
                    }
                    // and the block in hand now covers one more target
                    assert forall|v: int|
                        0 <= v < queue@.len() && (exists|tt: int|
                            0 <= tt < t + 1 && sym_key(targets[tt]) == sym_key(
                                self.body@[(#[trigger] queue@[v]) as int].name,
                            )) implies graph_edges(g).contains((head as usize, v as usize)) by {
                        let tt = choose|tt: int|
                            0 <= tt < t + 1 && sym_key(targets[tt]) == sym_key(
                                self.body@[queue@[v] as int].name,
                            );
                        if tt == t {
                            let i2 = queue@[v] as int;
                            assert(sym_key(self.body@[i2].name) == sym_key(
                                self.body@[j as int].name,
                            ));
                            if i2 != j as int {
                                assert(false);
                            }
                            assert(queue@[v] == queue@[jslot as int]);
                            assert(v == jslot as int);
                            assert(graph_edges(g).last() == (head, jslot));
                        } else {
                            if v < q0.len() {
                                assert(e0.contains((head as usize, v as usize)));
                            } else {
                                assert(queue@[v] == j);
                                assert(seen0[j as int]);
                                assert(false);
                            }
                        }
                    }
                }
                t = t + 1;
            }
            proof {
                assert forall|s: int, i2: int|
                    0 <= s < head + 1 && 0 <= i2 < n && self.is_succ(queue@[s] as int, i2)
                    implies seen@[i2] by {
                    if s == head {
                        let tt = choose|tt: int|
                            0 <= tt < targets.len() && sym_key(targets[tt]) == sym_key(
                                self.body@[i2].name,
                            );
                        assert(seen@[i2]);
                    }
                }
                assert forall|s: int, v: int|
                    0 <= s < head + 1 && 0 <= v < queue@.len() && self.is_succ(
                        queue@[s] as int,
                        queue@[v] as int,
                    ) implies graph_edges(g).contains((s as usize, v as usize)) by {
                    if s == head {
                        assert(queue@[s] == u_idx);
                        let tt = choose|tt: int|
                            0 <= tt < targets.len() && sym_key(targets[tt]) == sym_key(
                                self.body@[queue@[v] as int].name,
                            );
                    }
                }
            }
            head = head + 1;
        }
        proof {
            assert forall|i: int| 0 <= i < self.body@.len() && self.reachable(i)
                implies graph_nodes(g).contains(i as usize) by {
                let k0 = choose|k0: nat| self.reach_n(i, k0);
                assert(queue@[0] == 0usize);
                assert(queue@.contains(0usize));
                assert forall|s: int, i2: int|
                    0 <= s < queue@.len() && 0 <= i2 < self.body@.len() && self.is_succ(
                        queue@[s] as int,
                        i2,
                    ) implies queue@.contains(i2 as usize) by {
                    assert(seen@[i2]);
                }
                self.lemma_closed_covers(queue@, i, k0);
            }
        }
        g
    }

    /// The position of a block index inside the discovery queue, if
    /// present.
    fn find_slot(&self, queue: &Vec<usize>, j: usize) -> (r: Option<usize>)
        ensures
            match r {
                Some(s) => s < queue@.len() && queue@[s as int] == j,
                None => !queue@.contains(j),
            },
    {
        let mut s: usize = 0;
        while s < queue.len()
            invariant
                s <= queue@.len(),
                forall|x: int| 0 <= x < s ==> (#[trigger] queue@[x]) != j,
            decreases queue@.len() - s,
        {
            if queue[s] == j {
                return Some(s);
            }
            s = s + 1;
        }
        proof {
            if queue@.contains(j) {
                let x = choose|x: int| 0 <= x < queue@.len() && queue@[x] == j;
                assert(false);
            }
        }
        None
    }
}

} // verus!
