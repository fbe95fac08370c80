//! The scene graph: each entity has at most one parent, and no entity is its own ancestor.
use vstd::prelude::*;
use vstd::relations::injective_on;
use vstd::set_lib::{lemma_int_range, lemma_len_subset, lemma_map_size, set_int_range};

verus! {

/// An opaque entity identifier, shared by the scene graph and the physics mirror.
#[derive(Clone, Copy, Debug, PartialEq, Eq, Structural)]
pub struct Entity(pub usize);

#[derive(Clone, Copy, Debug, PartialEq, Eq, Structural)]
pub enum SceneError {
    /// The new parent does not exist, the child does not exist, or the edge would close a cycle.
    InvalidParent,
}

/// Parent edges, indexed by entity.
pub struct SceneGraph {
    pub parents: Vec<Option<Entity>>,
}

/// The parent of `a` in `ps`, if `a` is an entity of `ps` and has one.
pub open spec fn parent_index(ps: Seq<Option<Entity>>, a: int) -> Option<int> {
    if 0 <= a < ps.len() {
        match ps[a] {
            Some(p) => Some(p.0 as int),
            None => None,
        }
    } else {
        None
    }
}

/// The ancestor `k` steps above `e` (`e` itself for `k == 0`), if the chain is that long.
pub open spec fn ancestor(ps: Seq<Option<Entity>>, e: int, k: nat) -> Option<int>
    decreases k,
{
    if k == 0 {
        Some(e)
    } else {
        match ancestor(ps, e, (k - 1) as nat) {
            Some(a) => parent_index(ps, a),
            None => None,
        }
    }
}

/// `a` is `d` or one of its ancestors.
pub open spec fn is_ancestor(ps: Seq<Option<Entity>>, a: int, d: int) -> bool {
    exists|k: nat| ancestor(ps, d, k) == Some(a)
}

/// Every parent edge points at an entity of the graph.
pub open spec fn parents_in_range(ps: Seq<Option<Entity>>) -> bool {
    forall|i: int| 0 <= i < ps.len() && (#[trigger] ps[i]) is Some ==> (ps[i]->0).0 < ps.len()
}

/// No entity is its own proper ancestor.
pub open spec fn acyclic(ps: Seq<Option<Entity>>) -> bool {
    forall|e: int, k: nat| 0 <= e < ps.len() && k > 0 ==> #[trigger] ancestor(ps, e, k) != Some(e)
}

pub open spec fn graph_wf(ps: Seq<Option<Entity>>) -> bool {
    parents_in_range(ps) && acyclic(ps)
}

/// Walking `i` steps and then `d` more is walking `i + d` steps.
pub proof fn lemma_ancestor_compose(ps: Seq<Option<Entity>>, x: int, i: nat, d: nat)
    ensures
        ancestor(ps, x, i + d) == match ancestor(ps, x, i) {
            Some(a) => ancestor(ps, a, d),
            None => None,
        },
    decreases d,
{
    if d > 0 {
        lemma_ancestor_compose(ps, x, i, (d - 1) as nat);
        assert((i + d - 1) as nat == i + (d - 1) as nat);
    }
}

/// An ancestor chain that has ended stays ended.
proof fn lemma_ancestor_none_monotone(ps: Seq<Option<Entity>>, x: int, j: nat, k: nat)
    requires
        j <= k,
        ancestor(ps, x, j) is None,
    ensures
        ancestor(ps, x, k) is None,
    decreases k - j,
{
    if j < k {
        lemma_ancestor_none_monotone(ps, x, j, (k - 1) as nat);
    }
}

proof fn lemma_ancestor_in_range(ps: Seq<Option<Entity>>, x: int, k: nat)
    requires
        parents_in_range(ps),
        0 <= x < ps.len(),
        ancestor(ps, x, k) is Some,
    ensures
        0 <= ancestor(ps, x, k)->0 < ps.len(),
    decreases k,
{
    if k > 0 {
        lemma_ancestor_compose(ps, x, (k - 1) as nat, 1);
        if ancestor(ps, x, (k - 1) as nat) is None {
        } else {
            lemma_ancestor_in_range(ps, x, (k - 1) as nat);
            let a = ancestor(ps, x, (k - 1) as nat)->0;
            assert(ps[a] is Some);
        }
    }
}

/// In a well-formed graph every ancestor chain ends within as many steps as there are entities.
pub proof fn lemma_chain_short(ps: Seq<Option<Entity>>, e: int, k: nat)
    requires
        graph_wf(ps),
        0 <= e < ps.len(),
        ancestor(ps, e, k) is Some,
    ensures
        k < ps.len(),
{
    let n = ps.len() as int;
    if k >= n {
        assert forall|j: int| 0 <= j <= n implies #[trigger] ancestor(ps, e, j as nat) is Some
            && 0 <= ancestor(ps, e, j as nat)->0 < n by {
            if ancestor(ps, e, j as nat) is None {
                lemma_ancestor_none_monotone(ps, e, j as nat, k);
            }
            lemma_ancestor_in_range(ps, e, j as nat);
        }
        let f = |j: int| ancestor(ps, e, j as nat)->0;
        let xs = set_int_range(0, n + 1);
        lemma_int_range(0, n + 1);
        lemma_int_range(0, n);
        if injective_on(f, xs) {
            lemma_map_size(xs, xs.map(f), f);
            assert(xs.map(f).subset_of(set_int_range(0, n)));
            lemma_len_subset(xs.map(f), set_int_range(0, n));
        } else {
            let (i, j) = choose|i: int, j: int|
                xs.contains(i) && xs.contains(j) && f(i) == f(j) && i != j;
            let (lo, hi) = if i < j {
                (i, j)
            } else {
                (j, i)
            };
            let a = f(lo);
            assert(ancestor(ps, e, lo as nat) is Some);
            assert(ancestor(ps, e, hi as nat) is Some);
            lemma_ancestor_compose(ps, e, lo as nat, (hi - lo) as nat);
            assert(lo as nat + (hi - lo) as nat == hi as nat);
            assert(ancestor(ps, a, (hi - lo) as nat) == Some(a));
        }
    }
}

/// Where the new chain from `x` avoids `c`, it agrees with the old one.
pub proof fn lemma_chain_unchanged(ps: Seq<Option<Entity>>, c: int, p: Entity, x: int, k: nat)
    requires
        0 <= c < ps.len(),
        forall|j: nat| j < k ==> #[trigger] ancestor(ps.update(c, Some(p)), x, j) != Some(c),
    ensures
        ancestor(ps.update(c, Some(p)), x, k) == ancestor(ps, x, k),
    decreases k,
{
    if k > 0 {
        lemma_chain_unchanged(ps, c, p, x, (k - 1) as nat);
        assert(ancestor(ps.update(c, Some(p)), x, (k - 1) as nat) != Some(c));
    }
}

/// After pointing `c` at `p`, the chain from `p` still never reaches `c`.
proof fn lemma_new_chain_avoids(ps: Seq<Option<Entity>>, c: int, p: Entity, k: nat)
    requires
        0 <= c < ps.len(),
        !is_ancestor(ps, c, p.0 as int),
    ensures
        ancestor(ps.update(c, Some(p)), p.0 as int, k) == ancestor(ps, p.0 as int, k),
        ancestor(ps, p.0 as int, k) != Some(c),
    decreases k,
{
    if k > 0 {
        lemma_new_chain_avoids(ps, c, p, (k - 1) as nat);
    }
}

/// Pointing `c` at `p` keeps the graph well formed when `c` is not `p` or an ancestor of it.
pub proof fn lemma_set_parent_wf(ps: Seq<Option<Entity>>, c: int, p: Entity)
    requires
        graph_wf(ps),
        0 <= c < ps.len(),
        p.0 < ps.len(),
        !is_ancestor(ps, c, p.0 as int),
    ensures
        graph_wf(ps.update(c, Some(p))),
{
    let qs = ps.update(c, Some(p));
    assert forall|e: int, k: nat| 0 <= e < qs.len() && k > 0 implies #[trigger] ancestor(
        qs,
        e,
        k,
    ) != Some(e) by {
        if ancestor(qs, e, k) == Some(e) {
            if exists|j: nat| j < k && #[trigger] ancestor(qs, e, j) == Some(c) {
                let j = choose|j: nat| j < k && #[trigger] ancestor(qs, e, j) == Some(c);
                let d = (k - j - 1) as nat;
                lemma_ancestor_compose(qs, e, j, (k - j) as nat);
                assert(j + (k - j) as nat == k);
                lemma_ancestor_compose(qs, c, 1, d);
                assert(ancestor(qs, c, 1) == Some(p.0 as int)) by {
                    assert(ancestor(qs, c, 0) == Some(c));
                }
                assert(1 + d == (k - j) as nat);
                assert(ancestor(qs, p.0 as int, d) == Some(e));
                lemma_ancestor_compose(qs, p.0 as int, d, j);
                lemma_new_chain_avoids(ps, c, p, d + j);
            } else {
                lemma_chain_unchanged(ps, c, p, e, k);
            }
        }
    }
}

impl SceneGraph {
    pub open spec fn wf(&self) -> bool {
        graph_wf(self.parents@)
    }

    pub fn new() -> (r: SceneGraph)
        ensures
            r.wf(),
            r.parents@ == Seq::<Option<Entity>>::empty(),
    {
        SceneGraph { parents: Vec::new() }
    }

    pub fn len(&self) -> (r: usize)
        ensures
            r == self.parents@.len(),
    {
        self.parents.len()
    }

    /// Adds an entity with no parent.
    pub fn spawn(&mut self) -> (r: Entity)
        requires
            old(self).wf(),
            old(self).parents@.len() < usize::MAX,
        ensures
            final(self).wf(),
            r.0 == old(self).parents@.len(),
            final(self).parents@ == old(self).parents@.push(None),
    {
        let r = Entity(self.parents.len());
        self.parents.push(None);
        proof {
            let ps = old(self).parents@;
            let qs = self.parents@;
            assert forall|x: int, k: nat| 0 <= x < ps.len() implies #[trigger] ancestor(qs, x, k)
                == ancestor(ps, x, k) by {
                lemma_ancestor_agree(ps, qs, x, k);
            }
            assert forall|x: int, k: nat| 0 <= x < qs.len() && k > 0 implies #[trigger] ancestor(
                qs,
                x,
                k,
            ) != Some(x) by {
                if x == ps.len() {
                    lemma_ancestor_compose(qs, x, 1, (k - 1) as nat);
                    assert(1 + (k - 1) as nat == k);
                    assert(ancestor(qs, x, 1) is None) by {
                        assert(ancestor(qs, x, 0) == Some(x));
                    }
                } else {
                    lemma_ancestor_agree(ps, qs, x, k);
                }
            }
        }
        r
    }

    /// The parent of `e`; `None` for a root or an unknown entity.
    pub fn parent_of(&self, e: Entity) -> (r: Option<Entity>)
        ensures
            e.0 < self.parents@.len() ==> r == self.parents@[e.0 as int],
            e.0 >= self.parents@.len() ==> r is None,
    {
        if e.0 < self.parents.len() {
            self.parents[e.0]
        } else {
            None
        }
    }

    /// Makes `new_parent` the parent of `child`, unless that would close a cycle.
    pub fn set_parent(&mut self, child: Entity, new_parent: Entity) -> (r: Result<(), SceneError>)
        requires
            old(self).wf(),
        ensures
            final(self).wf(),
            r is Err <==> (child.0 >= old(self).parents@.len() || new_parent.0 >= old(
                self,
            ).parents@.len() || is_ancestor(old(self).parents@, child.0 as int, new_parent.0 as int)),
            r is Ok ==> final(self).parents@ == old(self).parents@.update(
                child.0 as int,
                Some(new_parent),
            ),
            r is Err ==> final(self).parents@ == old(self).parents@,
    {
        let n = self.parents.len();
        if child.0 >= n || new_parent.0 >= n {
            return Err(SceneError::InvalidParent);
        }
        let ghost ps = self.parents@;
        let mut cur: Option<Entity> = Some(new_parent);
        let ghost mut k: nat = 0;
        while cur.is_some()
            invariant
                self.parents@ == ps,
                graph_wf(ps),
                n == ps.len(),
                child.0 < n,
                new_parent.0 < n,
                k <= n,
                cur matches Some(a) ==> ancestor(ps, new_parent.0 as int, k) == Some(a.0 as int),
                cur is None ==> ancestor(ps, new_parent.0 as int, k) is None,
                forall|j: nat| j < k ==> #[trigger] ancestor(ps, new_parent.0 as int, j) != Some(
                    child.0 as int,
                ),
            decreases n - k,
        {
            let a = cur.unwrap();
            proof {
                lemma_chain_short(ps, new_parent.0 as int, k);
                lemma_ancestor_in_range(ps, new_parent.0 as int, k);
            }
            if a.0 == child.0 {
                return Err(SceneError::InvalidParent);
            }
            cur = self.parents[a.0];
            proof {
                k = k + 1;
            }
        }
        proof {
            assert forall|j: nat| #[trigger] ancestor(ps, new_parent.0 as int, j) != Some(
                child.0 as int,
            ) by {
                if j >= k {
                    lemma_ancestor_none_monotone(ps, new_parent.0 as int, k, j);
                }
            }
            lemma_set_parent_wf(ps, child.0 as int, new_parent);
        }
        self.parents.set(child.0, Some(new_parent));
        Ok(())
    }
}

/// Appending entities leaves the chains of existing entities as they were.
proof fn lemma_ancestor_agree(ps: Seq<Option<Entity>>, qs: Seq<Option<Entity>>, x: int, k: nat)
    requires
        parents_in_range(ps),
        ps.len() <= qs.len(),
        forall|i: int| 0 <= i < ps.len() ==> qs[i] == ps[i],
        0 <= x < ps.len(),
    ensures
        ancestor(qs, x, k) == ancestor(ps, x, k),
    decreases k,
{
    if k > 0 {
        lemma_ancestor_agree(ps, qs, x, (k - 1) as nat);
        if ancestor(ps, x, (k - 1) as nat) is Some {
            lemma_ancestor_in_range(ps, x, (k - 1) as nat);
        }
    }
}

} // verus!
