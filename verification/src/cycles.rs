//! Dependency cycles among the symbols type resolution waits on.
//!
//! A symbol `a` depends directly on a symbol `b` when one of the expressions pending on `b` has
//! `a` as its parent: `let a = b + 1` leaves `b` pending with an expression of `a`. A new
//! reference from `parent` to `found` closes a cycle when `found` already depends on `parent`.
use vstd::prelude::*;
use crate::ids::SymbolId;
use crate::type_context::{PendingExprKind, PendingSymbol, TypeContext};

verus! {

broadcast use vstd::std_specs::hash::group_hash_axioms;

/// A reference from `parent_sym_id` to `found_sym_id` that would close a dependency cycle:
/// `found_sym_id` already depends on `parent_sym_id`.
#[derive(Debug, PartialEq, Eq, Clone, Copy, Structural)]
pub struct DependencyCycle {
    pub parent_sym_id: SymbolId,
    pub found_sym_id: SymbolId,
}

/// Expression `k` pending on `sym` in `queue` has `dependent` as its parent.
pub open spec fn waits_at(queue: Map<SymbolId, PendingSymbol>, dependent: SymbolId, sym: SymbolId, k: int) -> bool {
    &&& 0 <= k < queue[sym].pending_exprs@.len()
    &&& queue[sym].pending_exprs@[k].kind matches PendingExprKind::Parent(base)
    &&& base.parent_sym_id == dependent
}

/// `dependent` depends directly on `sym`: an expression pending on `sym` has `dependent` as its
/// parent.
pub open spec fn depends_directly(queue: Map<SymbolId, PendingSymbol>, dependent: SymbolId, sym: SymbolId) -> bool {
    &&& queue.contains_key(sym)
    &&& exists|k: int| #[trigger] waits_at(queue, dependent, sym, k)
}

/// `path` is a chain of direct dependencies from its first symbol to its last.
pub open spec fn is_dependency_path(queue: Map<SymbolId, PendingSymbol>, path: Seq<SymbolId>) -> bool {
    &&& path.len() >= 1
    &&& forall|i: int| 0 <= i < path.len() - 1 ==> #[trigger] depends_directly(queue, path[i], path[i + 1])
}

/// `a` depends on `b`, directly or through other symbols; every symbol depends on itself.
pub open spec fn depends_on(queue: Map<SymbolId, PendingSymbol>, a: SymbolId, b: SymbolId) -> bool {
    exists|path: Seq<SymbolId>| #[trigger] is_dependency_path(queue, path) && path[0] == a && path.last() == b
}

/// A symbol depends on itself.
proof fn lemma_depends_self(queue: Map<SymbolId, PendingSymbol>, a: SymbolId)
    ensures
        depends_on(queue, a, a),
{
    let path = seq![a];
    assert(is_dependency_path(queue, path));
}

/// Depending on `b`, which depends directly on `c`, is depending on `c`.
proof fn lemma_depends_step(queue: Map<SymbolId, PendingSymbol>, a: SymbolId, b: SymbolId, c: SymbolId)
    requires
        depends_on(queue, a, b),
        depends_directly(queue, b, c),
    ensures
        depends_on(queue, a, c),
{
    let path = choose|path: Seq<SymbolId>| #[trigger] is_dependency_path(queue, path) && path[0] == a && path.last() == b;
    let longer = path.push(c);
    assert forall|i: int| 0 <= i < longer.len() - 1 implies #[trigger] depends_directly(queue, longer[i], longer[i + 1]) by {
        if i < path.len() - 1 {
            assert(longer[i] == path[i] && longer[i + 1] == path[i + 1]);
        } else {
            assert(longer[i] == b && longer[i + 1] == c);
        }
    }
    assert(is_dependency_path(queue, longer));
}

/// A set of symbols holding `a` and every symbol its members depend on directly holds every
/// symbol `a` depends on.
proof fn lemma_closed_holds_dependencies(queue: Map<SymbolId, PendingSymbol>, closed: Set<SymbolId>, a: SymbolId, b: SymbolId)
    requires
        closed.contains(a),
        forall|v: SymbolId, w: SymbolId| closed.contains(v) && #[trigger] depends_directly(queue, v, w) ==> closed.contains(w),
        depends_on(queue, a, b),
    ensures
        closed.contains(b),
{
    let path = choose|path: Seq<SymbolId>| #[trigger] is_dependency_path(queue, path) && path[0] == a && path.last() == b;
    lemma_closed_holds_path(queue, closed, path, path.len() - 1);
}

/// Every symbol of a dependency path starting in a closed set is in the set.
proof fn lemma_closed_holds_path(queue: Map<SymbolId, PendingSymbol>, closed: Set<SymbolId>, path: Seq<SymbolId>, i: int)
    requires
        is_dependency_path(queue, path),
        closed.contains(path[0]),
        forall|v: SymbolId, w: SymbolId| closed.contains(v) && #[trigger] depends_directly(queue, v, w) ==> closed.contains(w),
        0 <= i < path.len(),
    ensures
        closed.contains(path[i]),
    decreases i,
{
    if i > 0 {
        lemma_closed_holds_path(queue, closed, path, i - 1);
        assert(depends_directly(queue, path[i - 1], path[(i - 1) + 1]));
    }
}

/// Whether `list` holds `sym`.
fn holds_symbol(list: &Vec<SymbolId>, sym: SymbolId) -> (res: bool)
    ensures
        res == list@.contains(sym),
{
    let mut k: usize = 0;
    while k < list.len()
        invariant
            0 <= k <= list.len(),
            forall|j: int| 0 <= j < k ==> list@[j] != sym,
        decreases list.len() - k,
    {
        if list[k] == sym {
            return true;
        }
        k = k + 1;
    }
    false
}

impl TypeContext {
    /// Checks whether a reference from `parent_sym_id` to `found_sym_id`, found while evaluating
    /// the expression of `parent_sym_id`, closes a dependency cycle: it does when `found_sym_id`
    /// depends on `parent_sym_id`, itself included. Walks the symbols `found_sym_id` depends on,
    /// each once.
    pub fn check_cycle(&self, parent_sym_id: SymbolId, found_sym_id: SymbolId) -> (res: Result<(), DependencyCycle>)
        ensures
            res is Err <==> depends_on(self.sym_queue@, found_sym_id, parent_sym_id),
            res matches Err(cycle) ==> cycle == (DependencyCycle { parent_sym_id, found_sym_id }),
    {
        let ghost queue = self.sym_queue@;
        let ghost universe = queue.dom().insert(found_sym_id);
        let mut stack: Vec<SymbolId> = vec![found_sym_id];
        let mut visited: Vec<SymbolId> = Vec::new();
        proof {
            lemma_depends_self(queue, found_sym_id);
            assert(stack@[0] == found_sym_id);
        }
        while stack.len() > 0
            invariant
                queue == self.sym_queue@,
                universe == queue.dom().insert(found_sym_id),
                universe.finite(),
                forall|i: int| 0 <= i < stack.len() ==> universe.contains(#[trigger] stack@[i]),
                forall|i: int| 0 <= i < stack.len() ==> depends_on(queue, found_sym_id, #[trigger] stack@[i]),
                forall|i: int| 0 <= i < visited.len() ==> universe.contains(#[trigger] visited@[i]),
                forall|i: int| 0 <= i < visited.len() ==> depends_on(queue, found_sym_id, #[trigger] visited@[i]),
                !visited@.contains(parent_sym_id),
                visited@.contains(found_sym_id) || stack@.contains(found_sym_id),
                forall|v: SymbolId, w: SymbolId|
                    visited@.contains(v) && #[trigger] depends_directly(queue, v, w) ==> visited@.contains(w)
                        || stack@.contains(w),
            decreases universe.difference(visited@.to_set()).len(), stack.len(),
        {
            let ghost before = stack@;
            let ghost seen = visited@;
            let current = stack.pop().unwrap();
            let ghost popped = stack@;
            proof {
                assert(before == popped.push(current));
                assert(before[before.len() - 1] == current);
                assert(depends_on(queue, found_sym_id, current));
                assert(universe.contains(current));
            }
            if current == parent_sym_id {
                return Err(DependencyCycle { parent_sym_id, found_sym_id });
            }
            if holds_symbol(&visited, current) {
                proof {
                    assert forall|w: SymbolId| before.contains(w) implies visited@.contains(w) || stack@.contains(w) by {
                        let i = choose|i: int| 0 <= i < before.len() && before[i] == w;
                        if i < popped.len() {
                            assert(stack@[i] == w);
                        }
                    }
                }
                continue;
            }
            visited.push(current);
            let it = self.sym_queue.iter();
            let ghost all = vstd::std_specs::iter::IteratorSpec::remaining(&it);
            for pair in walk: it
                invariant
                    queue == self.sym_queue@,
                    walk.seq() == all,
                    all == vstd::std_specs::iter::IteratorSpec::remaining(&vstd::std_specs::hash::spec_hash_map_iter(&self.sym_queue)),
                    stack@.len() >= popped.len(),
                    stack@.take(popped.len() as int) == popped,
                    forall|i: int| popped.len() <= i < stack.len() ==> depends_directly(queue, current, #[trigger] stack@[i]),
                    forall|k: int| 0 <= k < walk.index() && depends_directly(queue, current, *all[k].0) ==> stack@.contains(*all[k].0),
            {
                let (sym_id, pending_sym) = pair;
                let ghost step = stack@;
                proof {
                    assert(queue.contains_key(*sym_id) && queue[*sym_id] == *pending_sym);
                }
                let mut j: usize = 0;
                while j < pending_sym.pending_exprs.len()
                    invariant
                        queue.contains_key(*sym_id),
                        queue[*sym_id] == *pending_sym,
                        0 <= j <= pending_sym.pending_exprs.len(),
                        stack@.len() >= step.len(),
                        stack@.take(step.len() as int) == step,
                        step.len() >= popped.len(),
                        step.take(popped.len() as int) == popped,
                        forall|i: int| popped.len() <= i < step.len() ==> depends_directly(queue, current, #[trigger] step[i]),
                        forall|i: int| step.len() <= i < stack.len() ==> #[trigger] stack@[i] == *sym_id,
                        depends_directly(queue, current, *sym_id) || stack.len() == step.len(),
                        forall|k: int| 0 <= k < j && #[trigger] waits_at(queue, current, *sym_id, k) ==> stack@.contains(*sym_id),
                    decreases pending_sym.pending_exprs.len() - j,
                {
                    if let PendingExprKind::Parent(parent_base) = pending_sym.pending_exprs[j].kind {
                        if parent_base.parent_sym_id == current {
                            proof {
                                assert(waits_at(queue, current, *sym_id, j as int));
                            }
                            stack.push(*sym_id);
                            proof {
                                assert(stack@[stack.len() - 1] == *sym_id);
                            }
                        }
                    }
                    proof {
                        assert(stack@.take(step.len() as int) =~= step);
                    }
                    j = j + 1;
                }
                proof {
                    assert(stack@.take(popped.len() as int) =~= popped) by {
                        assert forall|i: int| 0 <= i < popped.len() implies stack@[i] == popped[i] by {
                            assert(stack@.take(step.len() as int)[i] == step[i]);
                            assert(step.take(popped.len() as int)[i] == popped[i]);
                        }
                    }
                    assert forall|i: int| popped.len() <= i < stack.len() implies depends_directly(queue, current, #[trigger] stack@[i]) by {
                        if i < step.len() {
                            assert(stack@.take(step.len() as int)[i] == step[i]);
                        }
                    }
                    if depends_directly(queue, current, *sym_id) {
                        let k = choose|k: int| #[trigger] waits_at(queue, current, *sym_id, k);
                        assert(stack@.contains(*sym_id));
                    }
                    assert forall|k: int| 0 <= k < walk.index() + 1 && depends_directly(queue, current, *all[k].0) implies stack@.contains(*all[k].0) by {
                        if k < walk.index() {
                            assert(step.contains(*all[k].0));
                            let i = choose|i: int| 0 <= i < step.len() && step[i] == *all[k].0;
                            assert(stack@.take(step.len() as int)[i] == step[i]);
                            assert(stack@[i] == *all[k].0);
                        }
                    }
                }
            }
            proof {
                assert forall|w: SymbolId| #[trigger] depends_directly(queue, current, w) implies stack@.contains(w) by {
                    assert(all.contains((&w, &queue[w])));
                    let k = choose|k: int| 0 <= k < all.len() && all[k] == (&w, &queue[w]);
                    assert(*all[k].0 == w);
                }
                assert forall|i: int| 0 <= i < stack.len() implies depends_on(queue, found_sym_id, #[trigger] stack@[i]) by {
                    if i < popped.len() {
                        assert(stack@.take(popped.len() as int)[i] == popped[i]);
                        assert(before[i] == popped[i]);
                    } else {
                        lemma_depends_step(queue, found_sym_id, current, stack@[i]);
                    }
                }
                assert forall|i: int| 0 <= i < stack.len() implies universe.contains(#[trigger] stack@[i]) by {
                    if i < popped.len() {
                        assert(stack@.take(popped.len() as int)[i] == popped[i]);
                        assert(before[i] == popped[i]);
                    }
                }
                assert forall|w: SymbolId| before.contains(w) implies visited@.contains(w) || stack@.contains(w) by {
                    let i = choose|i: int| 0 <= i < before.len() && before[i] == w;
                    if i < popped.len() {
                        assert(stack@.take(popped.len() as int)[i] == popped[i]);
                        assert(stack@[i] == w);
                    } else {
                        assert(visited@[visited.len() - 1] == current);
                    }
                }
                assert forall|i: int| 0 <= i < visited.len() implies depends_on(queue, found_sym_id, #[trigger] visited@[i]) by {
                    if i < seen.len() {
                        assert(visited@[i] == seen[i]);
                    }
                }
                assert(visited@ == seen.push(current));
                assert(visited@[seen.len() as int] == current);
                assert(visited@.contains(current));
                seen.lemma_push_to_set_commute(current);
                assert(visited@.to_set() =~= seen.to_set().insert(current));
                assert forall|v: SymbolId, w: SymbolId|
                    visited@.contains(v) && #[trigger] depends_directly(queue, v, w) implies visited@.contains(w)
                        || stack@.contains(w) by {
                    if v != current {
                        let i = choose|i: int| 0 <= i < visited.len() && visited@[i] == v;
                        assert(seen[i] == v);
                        assert(seen.contains(v));
                        if seen.contains(w) {
                            let k = choose|k: int| 0 <= k < seen.len() && seen[k] == w;
                            assert(visited@[k] == w);
                        }
                    }
                }
                if seen.contains(found_sym_id) {
                    let i = choose|i: int| 0 <= i < seen.len() && seen[i] == found_sym_id;
                    assert(visited@[i] == found_sym_id);
                }
                assert(universe.difference(visited@.to_set()) =~= universe.difference(seen.to_set()).remove(current));
                assert(!seen.to_set().contains(current));
            }
        }
        proof {
            if depends_on(queue, found_sym_id, parent_sym_id) {
                lemma_closed_holds_dependencies(queue, visited@.to_set(), found_sym_id, parent_sym_id);
            }
        }
        Ok(())
    }
}

} // verus!
