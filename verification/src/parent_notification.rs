//! One round of type resolution's fixed point: every pending expression whose parent expression
//! resolved passes that on to the parent's pending symbol.
//!
//! An expression marked `Resolved` by its walk up the expression tree becomes `Notified`, and the
//! parent symbol, when it is itself pending, records whether it now has a resolved type and a
//! constant value, so that its own waiting expressions are tried in the next round. The round
//! reports how many expressions it notified; resolution stops once a round notifies none.
use vstd::prelude::*;
use crate::ids::SymbolId;
use crate::type_context::{ParentInfo, ParentState, ParentStateBase, PendingExpr, PendingExprKind, PendingSymbol, TypeContext};

verus! {

broadcast use vstd::std_specs::hash::group_hash_axioms;

/// Expression `i` pending on `s` in `queue` has a resolved parent that is itself pending.
pub open spec fn notifies(queue: Map<SymbolId, PendingSymbol>, s: SymbolId, i: int) -> bool {
    &&& queue.contains_key(s)
    &&& 0 <= i < queue[s].pending_exprs@.len()
    &&& queue[s].pending_exprs@[i].kind matches PendingExprKind::Parent(base)
    &&& base.state is Resolved
    &&& queue.contains_key(base.parent_sym_id)
}

/// The parent that expression `i` pending on `s` notifies, with what it learned.
pub open spec fn notified_info(queue: Map<SymbolId, PendingSymbol>, s: SymbolId, i: int) -> ParentInfo {
    match queue[s].pending_exprs@[i].kind {
        PendingExprKind::Parent(base) => match base.state {
            ParentState::Resolved { has_resolved_ty, has_const_val } => ParentInfo {
                pending_sym_id: base.parent_sym_id,
                has_resolved_ty,
                has_const_val,
            },
            _ => ParentInfo { pending_sym_id: base.parent_sym_id, has_resolved_ty: false, has_const_val: false },
        },
        PendingExprKind::Standing(_) => ParentInfo { pending_sym_id: 0, has_resolved_ty: false, has_const_val: false },
    }
}

/// Expression `e` once it notified its parent of `info`.
pub open spec fn spec_notified(e: PendingExpr, info: ParentInfo) -> PendingExpr {
    PendingExpr {
        pending_id: e.pending_id,
        kind: PendingExprKind::Parent(
            ParentStateBase {
                parent_sym_id: info.pending_sym_id,
                state: ParentState::Notified { has_resolved_ty: info.has_resolved_ty, has_const_val: info.has_const_val },
            },
        ),
    }
}

/// Notifying keeps what the expression had resolved: an expression `Resolved` with flags
/// `(t, c)` for parent `p` becomes `Notified` with the same `(t, c)` for the same `p`, and the
/// parent learns exactly `(t, c)`.
pub proof fn lemma_notified_keeps_flags(queue: Map<SymbolId, PendingSymbol>, s: SymbolId, i: int)
    requires
        notifies(queue, s, i),
    ensures
        ({
            let e = queue[s].pending_exprs@[i];
            let base = e.kind->Parent_0;
            let t = base.state->Resolved_has_resolved_ty;
            let c = base.state->Resolved_has_const_val;
            &&& notified_info(queue, s, i) == (ParentInfo { pending_sym_id: base.parent_sym_id, has_resolved_ty: t, has_const_val: c })
            &&& spec_notified(e, notified_info(queue, s, i)) == (PendingExpr {
                pending_id: e.pending_id,
                kind: PendingExprKind::Parent(
                    ParentStateBase {
                        parent_sym_id: base.parent_sym_id,
                        state: ParentState::Notified { has_resolved_ty: t, has_const_val: c },
                    },
                ),
            })
        }),
{
}

/// Record `r` names a notifying expression of `queue` and what its parent learns.
pub open spec fn valid_record(queue: Map<SymbolId, PendingSymbol>, r: (SymbolId, usize, ParentInfo)) -> bool {
    &&& notifies(queue, r.0, r.1 as int)
    &&& r.2 == notified_info(queue, r.0, r.1 as int)
}

/// The symbols the first `n` entries of `all` are pending on.
pub open spec fn keys_before(all: Seq<(&SymbolId, &PendingSymbol)>, n: int) -> Set<SymbolId> {
    Set::new(|x: SymbolId| exists|w: int| 0 <= w < n && *all[w].0 == x)
}

/// `after` is `before` once every resolved parent expression was passed on: the notifying
/// expressions are `Notified`, and each parent they name carries what one of them passed on.
pub open spec fn parents_notified(before: Map<SymbolId, PendingSymbol>, after: Map<SymbolId, PendingSymbol>) -> bool {
    &&& after.dom() == before.dom()
    &&& forall|s: SymbolId| #[trigger] before.contains_key(s) ==> after[s].pending_exprs@.len() == before[s].pending_exprs@.len()
    &&& forall|s: SymbolId, i: int|
        #![trigger after[s].pending_exprs@[i]]
        before.contains_key(s) && 0 <= i < before[s].pending_exprs@.len() ==> after[s].pending_exprs@[i] == if notifies(before, s, i) {
            spec_notified(before[s].pending_exprs@[i], notified_info(before, s, i))
        } else {
            before[s].pending_exprs@[i]
        }
    &&& forall|p: SymbolId|
        #[trigger] before.contains_key(p) && (exists|s: SymbolId, i: int|
            notifies(before, s, i) && #[trigger] notified_info(before, s, i).pending_sym_id == p) ==> exists|s: SymbolId, i: int|
            notifies(before, s, i) && #[trigger] notified_info(before, s, i).pending_sym_id == p && after[p].has_resolved_ty
                == notified_info(before, s, i).has_resolved_ty && after[p].has_const_val == notified_info(before, s, i).has_const_val
    &&& forall|p: SymbolId|
        #[trigger] before.contains_key(p) && !(exists|s: SymbolId, i: int|
            notifies(before, s, i) && #[trigger] notified_info(before, s, i).pending_sym_id == p) ==> after[p].has_resolved_ty
            == before[p].has_resolved_ty && after[p].has_const_val == before[p].has_const_val
}

/// Number of expressions of `queue` that notify a pending parent.
pub open spec fn notifying_count(queue: Map<SymbolId, PendingSymbol>) -> nat {
    Set::new(|pair: (SymbolId, int)| notifies(queue, pair.0, pair.1)).len()
}

/// Some record among the first `j` names expression `i` pending on `s`.
pub open spec fn pair_recorded(records: Seq<(SymbolId, usize, ParentInfo)>, j: int, s: SymbolId, i: int) -> bool {
    exists|k: int| 0 <= k < j && #[trigger] records[k].0 == s && records[k].1 == i
}

/// Some record among the first `j` notifies parent `p`.
pub open spec fn parent_recorded(records: Seq<(SymbolId, usize, ParentInfo)>, j: int, p: SymbolId) -> bool {
    exists|k: int| 0 <= k < j && (#[trigger] records[k]).2.pending_sym_id == p
}

/// `now` is `before` with the first `j` records applied: their expressions notified, and each
/// parent they name carrying what one of them passed on.
pub open spec fn records_applied(
    before: Map<SymbolId, PendingSymbol>,
    now: Map<SymbolId, PendingSymbol>,
    records: Seq<(SymbolId, usize, ParentInfo)>,
    j: int,
) -> bool {
    &&& now.dom() == before.dom()
    &&& forall|s: SymbolId| #[trigger] now.contains_key(s) ==> now[s].pending_exprs@.len() == before[s].pending_exprs@.len()
    &&& forall|s: SymbolId, i: int|
        #![trigger now[s].pending_exprs@[i]]
        now.contains_key(s) && 0 <= i < now[s].pending_exprs@.len() ==> now[s].pending_exprs@[i] == if pair_recorded(records, j, s, i) {
            spec_notified(before[s].pending_exprs@[i], notified_info(before, s, i))
        } else {
            before[s].pending_exprs@[i]
        }
    &&& forall|p: SymbolId|
        #[trigger] now.contains_key(p) && parent_recorded(records, j, p) ==> exists|k: int|
            0 <= k < j && (#[trigger] records[k]).2.pending_sym_id == p && now[p].has_resolved_ty == records[k].2.has_resolved_ty
                && now[p].has_const_val == records[k].2.has_const_val
    &&& forall|p: SymbolId|
        #[trigger] now.contains_key(p) && !parent_recorded(records, j, p) ==> now[p].has_resolved_ty == before[p].has_resolved_ty
            && now[p].has_const_val == before[p].has_const_val
}

/// The records name each notifying expression once, so there are as many as those expressions.
proof fn lemma_records_count(before: Map<SymbolId, PendingSymbol>, records: Seq<(SymbolId, usize, ParentInfo)>)
    requires
        forall|k: int| 0 <= k < records.len() ==> valid_record(before, #[trigger] records[k]),
        forall|k: int, l: int| 0 <= k < l < records.len() ==> (#[trigger] records[k]).0 != (#[trigger] records[l]).0
            || records[k].1 != records[l].1,
        forall|s: SymbolId, i: int| notifies(before, s, i) ==> pair_recorded(records, records.len() as int, s, i),
    ensures
        records.len() == Set::new(|pair: (SymbolId, int)| notifies(before, pair.0, pair.1)).len(),
{
    let pairs = records.map_values(|r: (SymbolId, usize, ParentInfo)| (r.0, r.1 as int));
    let all_pairs = Set::new(|pair: (SymbolId, int)| notifies(before, pair.0, pair.1));
    assert(pairs.no_duplicates()) by {
        assert forall|k: int, l: int| 0 <= k < pairs.len() && 0 <= l < pairs.len() && k != l implies pairs[k] != pairs[l] by {
            if k < l {
                assert(records[k].0 != records[l].0 || records[k].1 != records[l].1);
            } else {
                assert(records[l].0 != records[k].0 || records[l].1 != records[k].1);
            }
        }
    }
    assert(pairs.to_set() =~= all_pairs) by {
        assert forall|pair: (SymbolId, int)| all_pairs.contains(pair) implies pairs.to_set().contains(pair) by {
            let k = choose|k: int| 0 <= k < records.len() && #[trigger] records[k].0 == pair.0 && records[k].1 == pair.1;
            assert(pairs[k] == pair);
        }
        assert forall|pair: (SymbolId, int)| pairs.to_set().contains(pair) implies all_pairs.contains(pair) by {
            let k = choose|k: int| 0 <= k < pairs.len() && pairs[k] == pair;
            assert(valid_record(before, records[k]));
        }
    }
    pairs.unique_seq_to_set();
}

/// Applying record `j` to `now`, which has the first `j` applied, gives `after`, which has the
/// first `j + 1` applied.
proof fn lemma_record_step(
    before: Map<SymbolId, PendingSymbol>,
    now: Map<SymbolId, PendingSymbol>,
    after: Map<SymbolId, PendingSymbol>,
    records: Seq<(SymbolId, usize, ParentInfo)>,
    j: int,
    notified: PendingExpr,
)
    requires
        0 <= j < records.len(),
        records_applied(before, now, records, j),
        valid_record(before, records[j]),
        notified == spec_notified(before[records[j].0].pending_exprs@[records[j].1 as int], notified_info(before, records[j].0, records[j].1 as int)),
        after.dom() == now.dom(),
        forall|t: SymbolId| #[trigger] now.contains_key(t) && t != records[j].0 ==> after[t].pending_exprs@ == now[t].pending_exprs@,
        after[records[j].0].pending_exprs@ == now[records[j].0].pending_exprs@.update(records[j].1 as int, notified),
        forall|t: SymbolId| #[trigger] now.contains_key(t) && t != records[j].2.pending_sym_id ==> after[t].has_resolved_ty == now[t].has_resolved_ty
            && after[t].has_const_val == now[t].has_const_val,
        after[records[j].2.pending_sym_id].has_resolved_ty == records[j].2.has_resolved_ty,
        after[records[j].2.pending_sym_id].has_const_val == records[j].2.has_const_val,
    ensures
        records_applied(before, after, records, j + 1),
{
    let r = records[j];
    assert forall|s: SymbolId, i: int| #[trigger] pair_recorded(records, j + 1, s, i) <==> (pair_recorded(records, j, s, i) || (s == r.0 && i == r.1)) by {
        if pair_recorded(records, j + 1, s, i) && !(s == r.0 && i == r.1) {
            let k = choose|k: int| 0 <= k < j + 1 && #[trigger] records[k].0 == s && records[k].1 == i;
            assert(k < j);
        }
        if s == r.0 && i == r.1 {
            assert(records[j].0 == s && records[j].1 == i);
        }
        if pair_recorded(records, j, s, i) {
            let k = choose|k: int| 0 <= k < j && #[trigger] records[k].0 == s && records[k].1 == i;
            assert(records[k].0 == s && records[k].1 == i);
        }
    }
    assert forall|p: SymbolId| #[trigger] parent_recorded(records, j + 1, p) <==> (parent_recorded(records, j, p) || p == r.2.pending_sym_id) by {
        if parent_recorded(records, j + 1, p) && p != r.2.pending_sym_id {
            let k = choose|k: int| 0 <= k < j + 1 && (#[trigger] records[k]).2.pending_sym_id == p;
            assert(k < j);
        }
        if p == r.2.pending_sym_id {
            assert(records[j].2.pending_sym_id == p);
        }
        if parent_recorded(records, j, p) {
            let k = choose|k: int| 0 <= k < j && (#[trigger] records[k]).2.pending_sym_id == p;
            assert(records[k].2.pending_sym_id == p);
        }
    }
    assert forall|s: SymbolId| #[trigger] after.contains_key(s) implies after[s].pending_exprs@.len() == before[s].pending_exprs@.len() by {
        assert(now.contains_key(s));
    }
    assert forall|s: SymbolId, i: int|
        after.contains_key(s) && 0 <= i < after[s].pending_exprs@.len() implies #[trigger] after[s].pending_exprs@[i] == if pair_recorded(records, j + 1, s, i) {
        spec_notified(before[s].pending_exprs@[i], notified_info(before, s, i))
    } else {
        before[s].pending_exprs@[i]
    } by {
        assert(now.contains_key(s));
        assert(pair_recorded(records, j + 1, s, i) <==> (pair_recorded(records, j, s, i) || (s == r.0 && i == r.1)));
        if s == r.0 && i == r.1 {
        } else {
            assert(after[s].pending_exprs@[i] == now[s].pending_exprs@[i]);
            assert(now[s].pending_exprs@[i] == if pair_recorded(records, j, s, i) {
                spec_notified(before[s].pending_exprs@[i], notified_info(before, s, i))
            } else {
                before[s].pending_exprs@[i]
            });
        }
    }
    assert forall|p: SymbolId| #[trigger] after.contains_key(p) && parent_recorded(records, j + 1, p) implies exists|k: int|
        0 <= k < j + 1 && (#[trigger] records[k]).2.pending_sym_id == p && after[p].has_resolved_ty == records[k].2.has_resolved_ty
            && after[p].has_const_val == records[k].2.has_const_val by {
        assert(now.contains_key(p));
        assert(parent_recorded(records, j + 1, p) <==> (parent_recorded(records, j, p) || p == r.2.pending_sym_id));
        if p == r.2.pending_sym_id {
            assert(records[j].2.pending_sym_id == p);
        } else {
            let k = choose|k: int|
                0 <= k < j && (#[trigger] records[k]).2.pending_sym_id == p && now[p].has_resolved_ty == records[k].2.has_resolved_ty
                    && now[p].has_const_val == records[k].2.has_const_val;
            assert(records[k].2.pending_sym_id == p);
        }
    }
    assert forall|p: SymbolId| #[trigger] after.contains_key(p) && !parent_recorded(records, j + 1, p) implies after[p].has_resolved_ty
        == before[p].has_resolved_ty && after[p].has_const_val == before[p].has_const_val by {
        assert(now.contains_key(p));
        assert(parent_recorded(records, j + 1, p) <==> (parent_recorded(records, j, p) || p == r.2.pending_sym_id));
    }
}

/// Once every record is applied, each notifying expression is notified and each parent they name
/// carries what one of them passed on.
proof fn lemma_applied_all(before: Map<SymbolId, PendingSymbol>, now: Map<SymbolId, PendingSymbol>, records: Seq<(SymbolId, usize, ParentInfo)>)
    requires
        forall|k: int| 0 <= k < records.len() ==> valid_record(before, #[trigger] records[k]),
        forall|s: SymbolId, i: int| notifies(before, s, i) ==> pair_recorded(records, records.len() as int, s, i),
        records_applied(before, now, records, records.len() as int),
    ensures
        forall|s: SymbolId, i: int|
            #![trigger now[s].pending_exprs@[i]]
            before.contains_key(s) && 0 <= i < before[s].pending_exprs@.len() ==> now[s].pending_exprs@[i] == if notifies(before, s, i) {
                spec_notified(before[s].pending_exprs@[i], notified_info(before, s, i))
            } else {
                before[s].pending_exprs@[i]
            },
        forall|p: SymbolId|
            #[trigger] before.contains_key(p) && (exists|s: SymbolId, i: int|
                notifies(before, s, i) && #[trigger] notified_info(before, s, i).pending_sym_id == p) ==> exists|s: SymbolId, i: int|
                notifies(before, s, i) && #[trigger] notified_info(before, s, i).pending_sym_id == p && now[p].has_resolved_ty
                    == notified_info(before, s, i).has_resolved_ty && now[p].has_const_val == notified_info(before, s, i).has_const_val,
        forall|p: SymbolId|
            #[trigger] before.contains_key(p) && !(exists|s: SymbolId, i: int|
                notifies(before, s, i) && #[trigger] notified_info(before, s, i).pending_sym_id == p) ==> now[p].has_resolved_ty
                == before[p].has_resolved_ty && now[p].has_const_val == before[p].has_const_val,
{
    let n = records.len() as int;
    assert forall|s: SymbolId, i: int|
        before.contains_key(s) && 0 <= i < before[s].pending_exprs@.len() implies #[trigger] now[s].pending_exprs@[i] == if notifies(before, s, i) {
        spec_notified(before[s].pending_exprs@[i], notified_info(before, s, i))
    } else {
        before[s].pending_exprs@[i]
    } by {
        assert(now.contains_key(s));
        if pair_recorded(records, n, s, i) {
            let k = choose|k: int| 0 <= k < n && #[trigger] records[k].0 == s && records[k].1 == i;
            assert(valid_record(before, records[k]));
        }
    }
    assert forall|p: SymbolId|
        #[trigger] before.contains_key(p) && (exists|s: SymbolId, i: int|
            notifies(before, s, i) && #[trigger] notified_info(before, s, i).pending_sym_id == p) implies exists|s: SymbolId, i: int|
            notifies(before, s, i) && #[trigger] notified_info(before, s, i).pending_sym_id == p && now[p].has_resolved_ty
                == notified_info(before, s, i).has_resolved_ty && now[p].has_const_val == notified_info(before, s, i).has_const_val by {
        let (s0, i0) = choose|s: SymbolId, i: int| notifies(before, s, i) && #[trigger] notified_info(before, s, i).pending_sym_id == p;
        let k0 = choose|k: int| 0 <= k < n && #[trigger] records[k].0 == s0 && records[k].1 == i0;
        assert(valid_record(before, records[k0]));
        assert(parent_recorded(records, n, p)) by {
            assert(records[k0].2.pending_sym_id == p);
        }
        assert(now.contains_key(p));
        let k = choose|k: int|
            0 <= k < n && (#[trigger] records[k]).2.pending_sym_id == p && now[p].has_resolved_ty == records[k].2.has_resolved_ty
                && now[p].has_const_val == records[k].2.has_const_val;
        assert(valid_record(before, records[k]));
        assert(notified_info(before, records[k].0, records[k].1 as int).pending_sym_id == p);
    }
    assert forall|p: SymbolId|
        #[trigger] before.contains_key(p) && !(exists|s: SymbolId, i: int|
            notifies(before, s, i) && #[trigger] notified_info(before, s, i).pending_sym_id == p) implies now[p].has_resolved_ty
            == before[p].has_resolved_ty && now[p].has_const_val == before[p].has_const_val by {
        assert(now.contains_key(p));
        if parent_recorded(records, n, p) {
            let k = choose|k: int| 0 <= k < n && (#[trigger] records[k]).2.pending_sym_id == p;
            assert(valid_record(before, records[k]));
            assert(notified_info(before, records[k].0, records[k].1 as int).pending_sym_id == p);
        }
    }
}

/// Notifying is done once: after a round passed every resolved parent on, no expression notifies
/// again until a walk marks one `Resolved` anew, so a round on its result finds nothing.
pub proof fn lemma_notification_settles(before: Map<SymbolId, PendingSymbol>, after: Map<SymbolId, PendingSymbol>)
    requires
        parents_notified(before, after),
    ensures
        notifying_count(after) == 0,
{
    let pairs = Set::new(|pair: (SymbolId, int)| notifies(after, pair.0, pair.1));
    assert(pairs =~= Set::<(SymbolId, int)>::empty()) by {
        assert forall|pair: (SymbolId, int)| !pairs.contains(pair) by {
            let (s, i) = pair;
            if notifies(after, s, i) {
                assert(before.contains_key(s));
                let e = after[s].pending_exprs@[i];
                if notifies(before, s, i) {
                    assert(e == spec_notified(before[s].pending_exprs@[i], notified_info(before, s, i)));
                } else {
                    assert(e == before[s].pending_exprs@[i]);
                }
            }
        }
    }
}

impl TypeContext {
    /// Passes every resolved parent expression on: each expression pending on a symbol whose
    /// state is `Resolved` and whose parent symbol is pending becomes `Notified` with the same
    /// flags, and the parent's pending symbol takes those flags (where several expressions name
    /// the same parent, the flags of one of them). Returns how many expressions were notified.
    pub fn notify_resolved_parents(&mut self) -> (count: usize)
        ensures
            final(self).needs_check == old(self).needs_check,
            final(self).sym_queue@.dom() == old(self).sym_queue@.dom(),
            forall|s: SymbolId|
                #[trigger] old(self).sym_queue@.contains_key(s) ==> final(self).sym_queue@[s].pending_exprs@.len()
                    == old(self).sym_queue@[s].pending_exprs@.len(),
            forall|s: SymbolId, i: int|
                #![trigger final(self).sym_queue@[s].pending_exprs@[i]]
                old(self).sym_queue@.contains_key(s) && 0 <= i < old(self).sym_queue@[s].pending_exprs@.len()
                    ==> final(self).sym_queue@[s].pending_exprs@[i] == if notifies(old(self).sym_queue@, s, i) {
                    spec_notified(old(self).sym_queue@[s].pending_exprs@[i], notified_info(old(self).sym_queue@, s, i))
                } else {
                    old(self).sym_queue@[s].pending_exprs@[i]
                },
            forall|p: SymbolId|
                #[trigger] old(self).sym_queue@.contains_key(p) && (exists|s: SymbolId, i: int|
                    notifies(old(self).sym_queue@, s, i) && #[trigger] notified_info(old(self).sym_queue@, s, i).pending_sym_id == p)
                    ==> exists|s: SymbolId, i: int|
                    notifies(old(self).sym_queue@, s, i) && #[trigger] notified_info(old(self).sym_queue@, s, i).pending_sym_id == p
                        && final(self).sym_queue@[p].has_resolved_ty == notified_info(old(self).sym_queue@, s, i).has_resolved_ty
                        && final(self).sym_queue@[p].has_const_val == notified_info(old(self).sym_queue@, s, i).has_const_val,
            forall|p: SymbolId|
                #[trigger] old(self).sym_queue@.contains_key(p) && !(exists|s: SymbolId, i: int|
                    notifies(old(self).sym_queue@, s, i) && #[trigger] notified_info(old(self).sym_queue@, s, i).pending_sym_id == p)
                    ==> final(self).sym_queue@[p].has_resolved_ty == old(self).sym_queue@[p].has_resolved_ty
                        && final(self).sym_queue@[p].has_const_val == old(self).sym_queue@[p].has_const_val,
            count == Set::new(|pair: (SymbolId, int)| notifies(old(self).sym_queue@, pair.0, pair.1)).len(),
            forall|s: SymbolId, i: int|
                #![trigger final(self).sym_queue@[s].pending_exprs@[i]]
                old(self).sym_queue@.contains_key(s) && 0 <= i < old(self).sym_queue@[s].pending_exprs@.len()
                    && old(self).sym_queue@[s].pending_exprs@[i].kind is Parent
                    && old(self).sym_queue@[s].pending_exprs@[i].kind->Parent_0.state is Resolved
                    && old(self).sym_queue@.contains_key(old(self).sym_queue@[s].pending_exprs@[i].kind->Parent_0.parent_sym_id)
                    ==> final(self).sym_queue@[s].pending_exprs@[i] == (PendingExpr {
                    pending_id: old(self).sym_queue@[s].pending_exprs@[i].pending_id,
                    kind: PendingExprKind::Parent(
                        ParentStateBase {
                            parent_sym_id: old(self).sym_queue@[s].pending_exprs@[i].kind->Parent_0.parent_sym_id,
                            state: ParentState::Notified {
                                has_resolved_ty: old(self).sym_queue@[s].pending_exprs@[i].kind->Parent_0.state->Resolved_has_resolved_ty,
                                has_const_val: old(self).sym_queue@[s].pending_exprs@[i].kind->Parent_0.state->Resolved_has_const_val,
                            },
                        },
                    ),
                }),
    {
        let ghost before = self.sym_queue@;
        let mut records: Vec<(SymbolId, usize, ParentInfo)> = Vec::new();
        let it = self.sym_queue.iter();
        let ghost all = vstd::std_specs::iter::IteratorSpec::remaining(&it);
        for pair in walk: it
            invariant
                before == self.sym_queue@,
                walk.seq() == all,
                all == vstd::std_specs::iter::IteratorSpec::remaining(&vstd::std_specs::hash::spec_hash_map_iter(&self.sym_queue)),
                all.no_duplicates(),
                forall|k: int| 0 <= k < records.len() ==> valid_record(before, #[trigger] records@[k]),
                forall|k: int, l: int| 0 <= k < l < records.len() ==> (#[trigger] records@[k]).0 != (#[trigger] records@[l]).0
                    || records@[k].1 != records@[l].1,
                forall|k: int| 0 <= k < records.len() ==> keys_before(all, walk.index()).contains((#[trigger] records@[k]).0),
                forall|w: int, i: int|
                    0 <= w < walk.index() && notifies(before, *all[w].0, i) ==> pair_recorded(records@, records.len() as int, *all[w].0, i),
        {
            let (sym_id, pending_sym) = pair;
            let ghost start = records@;
            let ghost index = walk.index();
            proof {
                assert(before.contains_key(*sym_id) && before[*sym_id] == *pending_sym);
                assert(*all[index].0 == *sym_id);
                assert forall|w: int| 0 <= w < index implies *all[w].0 != *sym_id by {
                    if *all[w].0 == *sym_id {
                        assert(before.contains_key(*all[w].0) && before[*all[w].0] == *all[w].1);
                        assert(all[w] == all[index]);
                    }
                }
            }
            let mut i: usize = 0;
            while i < pending_sym.pending_exprs.len()
                invariant
                    before == self.sym_queue@,
                    before.contains_key(*sym_id),
                    before[*sym_id] == *pending_sym,
                    0 <= i <= pending_sym.pending_exprs.len(),
                    records@.len() >= start.len(),
                    records@.take(start.len() as int) == start,
                    forall|k: int| start.len() <= k < records.len() ==> (#[trigger] records@[k]).0 == *sym_id && records@[k].1 < i,
                    forall|k: int, l: int| start.len() <= k < l < records.len() ==> (#[trigger] records@[k]).1 < (#[trigger] records@[l]).1,
                    forall|k: int| 0 <= k < records.len() ==> valid_record(before, #[trigger] records@[k]),
                    forall|i2: int| 0 <= i2 < i && notifies(before, *sym_id, i2) ==> pair_recorded(records@, records.len() as int, *sym_id, i2),
                decreases pending_sym.pending_exprs.len() - i,
            {
                let ghost pre = records@;
                if let PendingExprKind::Parent(parent_base) = pending_sym.pending_exprs[i].kind {
                    if let ParentState::Resolved { has_resolved_ty, has_const_val } = parent_base.state {
                        if self.sym_queue.contains_key(&parent_base.parent_sym_id) {
                            let info = ParentInfo::new(parent_base.parent_sym_id, has_resolved_ty, has_const_val);
                            records.push((*sym_id, i, info));
                            proof {
                                let last = records.len() - 1;
                                assert(records@[last] == (*sym_id, i, info));
                                assert(records@[last].0 == *sym_id && records@[last].1 == i);
                                assert(pair_recorded(records@, records.len() as int, *sym_id, i as int));
                            }
                        }
                    }
                }
                proof {
                    assert forall|k: int| 0 <= k < pre.len() implies records@[k] == pre[k] by {}
                    assert forall|i2: int| 0 <= i2 < i + 1 && notifies(before, *sym_id, i2) implies pair_recorded(
                        records@,
                        records.len() as int,
                        *sym_id,
                        i2,
                    ) by {
                        if i2 < i {
                            assert(pair_recorded(pre, pre.len() as int, *sym_id, i2));
                            let k = choose|k: int| 0 <= k < pre.len() && #[trigger] pre[k].0 == *sym_id && pre[k].1 == i2;
                            assert(records@[k] == pre[k]);
                            assert(records@[k].0 == *sym_id && records@[k].1 == i2);
                        }
                    }
                    assert(records@.take(start.len() as int) =~= start);
                }
                i = i + 1;
            }
            proof {
                assert forall|k: int| 0 <= k < start.len() implies records@[k] == start[k] by {
                    assert(records@.take(start.len() as int)[k] == start[k]);
                }
                assert forall|k: int, l: int| 0 <= k < l < records.len() implies (#[trigger] records@[k]).0 != (
                #[trigger] records@[l]).0 || records@[k].1 != records@[l].1 by {
                    if l >= start.len() && k < start.len() {
                        assert(records@[k] == start[k]);
                        assert(keys_before(all, index).contains(start[k].0));
                        let w = choose|w: int| 0 <= w < index && *all[w].0 == start[k].0;
                        assert(*all[w].0 != *sym_id);
                    } else if l < start.len() {
                        assert(records@[k] == start[k]);
                        assert(records@[l] == start[l]);
                    }
                }
                assert forall|k: int| 0 <= k < records.len() implies keys_before(all, index + 1).contains((#[trigger] records@[k]).0) by {
                    if k >= start.len() {
                        assert(*all[index].0 == records@[k].0);
                    } else {
                        assert(records@[k] == start[k]);
                        assert(keys_before(all, index).contains(start[k].0));
                        let w = choose|w: int| 0 <= w < index && *all[w].0 == start[k].0;
                        assert(*all[w].0 == records@[k].0);
                    }
                }
                assert forall|w: int, i2: int|
                    0 <= w < index + 1 && notifies(before, *all[w].0, i2) implies pair_recorded(
                    records@,
                    records.len() as int,
                    *all[w].0,
                    i2,
                ) by {
                    if w < index {
                        assert(pair_recorded(start, start.len() as int, *all[w].0, i2));
                        let k = choose|k: int| 0 <= k < start.len() && #[trigger] start[k].0 == *all[w].0 && start[k].1 == i2;
                        assert(records@[k] == start[k]);
                        assert(records@[k].0 == *all[w].0 && records@[k].1 == i2);
                    }
                }
            }
        }
        let count = records.len();
        proof {
            assert forall|s: SymbolId, i: int| notifies(before, s, i) implies pair_recorded(records@, records.len() as int, s, i) by {
                assert(all.contains((&s, &before[s])));
                let w = choose|w: int| 0 <= w < all.len() && all[w] == (&s, &before[s]);
                assert(*all[w].0 == s);
            }
            lemma_records_count(before, records@);
        }

        let mut j: usize = 0;
        proof {
            assert(records_applied(before, self.sym_queue@, records@, 0));
        }
        while j < records.len()
            invariant
                0 <= j <= records.len(),
                forall|k: int| 0 <= k < records.len() ==> valid_record(before, #[trigger] records@[k]),
                records_applied(before, self.sym_queue@, records@, j as int),
                self.needs_check == old(self).needs_check,
            decreases records.len() - j,
        {
            let ghost now = self.sym_queue@;
            let (pending_sym_id, idx, info) = records[j];
            proof {
                assert(valid_record(before, records@[j as int]));
            }
            proof {
                assert(now.contains_key(pending_sym_id));
                assert(now.contains_key(info.pending_sym_id));
                assert(now[pending_sym_id].pending_exprs@[idx as int] == if pair_recorded(records@, j as int, pending_sym_id, idx as int) {
                    spec_notified(before[pending_sym_id].pending_exprs@[idx as int], notified_info(before, pending_sym_id, idx as int))
                } else {
                    before[pending_sym_id].pending_exprs@[idx as int]
                });
            }
            let mut pending_sym = self.sym_queue.remove(&pending_sym_id).unwrap();
            let current = pending_sym.pending_exprs[idx];
            let notified = match current.kind {
                PendingExprKind::Parent(parent_base) => PendingExpr::new(
                    current.pending_id,
                    PendingExprKind::Parent(
                        ParentStateBase::new(
                            parent_base.parent_sym_id,
                            ParentState::Notified { has_resolved_ty: info.has_resolved_ty, has_const_val: info.has_const_val },
                        ),
                    ),
                ),
                // Only parent expressions are recorded.
                PendingExprKind::Standing(_) => vstd::pervasive::unreached(),
            };
            proof {
                assert(notified == spec_notified(before[pending_sym_id].pending_exprs@[idx as int], notified_info(before, pending_sym_id, idx as int)));
            }
            pending_sym.pending_exprs.set(idx, notified);
            self.sym_queue.insert(pending_sym_id, pending_sym);
            let ghost mid = self.sym_queue@;
            let mut parent = self.sym_queue.remove(&info.pending_sym_id).unwrap();
            parent.has_resolved_ty = info.has_resolved_ty;
            parent.has_const_val = info.has_const_val;
            self.sym_queue.insert(info.pending_sym_id, parent);
            proof {
                let after = self.sym_queue@;
                assert(after.dom() =~= now.dom());
                lemma_record_step(before, now, after, records@, j as int, notified);
            }
            j = j + 1;
        }
        proof {
            lemma_applied_all(before, self.sym_queue@, records@);
        }
        count
    }

    /// Ends a round of resolution once each pending symbol with a resolved type was tried:
    /// passes resolved parent expressions on, drops the pending symbols in `removable` (those
    /// with nothing left to resolve), and asks for another round, returning `true`, exactly when
    /// some expression was notified.
    pub fn finish_resolution_round(&mut self, removable: &Vec<SymbolId>) -> (progressed: bool)
        ensures
            progressed == (notifying_count(old(self).sym_queue@) > 0),
            final(self).needs_check == progressed,
            final(self).sym_queue@.dom() == old(self).sym_queue@.dom().difference(removable@.to_set()),
            exists|notified: Map<SymbolId, PendingSymbol>|
                parents_notified(old(self).sym_queue@, notified) && forall|s: SymbolId|
                    #[trigger] final(self).sym_queue@.contains_key(s) ==> final(self).sym_queue@[s] == notified[s],
    {
        let count = self.notify_resolved_parents();
        let ghost notified = self.sym_queue@;
        proof {
            assert(parents_notified(old(self).sym_queue@, notified));
        }
        let mut k: usize = 0;
        while k < removable.len()
            invariant
                0 <= k <= removable.len(),
                self.sym_queue@.dom() == notified.dom().difference(removable@.take(k as int).to_set()),
                forall|s: SymbolId| #[trigger] self.sym_queue@.contains_key(s) ==> self.sym_queue@[s] == notified[s],
            decreases removable.len() - k,
        {
            self.sym_queue.remove(&removable[k]);
            proof {
                assert(removable@.take(k as int + 1) =~= removable@.take(k as int).push(removable@[k as int]));
                removable@.take(k as int).lemma_push_to_set_commute(removable@[k as int]);
                assert(self.sym_queue@.dom() =~= notified.dom().difference(removable@.take(k as int + 1).to_set()));
            }
            k = k + 1;
        }
        proof {
            assert(removable@.take(k as int) =~= removable@);
        }
        // No new information means the fixed point is reached.
        let progressed = count > 0;
        self.needs_check = progressed;
        progressed
    }

    /// Starts a round of resolution: clears the request for a check and returns the pending
    /// symbols that have a resolved type, each once, those whose waiting expressions are tried in
    /// this round.
    pub fn begin_resolution_round(&mut self) -> (ready: Vec<SymbolId>)
        ensures
            !final(self).needs_check,
            final(self).sym_queue@ == old(self).sym_queue@,
            ready@.no_duplicates(),
            forall|s: SymbolId| #[trigger] ready@.contains(s) <==> (old(self).sym_queue@.contains_key(s)
                && old(self).sym_queue@[s].has_resolved_ty),
    {
        self.needs_check = false;
        let ghost queue = self.sym_queue@;
        let mut ready: Vec<SymbolId> = Vec::new();
        let it = self.sym_queue.iter();
        let ghost all = vstd::std_specs::iter::IteratorSpec::remaining(&it);
        for pair in walk: it
            invariant
                queue == self.sym_queue@,
                !self.needs_check,
                walk.seq() == all,
                all == vstd::std_specs::iter::IteratorSpec::remaining(&vstd::std_specs::hash::spec_hash_map_iter(&self.sym_queue)),
                all.no_duplicates(),
                ready@.no_duplicates(),
                forall|s: SymbolId| #[trigger] ready@.contains(s) ==> queue.contains_key(s) && queue[s].has_resolved_ty
                    && keys_before(all, walk.index()).contains(s),
                forall|w: int| 0 <= w < walk.index() && queue[*all[w].0].has_resolved_ty ==> ready@.contains(#[trigger] *all[w].0),
        {
            let (sym_id, pending_sym) = pair;
            let ghost index = walk.index();
            let ghost pre = ready@;
            proof {
                assert(queue.contains_key(*sym_id) && queue[*sym_id] == *pending_sym);
                assert(*all[index].0 == *sym_id);
                assert forall|w: int| 0 <= w < index implies *all[w].0 != *sym_id by {
                    if *all[w].0 == *sym_id {
                        assert(queue.contains_key(*all[w].0) && queue[*all[w].0] == *all[w].1);
                        assert(all[w] == all[index]);
                    }
                }
            }
            if pending_sym.has_resolved_ty {
                ready.push(*sym_id);
                proof {
                    assert(!pre.contains(*sym_id)) by {
                        if pre.contains(*sym_id) {
                            assert(keys_before(all, index).contains(*sym_id));
                            let w = choose|w: int| 0 <= w < index && *all[w].0 == *sym_id;
                        }
                    }
                    assert(ready@ == pre.push(*sym_id));
                    assert(ready@[pre.len() as int] == *sym_id);
                }
            }
            proof {
                assert forall|x: SymbolId| #[trigger] ready@.contains(x) implies queue.contains_key(x) && queue[x].has_resolved_ty
                    && keys_before(all, index + 1).contains(x) by {
                    if x == *sym_id {
                        assert(*all[index].0 == x);
                    } else {
                        let k = choose|k: int| 0 <= k < ready.len() && ready@[k] == x;
                        if pending_sym.has_resolved_ty {
                            assert(k < pre.len());
                        }
                        assert(pre[k] == x);
                        assert(pre.contains(x));
                        let w = choose|w: int| 0 <= w < index && *all[w].0 == x;
                        assert(*all[w].0 == x);
                    }
                }
                assert forall|w: int| 0 <= w < index + 1 && queue[*all[w].0].has_resolved_ty implies ready@.contains(
                #[trigger] *all[w].0) by {
                    if w < index {
                        assert(pre.contains(*all[w].0));
                        let k = choose|k: int| 0 <= k < pre.len() && pre[k] == *all[w].0;
                        assert(ready@[k] == pre[k]);
                    } else {
                        assert(*all[w].0 == *sym_id);
                        assert(ready@[ready.len() - 1] == *sym_id);
                    }
                }
            }
        }
        proof {
            assert forall|s: SymbolId| queue.contains_key(s) && queue[s].has_resolved_ty implies #[trigger] ready@.contains(s) by {
                assert(all.contains((&s, &queue[s])));
                let w = choose|w: int| 0 <= w < all.len() && all[w] == (&s, &queue[s]);
                assert(*all[w].0 == s);
            }
        }
        ready
    }
}

} // verus!
