//! The investment lifecycle reducer: the pure state-transition function that
//! derives the next client-side collection from the current one and one
//! action acknowledged by the server.
//!
//! The collection is ordered newest-first; `Add` prepends, `Edit` replaces in
//! place, `Delete` removes, and none of the three reorders what remains.

use std::collections::VecDeque;
use vstd::prelude::*;

use crate::records::{has_id, opt_id_eq, Investment, RecordId};

verus! {

/// One acknowledged server mutation, as the reducer consumes it.
pub enum InvestmentAction {
    /// Replace the whole collection, as the initial fetch returned it
    /// (already ordered newest-first).
    SetAll(VecDeque<Investment>),
    /// Prepend a freshly created record.
    Add(Investment),
    /// Replace the record whose identifier matches, in place.
    Edit(Investment),
    /// Remove every record persisted under this identifier.
    Delete(RecordId),
}

/// The client-side mirror of the server's collection.
pub struct InvestmentState {
    pub investments: VecDeque<Investment>,
}

/// The collection after an edit: the first record whose identifier equals
/// `e`'s is replaced by `e`; everything else, and every position, is kept.
pub open spec fn edit_seq(s: Seq<Investment>, e: Investment) -> Seq<Investment>
    decreases s.len(),
{
    if s.len() == 0 {
        Seq::empty()
    } else if opt_id_eq(s[0].id, e.id) {
        seq![e] + s.drop_first()
    } else {
        seq![s[0]] + edit_seq(s.drop_first(), e)
    }
}

/// The collection after a delete: every record persisted under `id` is
/// dropped; the rest keep their relative order.
pub open spec fn delete_seq(s: Seq<Investment>, id: RecordId) -> Seq<Investment>
    decreases s.len(),
{
    if s.len() == 0 {
        Seq::empty()
    } else if has_id(s[0], id) {
        delete_seq(s.drop_first(), id)
    } else {
        seq![s[0]] + delete_seq(s.drop_first(), id)
    }
}

/// The reducer's transition function, stated over sequences.
pub open spec fn spec_reduce(s: Seq<Investment>, action: InvestmentAction) -> Seq<Investment> {
    match action {
        InvestmentAction::SetAll(records) => records@,
        InvestmentAction::Add(record) => seq![record] + s,
        InvestmentAction::Edit(record) => edit_seq(s, record),
        InvestmentAction::Delete(id) => delete_seq(s, id),
    }
}

impl Default for InvestmentState {
    /// The state the application starts from: no records.
    fn default() -> (r: InvestmentState)
        ensures
            r.investments@ == Seq::<Investment>::empty(),
    {
        InvestmentState { investments: VecDeque::new() }
    }
}

impl InvestmentState {
    /// Computes the next collection from the current one and one action,
    /// exactly as `spec_reduce` states it.
    #[verifier::loop_isolation(false)]
    pub fn reduce(self, action: InvestmentAction) -> (r: InvestmentState)
        ensures
            r.investments@ == spec_reduce(self.investments@, action),
    {
        match action {
            InvestmentAction::SetAll(records) => InvestmentState { investments: records },
            InvestmentAction::Add(record) => {
                let mut investments = self.investments;
                investments.push_front(record);
                InvestmentState { investments }
            },
            InvestmentAction::Edit(record) => {
                let mut investments = self.investments;
                let n: usize = investments.len();
                let ghost s = investments@;
                let mut i: usize = 0;
                proof {
                    assert(s.subrange(0, 0) =~= Seq::<Investment>::empty());
                    assert(s.subrange(0, n as int) =~= s);
                    assert(s.subrange(0, 0) + edit_seq(s, record) =~= edit_seq(s, record));
                }
                while i < n
                    invariant
                        n == s.len(),
                        i <= n,
                        investments@ == s,
                        edit_seq(s, record) == s.subrange(0, i as int) + edit_seq(
                            s.subrange(i as int, n as int),
                            record,
                        ),
                    decreases n - i,
                {
                    proof {
                        assert(s.subrange(i as int, n as int)[0] == s[i as int]);
                        assert(s.subrange(i as int, n as int).drop_first() =~= s.subrange(
                            i as int + 1,
                            n as int,
                        ));
                    }
                    if crate::records::opt_id_eq_exec(&investments[i].id, &record.id) {
                        investments.remove(i);
                        investments.insert(i, record);
                        proof {
                            assert(edit_seq(s, record) =~= s.update(i as int, record));
                            assert(s.remove(i as int).insert(i as int, record) =~= s.update(
                                i as int,
                                record,
                            ));
                        }
                        return InvestmentState { investments };
                    }
                    proof {
                        assert(s.subrange(0, i as int) + (seq![s[i as int]] + edit_seq(
                            s.subrange(i as int + 1, n as int),
                            record,
                        )) =~= s.subrange(0, i as int + 1) + edit_seq(
                            s.subrange(i as int + 1, n as int),
                            record,
                        ));
                    }
                    i = i + 1;
                }
                proof {
                    assert(s.subrange(n as int, n as int) =~= Seq::<Investment>::empty());
                    assert(edit_seq(s, record) =~= s.subrange(0, n as int));
                    assert(s.subrange(0, n as int) =~= s);
                }
                InvestmentState { investments }
            },
            InvestmentAction::Delete(id) => {
                let mut rest = self.investments;
                let mut kept: VecDeque<Investment> = VecDeque::new();
                let ghost s = rest@;
                proof {
                    assert(kept@ + delete_seq(s, id) =~= delete_seq(s, id));
                }
                while rest.len() > 0
                    invariant
                        delete_seq(s, id) == kept@ + delete_seq(rest@, id),
                    decreases rest@.len(),
                {
                    let record = match rest.pop_front() {
                        Option::Some(record) => record,
                        Option::None => unreached(),
                    };
                    if !crate::records::has_id_exec(&record, &id) {
                        proof {
                            assert(kept@ + (seq![record] + delete_seq(rest@, id)) =~= kept@
                                + seq![record] + delete_seq(rest@, id));
                        }
                        kept.push_back(record);
                    }
                }
                proof {
                    assert(kept@ + delete_seq(rest@, id) =~= kept@);
                }
                InvestmentState { investments: kept }
            },
        }
    }
}

/// Adding a record whose identifier is non-absent and not yet in the
/// collection yields a collection one longer, with the record at the front
/// and every other element unchanged in relative order.
pub proof fn lemma_add_prepends(s: Seq<Investment>, r: Investment)
    requires
        r.id is Some,
        forall|k: int| 0 <= k < s.len() ==> !opt_id_eq(#[trigger] s[k].id, r.id),
    ensures
        spec_reduce(s, InvestmentAction::Add(r)).len() == s.len() + 1,
        spec_reduce(s, InvestmentAction::Add(r))[0] == r,
        forall|k: int|
            0 <= k < s.len() ==> spec_reduce(s, InvestmentAction::Add(r))[k + 1] == s[k],
{
}

/// Editing with a record whose identifier matches the element at position
/// `i`, and no other, replaces exactly that position: the length and every
/// other element are unchanged.
pub proof fn lemma_edit_replaces_in_place(s: Seq<Investment>, r: Investment, i: int)
    requires
        0 <= i < s.len(),
        opt_id_eq(s[i].id, r.id),
        forall|k: int| 0 <= k < s.len() && k != i ==> !opt_id_eq(#[trigger] s[k].id, r.id),
    ensures
        spec_reduce(s, InvestmentAction::Edit(r)) == s.update(i, r),
        spec_reduce(s, InvestmentAction::Edit(r)).len() == s.len(),
        spec_reduce(s, InvestmentAction::Edit(r))[i] == r,
        forall|k: int|
            0 <= k < s.len() && k != i ==> spec_reduce(s, InvestmentAction::Edit(r))[k] == s[k],
    decreases i,
{
    if i == 0 {
        assert(edit_seq(s, r) =~= s.update(0, r));
    } else {
        lemma_edit_replaces_in_place(s.drop_first(), r, i - 1);
        assert(seq![s[0]] + s.drop_first().update(i - 1, r) =~= s.update(i, r));
    }
}

/// Editing with a record whose identifier matches no element leaves the
/// collection unchanged: edit never inserts.
pub proof fn lemma_edit_unknown_id_is_noop(s: Seq<Investment>, r: Investment)
    requires
        forall|k: int| 0 <= k < s.len() ==> !opt_id_eq(#[trigger] s[k].id, r.id),
    ensures
        spec_reduce(s, InvestmentAction::Edit(r)) == s,
    decreases s.len(),
{
    if s.len() == 0 {
        assert(edit_seq(s, r) =~= s);
    } else {
        lemma_edit_unknown_id_is_noop(s.drop_first(), r);
        assert(seq![s[0]] + s.drop_first() =~= s);
    }
}

/// Deleting an identifier held by exactly one element removes exactly that
/// element: the collection is one shorter, no element matches the identifier
/// any more, and the others keep their relative order.
pub proof fn lemma_delete_removes_sole_match(s: Seq<Investment>, id: RecordId, i: int)
    requires
        0 <= i < s.len(),
        has_id(s[i], id),
        forall|k: int| 0 <= k < s.len() && k != i ==> !has_id(#[trigger] s[k], id),
    ensures
        spec_reduce(s, InvestmentAction::Delete(id)) == s.remove(i),
        spec_reduce(s, InvestmentAction::Delete(id)).len() == s.len() - 1,
        forall|k: int|
            0 <= k < s.len() - 1 ==> !has_id(
                #[trigger] spec_reduce(s, InvestmentAction::Delete(id))[k],
                id,
            ),
    decreases i,
{
    if i == 0 {
        lemma_delete_absent_is_noop(s.drop_first(), id);
        assert(delete_seq(s, id) =~= s.remove(0));
    } else {
        lemma_delete_removes_sole_match(s.drop_first(), id, i - 1);
        assert(seq![s[0]] + s.drop_first().remove(i - 1) =~= s.remove(i));
    }
}

/// Deleting an identifier that no element holds leaves the collection
/// unchanged.
pub proof fn lemma_delete_absent_is_noop(s: Seq<Investment>, id: RecordId)
    requires
        forall|k: int| 0 <= k < s.len() ==> !has_id(#[trigger] s[k], id),
    ensures
        spec_reduce(s, InvestmentAction::Delete(id)) == s,
    decreases s.len(),
{
    if s.len() == 0 {
        assert(delete_seq(s, id) =~= s);
    } else {
        lemma_delete_absent_is_noop(s.drop_first(), id);
        assert(seq![s[0]] + s.drop_first() =~= s);
    }
}

/// After a delete, no element holds the deleted identifier.
pub proof fn lemma_delete_clears_id(s: Seq<Investment>, id: RecordId)
    ensures
        forall|k: int|
            0 <= k < delete_seq(s, id).len() ==> !has_id(#[trigger] delete_seq(s, id)[k], id),
    decreases s.len(),
{
    if s.len() > 0 {
        lemma_delete_clears_id(s.drop_first(), id);
        if !has_id(s[0], id) {
            assert forall|k: int| 0 <= k < delete_seq(s, id).len() implies !has_id(
                delete_seq(s, id)[k],
                id,
            ) by {
                if k > 0 {
                    assert(delete_seq(s, id)[k] == delete_seq(s.drop_first(), id)[k - 1]);
                }
            }
        }
    }
}

/// Deleting the same identifier twice yields the same collection as deleting
/// it once.
pub proof fn lemma_delete_idempotent(s: Seq<Investment>, id: RecordId)
    ensures
        spec_reduce(spec_reduce(s, InvestmentAction::Delete(id)), InvestmentAction::Delete(id))
            == spec_reduce(s, InvestmentAction::Delete(id)),
{
    lemma_delete_clears_id(s, id);
    lemma_delete_absent_is_noop(spec_reduce(s, InvestmentAction::Delete(id)), id);
}

} // verus!
