//! The renew operation's record-level logic: seeding the new investment from
//! the old one's terminal values, and producing the pair of records the two
//! server calls carry — the new record marked "renewed" with a reference to
//! the old one, and the old record marked "closed".

use vstd::prelude::*;

use crate::records::{clone_opt_id, Investment, InvStatus, RecordId};

verus! {

/// `st` carries the label `label` and references `id`.
pub open spec fn status_is(st: Option<InvStatus>, id: Option<RecordId>, label: Seq<char>) -> bool {
    match st {
        Option::Some(x) => x.id == id && x.status@ == label,
        Option::None => false,
    }
}

/// The identifier a status sub-record references, if there is one.
pub open spec fn status_ref(st: Option<InvStatus>) -> Option<RecordId> {
    match st {
        Option::Some(x) => x.id,
        Option::None => Option::None,
    }
}

/// The candidate a renew form opens with: not yet persisted, the display
/// fields carried over, the old return amount reinvested, the old end date
/// as the new start date, and everything else cleared.
pub fn renewal_seed(old_inv: &Investment) -> (r: Investment)
    ensures
        r == (Investment {
            id: Option::None,
            inv_name: old_inv.inv_name,
            inv_type: old_inv.inv_type,
            return_rate: 0,
            return_type: old_inv.return_type,
            inv_amount: old_inv.return_amount,
            return_amount: 0,
            name: old_inv.name,
            inv_status: Option::None,
            start_date: old_inv.end_date,
            end_date: Option::None,
            created_at: Option::None,
            updated_at: Option::None,
        }),
{
    Investment {
        id: Option::None,
        inv_name: old_inv.inv_name.clone(),
        inv_type: old_inv.inv_type.clone(),
        return_rate: 0,
        return_type: old_inv.return_type.clone(),
        inv_amount: old_inv.return_amount,
        return_amount: 0,
        name: old_inv.name.clone(),
        inv_status: Option::None,
        start_date: old_inv.end_date,
        end_date: Option::None,
        created_at: Option::None,
        updated_at: Option::None,
    }
}

/// The two records a confirmed renewal sends, in call order: first the
/// candidate, now marked "renewed" with a soft reference to the old record;
/// then the old record, marked "closed" under its own status identifier.
/// The two server calls that carry them are independent: nothing couples
/// their outcomes.
pub fn finalize_renewal(old_inv: &Investment, candidate: Investment) -> (r: (Investment, Investment))
    ensures
        r.0 == (Investment { inv_status: r.0.inv_status, ..candidate }),
        status_is(r.0.inv_status, old_inv.id, "renewed"@),
        r.1 == (Investment { inv_status: r.1.inv_status, ..*old_inv }),
        status_is(r.1.inv_status, status_ref(old_inv.inv_status), "closed"@),
{
    let renewed = Investment {
        inv_status: Option::Some(
            InvStatus { id: clone_opt_id(&old_inv.id), status: "renewed".to_owned() },
        ),
        ..candidate
    };
    let closed_status = match &old_inv.inv_status {
        Option::Some(st) => InvStatus { id: clone_opt_id(&st.id), status: "closed".to_owned() },
        Option::None => InvStatus { id: Option::None, status: "closed".to_owned() },
    };
    let closed = Investment { inv_status: Option::Some(closed_status), ..old_inv.clone() };
    (renewed, closed)
}

} // verus!
