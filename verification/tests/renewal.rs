use std::collections::VecDeque;

use inv_tracker::controller::{create_outcome, edit_outcome, Outcome};
use inv_tracker::records::{InvStatus, Investment, RecordId};
use inv_tracker::renewal::{finalize_renewal, renewal_seed};
use inv_tracker::state::{InvestmentAction, InvestmentState};

fn rid(key: &str) -> RecordId {
    RecordId { tb: "investment".to_string(), key: key.to_string() }
}

fn old_record() -> Investment {
    Investment {
        id: Some(rid("old")),
        inv_name: "Fixed deposit".to_string(),
        inv_type: "FD".to_string(),
        return_rate: 7,
        return_type: "Ordinary".to_string(),
        inv_amount: 5000,
        return_amount: 6000,
        name: "Holder".to_string(),
        inv_status: None,
        start_date: Some(1_700_000_000_000),
        end_date: Some(1_731_536_000_000),
        created_at: Some(1_699_999_000_000),
        updated_at: Some(1_699_999_000_000),
    }
}

#[test]
fn seed_carries_terminal_values_over() {
    let old_inv = old_record();
    let seed = renewal_seed(&old_inv);
    assert_eq!(seed.id, None);
    assert_eq!(seed.inv_name, "Fixed deposit");
    assert_eq!(seed.name, "Holder");
    assert_eq!(seed.inv_type, "FD");
    assert_eq!(seed.return_type, "Ordinary");
    assert_eq!(seed.inv_amount, 6000);
    assert_eq!(seed.return_amount, 0);
    assert_eq!(seed.return_rate, 0);
    assert!(seed.inv_status.is_none());
    assert_eq!(seed.start_date, Some(1_731_536_000_000));
    assert_eq!(seed.end_date, None);
    assert_eq!(seed.created_at, None);
    assert_eq!(seed.updated_at, None);
}

#[test]
fn finalize_marks_both_records() {
    let old_inv = old_record();
    let mut candidate = renewal_seed(&old_inv);
    candidate.return_amount = 7000;
    candidate.return_rate = 8;
    candidate.end_date = Some(1_763_072_000_000);

    let (renewed, closed) = finalize_renewal(&old_inv, candidate);

    let renewed_status = renewed.inv_status.expect("renewed record carries a status");
    assert_eq!(renewed_status.status, "renewed");
    assert_eq!(renewed_status.id.as_ref().map(|t| t.key.as_str()), Some("old"));
    assert_eq!(renewed.inv_amount, 6000);
    assert_eq!(renewed.return_amount, 7000);

    let closed_status = closed.inv_status.expect("old record is marked closed");
    assert_eq!(closed_status.status, "closed");
    assert_eq!(closed_status.id, None);
    assert_eq!(closed.inv_amount, 5000);
    assert_eq!(closed.id.as_ref().map(|t| t.key.as_str()), Some("old"));
}

#[test]
fn finalize_keeps_existing_status_reference() {
    let mut old_inv = old_record();
    old_inv.inv_status = Some(InvStatus { id: Some(rid("older")), status: "renewed".to_string() });
    let candidate = renewal_seed(&old_inv);
    let (_, closed) = finalize_renewal(&old_inv, candidate);
    let closed_status = closed.inv_status.expect("old record is marked closed");
    assert_eq!(closed_status.status, "closed");
    assert_eq!(closed_status.id.as_ref().map(|t| t.key.as_str()), Some("older"));
}

#[test]
fn renew_with_failing_close_leaves_old_record_open() {
    // The renew operation is two independent calls. Here the create succeeds
    // and the subsequent update of the old record fails: the collection ends
    // up holding both the new "renewed" record and the old record with its
    // status untouched. This documents the current behaviour; nothing rolls
    // the first call back.
    let old_inv = old_record();
    let state = InvestmentState::default().reduce(InvestmentAction::SetAll(VecDeque::from(vec![
        old_inv.clone(),
    ])));

    let mut candidate = renewal_seed(&old_inv);
    candidate.return_amount = 7000;
    candidate.return_rate = 8;
    candidate.end_date = Some(1_763_072_000_000);
    let (renewed, _closed) = finalize_renewal(&old_inv, candidate);

    // The server accepts the create and returns the persisted record.
    let mut persisted = renewed.clone();
    persisted.id = Some(rid("new"));
    persisted.created_at = Some(1_731_540_000_000);
    persisted.updated_at = Some(1_731_540_000_000);
    let state = match create_outcome(Ok(persisted)) {
        Outcome::Dispatch(action) => state.reduce(action),
        Outcome::Alert(_) => panic!("a successful create must dispatch"),
    };

    // The update of the old record fails: only an alert comes back.
    let state = match edit_outcome(Err("connection lost".to_string())) {
        Outcome::Dispatch(_) => panic!("a failed update must not dispatch"),
        Outcome::Alert(message) => {
            assert_eq!(message, "connection lost");
            state
        },
    };

    assert_eq!(state.investments.len(), 2);
    let new_rec = &state.investments[0];
    assert_eq!(new_rec.id.as_ref().map(|t| t.key.as_str()), Some("new"));
    assert_eq!(new_rec.inv_status.as_ref().map(|s| s.status.as_str()), Some("renewed"));
    let old_rec = &state.investments[1];
    assert_eq!(old_rec.id.as_ref().map(|t| t.key.as_str()), Some("old"));
    // The old record was never marked closed.
    assert!(old_rec.inv_status.is_none());
}
