use inv_tracker::panels::{header_step, ExpandableHeaderState, InvestmentItemState, ItemPanels};

#[test]
fn opening_one_panel_closes_the_others() {
    let mut panels = ItemPanels::new();
    assert!(!panels.step(&InvestmentItemState::ToggleExpandEdit, true));
    assert!(panels.open_edit);
    assert!(!panels.open_more && !panels.open_renew);

    assert!(!panels.step(&InvestmentItemState::ToggleExpandRenew, true));
    assert!(panels.open_renew);
    assert!(!panels.open_more && !panels.open_edit);

    assert!(!panels.step(&InvestmentItemState::ToggleExpandMore, true));
    assert!(panels.open_more);
    assert!(!panels.open_edit && !panels.open_renew);

    assert!(!panels.step(&InvestmentItemState::ToggleExpandMore, true));
    assert!(!panels.open_more);
}

#[test]
fn delete_needs_confirmation_and_a_persisted_record() {
    let mut panels = ItemPanels::new();
    assert!(!panels.step(&InvestmentItemState::ToggleDeleteConfirmation, true));
    assert!(panels.show_delete_confirmation);

    // Cancelling hides the overlay without requesting anything.
    assert!(!panels.step(&InvestmentItemState::CancelDelete, true));
    assert!(!panels.show_delete_confirmation);

    // Confirming on a persisted record requests the delete and hides the
    // overlay.
    assert!(!panels.step(&InvestmentItemState::ToggleDeleteConfirmation, true));
    assert!(panels.step(&InvestmentItemState::ConfirmDelete, true));
    assert!(!panels.show_delete_confirmation);

    // Confirming on an unsaved record changes nothing.
    assert!(!panels.step(&InvestmentItemState::ToggleDeleteConfirmation, false));
    assert!(!panels.step(&InvestmentItemState::ConfirmDelete, false));
    assert!(panels.show_delete_confirmation);
}

#[test]
fn header_toggles() {
    assert!(header_step(false, &ExpandableHeaderState::Toggle));
    assert!(!header_step(true, &ExpandableHeaderState::Toggle));
}
