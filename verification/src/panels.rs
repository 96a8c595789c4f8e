//! The interaction state of one row in the investment table: which of its
//! expandable panels is open, whether the delete confirmation is showing,
//! and when a confirmed delete may actually be requested.

use vstd::prelude::*;

verus! {

/// One user interaction with an investment row.
pub enum InvestmentItemState {
    ToggleExpandMore,
    ToggleExpandEdit,
    ToggleExpandRenew,
    ToggleDeleteConfirmation,
    ConfirmDelete,
    CancelDelete,
}

/// One interaction with the expandable create-form header.
pub enum ExpandableHeaderState {
    Toggle,
}

/// A row's panels: at most one of the three expandable panels is kept open,
/// and the delete confirmation overlays them independently.
pub struct ItemPanels {
    pub open_more: bool,
    pub open_edit: bool,
    pub open_renew: bool,
    pub show_delete_confirmation: bool,
}

impl ItemPanels {
    /// A freshly rendered row: everything closed.
    pub fn new() -> (r: ItemPanels)
        ensures
            r == (ItemPanels {
                open_more: false,
                open_edit: false,
                open_renew: false,
                show_delete_confirmation: false,
            }),
    {
        ItemPanels {
            open_more: false,
            open_edit: false,
            open_renew: false,
            show_delete_confirmation: false,
        }
    }

    /// Applies one interaction: opening one panel closes the other two, the
    /// confirmation toggles on its own, and a confirmed delete is requested
    /// only for a record that is persisted (`has_record_id`) — confirming the
    /// delete of an unsaved record changes nothing.
    pub fn step(&mut self, msg: &InvestmentItemState, has_record_id: bool) -> (request_delete:
        bool)
        ensures
            msg is ToggleExpandMore ==> *final(self) == (ItemPanels {
                open_more: !old(self).open_more,
                open_edit: false,
                open_renew: false,
                ..*old(self)
            }) && !request_delete,
            msg is ToggleExpandEdit ==> *final(self) == (ItemPanels {
                open_edit: !old(self).open_edit,
                open_more: false,
                open_renew: false,
                ..*old(self)
            }) && !request_delete,
            msg is ToggleExpandRenew ==> *final(self) == (ItemPanels {
                open_renew: !old(self).open_renew,
                open_more: false,
                open_edit: false,
                ..*old(self)
            }) && !request_delete,
            msg is ToggleDeleteConfirmation ==> *final(self) == (ItemPanels {
                show_delete_confirmation: !old(self).show_delete_confirmation,
                ..*old(self)
            }) && !request_delete,
            msg is ConfirmDelete && has_record_id ==> *final(self) == (ItemPanels {
                show_delete_confirmation: false,
                ..*old(self)
            }) && request_delete,
            msg is ConfirmDelete && !has_record_id ==> *final(self) == *old(self)
                && !request_delete,
            msg is CancelDelete ==> *final(self) == (ItemPanels {
                show_delete_confirmation: false,
                ..*old(self)
            }) && !request_delete,
    {
        match msg {
            InvestmentItemState::ToggleExpandMore => {
                self.open_more = !self.open_more;
                self.open_edit = false;
                self.open_renew = false;
                false
            },
            InvestmentItemState::ToggleExpandEdit => {
                self.open_edit = !self.open_edit;
                self.open_more = false;
                self.open_renew = false;
                false
            },
            InvestmentItemState::ToggleExpandRenew => {
                self.open_renew = !self.open_renew;
                self.open_more = false;
                self.open_edit = false;
                false
            },
            InvestmentItemState::ToggleDeleteConfirmation => {
                self.show_delete_confirmation = !self.show_delete_confirmation;
                false
            },
            InvestmentItemState::ConfirmDelete => {
                if has_record_id {
                    self.show_delete_confirmation = false;
                    true
                } else {
                    false
                }
            },
            InvestmentItemState::CancelDelete => {
                self.show_delete_confirmation = false;
                false
            },
        }
    }
}

/// Applies one interaction to the expandable header: it simply opens or
/// closes.
pub fn header_step(open: bool, msg: &ExpandableHeaderState) -> (r: bool)
    ensures
        msg is Toggle ==> r == !open,
{
    match msg {
        ExpandableHeaderState::Toggle => !open,
    }
}

} // verus!
