//! The shared form component: the per-field error map, field updates with
//! their error-clearing rules, and the full pre-submission validation.

use vstd::prelude::*;

use crate::numeric::{parse_or_zero, spec_parse_or_zero};
use crate::records::Investment;
use crate::text::{str_eq, title_case, title_of};

verus! {

broadcast use vstd::string::group_string_axioms;

/// One optional message per form field, keyed by the field's kebab-case
/// identifier. Only these fields ever carry a message.
pub struct ErrorMessages {
    pub inv_name: Option<String>,
    pub name: Option<String>,
    pub inv_type: Option<String>,
    pub return_type: Option<String>,
    pub inv_amount: Option<String>,
    pub return_amount: Option<String>,
    pub return_rate: Option<String>,
    pub start_date: Option<String>,
    pub end_date: Option<String>,
}

impl ErrorMessages {
    /// The empty map: no field carries a message.
    pub fn new() -> (r: ErrorMessages)
        ensures
            r == ErrorMessages::spec_empty(),
    {
        ErrorMessages {
            inv_name: Option::None,
            name: Option::None,
            inv_type: Option::None,
            return_type: Option::None,
            inv_amount: Option::None,
            return_amount: Option::None,
            return_rate: Option::None,
            start_date: Option::None,
            end_date: Option::None,
        }
    }

    /// The map with no messages.
    pub open spec fn spec_empty() -> ErrorMessages {
        ErrorMessages {
            inv_name: Option::None,
            name: Option::None,
            inv_type: Option::None,
            return_type: Option::None,
            inv_amount: Option::None,
            return_amount: Option::None,
            return_rate: Option::None,
            start_date: Option::None,
            end_date: Option::None,
        }
    }
}

/// `m` holds a message reading exactly `text`.
pub open spec fn msg_is(m: Option<String>, text: Seq<char>) -> bool {
    match m {
        Option::Some(s) => s@ == text,
        Option::None => false,
    }
}

/// Whether a candidate record passes every pre-submission check: the display
/// strings and choice fields non-empty, the amounts and the rate non-zero,
/// the invested amount not above the return amount, and both dates present.
pub open spec fn spec_valid(inv: Investment) -> bool {
    inv.inv_name@.len() > 0 && inv.name@.len() > 0 && inv.inv_type@.len() > 0
        && inv.return_type@.len() > 0 && inv.inv_amount != 0 && inv.return_amount != 0 && !(
    inv.inv_amount > inv.return_amount) && inv.return_rate != 0 && inv.start_date is Some
        && inv.end_date is Some
}

/// The state shared by every investment form: the error messages its checks
/// have attached, keyed by field identifier.
pub struct BaseFormComponent {
    pub error_messages: ErrorMessages,
}

impl BaseFormComponent {
    /// A form component with no errors attached.
    pub fn new() -> (r: BaseFormComponent)
        ensures
            r.error_messages == ErrorMessages::spec_empty(),
    {
        BaseFormComponent { error_messages: ErrorMessages::new() }
    }

    /// Writes one field of the candidate record from the raw form input and
    /// clears that field's error; a numeric field is read as a decimal
    /// integer, anything malformed counting as zero, and repairing the
    /// amount order also clears the counterpart amount's error. An unknown
    /// field identifier changes nothing.
    pub fn update_field(&mut self, investment: &mut Investment, field: &str, value: String)
        ensures
            field@ == "inv-name"@ ==> *final(investment) == (Investment {
                inv_name: value,
                ..*old(investment)
            }) && final(self).error_messages == (ErrorMessages {
                inv_name: Option::None,
                ..old(self).error_messages
            }),
            field@ == "name"@ ==> *final(investment) == (Investment {
                name: value,
                ..*old(investment)
            }) && final(self).error_messages == (ErrorMessages {
                name: Option::None,
                ..old(self).error_messages
            }),
            field@ == "inv-type"@ ==> *final(investment) == (Investment {
                inv_type: value,
                ..*old(investment)
            }) && final(self).error_messages == (ErrorMessages {
                inv_type: Option::None,
                ..old(self).error_messages
            }),
            field@ == "return-type"@ ==> *final(investment) == (Investment {
                return_type: value,
                ..*old(investment)
            }) && final(self).error_messages == (ErrorMessages {
                return_type: Option::None,
                ..old(self).error_messages
            }),
            field@ == "return-rate"@ ==> *final(investment) == (Investment {
                return_rate: spec_parse_or_zero(value@),
                ..*old(investment)
            }) && final(self).error_messages == (ErrorMessages {
                return_rate: Option::None,
                ..old(self).error_messages
            }),
            field@ == "inv-amount"@ ==> *final(investment) == (Investment {
                inv_amount: spec_parse_or_zero(value@),
                ..*old(investment)
            }) && final(self).error_messages == (ErrorMessages {
                inv_amount: Option::None,
                return_amount: if spec_parse_or_zero(value@) < old(
                    investment,
                ).return_amount {
                    Option::None
                } else {
                    old(self).error_messages.return_amount
                },
                ..old(self).error_messages
            }),
            field@ == "return-amount"@ ==> *final(investment) == (Investment {
                return_amount: spec_parse_or_zero(value@),
                ..*old(investment)
            }) && final(self).error_messages == (ErrorMessages {
                return_amount: Option::None,
                inv_amount: if old(investment).inv_amount < spec_parse_or_zero(
                    value@,
                ) {
                    Option::None
                } else {
                    old(self).error_messages.inv_amount
                },
                ..old(self).error_messages
            }),
            !(field@ == "inv-name"@ || field@ == "name"@ || field@ == "inv-type"@ || field@
                == "return-type"@ || field@ == "return-rate"@ || field@ == "inv-amount"@ || field@
                == "return-amount"@) ==> *final(investment) == *old(investment)
                && final(self).error_messages == old(self).error_messages,
    {
        proof {
            reveal_strlit("inv-name");
            reveal_strlit("name");
            reveal_strlit("inv-type");
            reveal_strlit("return-type");
            reveal_strlit("return-rate");
            reveal_strlit("inv-amount");
            reveal_strlit("return-amount");
            assert("inv-name"@.len() == 8);
            assert("name"@.len() == 4);
            assert("inv-type"@.len() == 8);
            assert("return-type"@.len() == 11);
            assert("return-rate"@.len() == 11);
            assert("inv-amount"@.len() == 10);
            assert("return-amount"@.len() == 13);
            assert("inv-name"@[4] == 'n' && "inv-type"@[4] == 't');
            assert("return-type"@[7] == 't' && "return-rate"@[7] == 'r');
        }
        if str_eq(field, "inv-name") {
            investment.inv_name = value;
            self.error_messages.inv_name = Option::None;
        } else if str_eq(field, "name") {
            investment.name = value;
            self.error_messages.name = Option::None;
        } else if str_eq(field, "inv-type") {
            investment.inv_type = value;
            self.error_messages.inv_type = Option::None;
        } else if str_eq(field, "return-type") {
            investment.return_type = value;
            self.error_messages.return_type = Option::None;
        } else if str_eq(field, "return-rate") {
            investment.return_rate = parse_or_zero(value.as_str());
            self.error_messages.return_rate = Option::None;
        } else if str_eq(field, "inv-amount") {
            investment.inv_amount = parse_or_zero(value.as_str());
            if investment.inv_amount < investment.return_amount {
                self.error_messages.return_amount = Option::None;
            }
            self.error_messages.inv_amount = Option::None;
        } else if str_eq(field, "return-amount") {
            investment.return_amount = parse_or_zero(value.as_str());
            if investment.inv_amount < investment.return_amount {
                self.error_messages.inv_amount = Option::None;
            }
            self.error_messages.return_amount = Option::None;
        }
    }

    /// Writes one of the two date fields of the candidate record and clears
    /// that field's error. An unknown field identifier changes nothing.
    pub fn update_date_field(
        &mut self,
        investment: &mut Investment,
        field: &str,
        value: Option<i64>,
    )
        ensures
            field@ == "start-date"@ ==> *final(investment) == (Investment {
                start_date: value,
                ..*old(investment)
            }) && final(self).error_messages == (ErrorMessages {
                start_date: Option::None,
                ..old(self).error_messages
            }),
            field@ == "end-date"@ ==> *final(investment) == (Investment {
                end_date: value,
                ..*old(investment)
            }) && final(self).error_messages == (ErrorMessages {
                end_date: Option::None,
                ..old(self).error_messages
            }),
            !(field@ == "start-date"@ || field@ == "end-date"@) ==> *final(investment) == *old(
                investment,
            ) && final(self).error_messages == old(self).error_messages,
    {
        proof {
            reveal_strlit("start-date");
            reveal_strlit("end-date");
            assert("start-date"@.len() == 10);
            assert("end-date"@.len() == 8);
        }
        if str_eq(field, "start-date") {
            investment.start_date = value;
            self.error_messages.start_date = Option::None;
        } else if str_eq(field, "end-date") {
            investment.end_date = value;
            self.error_messages.end_date = Option::None;
        }
    }

    /// Runs every pre-submission check on the candidate record, attaching a
    /// message to each failing field (a field that passes keeps whatever
    /// message it had), and returns whether all checks passed. The record
    /// itself is not changed.
    pub fn validate_form(&mut self, investment: &mut Investment) -> (is_valid: bool)
        ensures
            is_valid == spec_valid(*old(investment)),
            *final(investment) == *old(investment),
            (if old(investment).inv_name@.len() == 0 {
                msg_is(final(self).error_messages.inv_name, "Investment Name can not be blank"@)
            } else {
                final(self).error_messages.inv_name == old(self).error_messages.inv_name
            }),
            (if old(investment).name@.len() == 0 {
                msg_is(final(self).error_messages.name, "Name can not be blank"@)
            } else {
                final(self).error_messages.name == old(self).error_messages.name
            }),
            (if old(investment).inv_type@.len() == 0 {
                msg_is(final(self).error_messages.inv_type, "Investment Type can not be blank"@)
            } else {
                final(self).error_messages.inv_type == old(self).error_messages.inv_type
            }),
            (if old(investment).return_type@.len() == 0 {
                msg_is(final(self).error_messages.return_type, "Return Type can not be blank"@)
            } else {
                final(self).error_messages.return_type == old(self).error_messages.return_type
            }),
            (if old(investment).inv_amount > old(investment).return_amount {
                msg_is(
                    final(self).error_messages.inv_amount,
                    "Investment Amount can not be more than Return Amount"@,
                )
            } else if old(investment).inv_amount == 0 {
                msg_is(final(self).error_messages.inv_amount, "Investment Amount can not be blank"@)
            } else {
                final(self).error_messages.inv_amount == old(self).error_messages.inv_amount
            }),
            (if old(investment).inv_amount > old(investment).return_amount {
                msg_is(
                    final(self).error_messages.return_amount,
                    "Return Amount can not be less than Investment Amount"@,
                )
            } else if old(investment).return_amount == 0 {
                msg_is(final(self).error_messages.return_amount, "Return Amount can not be blank"@)
            } else {
                final(self).error_messages.return_amount == old(self).error_messages.return_amount
            }),
            (if old(investment).return_rate == 0 {
                msg_is(final(self).error_messages.return_rate, "Return Rate can not be blank"@)
            } else {
                final(self).error_messages.return_rate == old(self).error_messages.return_rate
            }),
            (if old(investment).start_date is None {
                msg_is(final(self).error_messages.start_date, "Start Date can not be blank"@)
            } else {
                final(self).error_messages.start_date == old(self).error_messages.start_date
            }),
            (if old(investment).end_date is None {
                msg_is(final(self).error_messages.end_date, "End Date can not be blank"@)
            } else {
                final(self).error_messages.end_date == old(self).error_messages.end_date
            }),
    {
        let mut is_valid = true;

        if investment.inv_name.as_str().unicode_len() == 0 {
            self.error_messages.inv_name = Option::Some(
                "Investment Name can not be blank".to_owned(),
            );
            is_valid = false;
        }
        if investment.name.as_str().unicode_len() == 0 {
            self.error_messages.name = Option::Some("Name can not be blank".to_owned());
            is_valid = false;
        }
        if investment.inv_type.as_str().unicode_len() == 0 {
            self.error_messages.inv_type = Option::Some(
                "Investment Type can not be blank".to_owned(),
            );
            is_valid = false;
        }
        if investment.return_type.as_str().unicode_len() == 0 {
            self.error_messages.return_type = Option::Some(
                "Return Type can not be blank".to_owned(),
            );
            is_valid = false;
        }
        if investment.inv_amount == 0 {
            self.error_messages.inv_amount = Option::Some(
                "Investment Amount can not be blank".to_owned(),
            );
            is_valid = false;
        }
        if investment.return_amount == 0 {
            self.error_messages.return_amount = Option::Some(
                "Return Amount can not be blank".to_owned(),
            );
            is_valid = false;
        }
        if investment.inv_amount > investment.return_amount {
            self.error_messages.inv_amount = Option::Some(
                "Investment Amount can not be more than Return Amount".to_owned(),
            );
            self.error_messages.return_amount = Option::Some(
                "Return Amount can not be less than Investment Amount".to_owned(),
            );
            is_valid = false;
        }
        if investment.return_rate == 0 {
            self.error_messages.return_rate = Option::Some("Return Rate can not be blank".to_owned());
            is_valid = false;
        }
        if investment.start_date.is_none() {
            self.error_messages.start_date = Option::Some("Start Date can not be blank".to_owned());
            is_valid = false;
        }
        if investment.end_date.is_none() {
            self.error_messages.end_date = Option::Some("End Date can not be blank".to_owned());
            is_valid = false;
        }

        is_valid
    }

    /// The message attached to the named field, if any: what the error line
    /// under that field shows. An unknown field identifier carries none.
    pub fn error_message(&self, field: &str) -> (r: Option<String>)
        ensures
            field@ == "inv-name"@ ==> r == self.error_messages.inv_name,
            field@ == "name"@ ==> r == self.error_messages.name,
            field@ == "inv-type"@ ==> r == self.error_messages.inv_type,
            field@ == "return-type"@ ==> r == self.error_messages.return_type,
            field@ == "inv-amount"@ ==> r == self.error_messages.inv_amount,
            field@ == "return-amount"@ ==> r == self.error_messages.return_amount,
            field@ == "return-rate"@ ==> r == self.error_messages.return_rate,
            field@ == "start-date"@ ==> r == self.error_messages.start_date,
            field@ == "end-date"@ ==> r == self.error_messages.end_date,
            !(field@ == "inv-name"@ || field@ == "name"@ || field@ == "inv-type"@ || field@
                == "return-type"@ || field@ == "inv-amount"@ || field@ == "return-amount"@
                || field@ == "return-rate"@ || field@ == "start-date"@ || field@ == "end-date"@)
                ==> r is None,
    {
        proof {
            reveal_strlit("inv-name");
            reveal_strlit("name");
            reveal_strlit("inv-type");
            reveal_strlit("return-type");
            reveal_strlit("return-rate");
            reveal_strlit("inv-amount");
            reveal_strlit("return-amount");
            reveal_strlit("start-date");
            reveal_strlit("end-date");
            assert("inv-name"@.len() == 8);
            assert("name"@.len() == 4);
            assert("inv-type"@.len() == 8);
            assert("return-type"@.len() == 11);
            assert("return-rate"@.len() == 11);
            assert("inv-amount"@.len() == 10);
            assert("return-amount"@.len() == 13);
            assert("start-date"@.len() == 10);
            assert("end-date"@.len() == 8);
            assert("inv-name"@[4] == 'n' && "inv-type"@[4] == 't' && "end-date"@[4] == 'd');
            assert("return-type"@[7] == 't' && "return-rate"@[7] == 'r');
            assert("inv-amount"@[0] == 'i' && "start-date"@[0] == 's');
        }
        let slot: &Option<String> = if str_eq(field, "inv-name") {
            &self.error_messages.inv_name
        } else if str_eq(field, "name") {
            &self.error_messages.name
        } else if str_eq(field, "inv-type") {
            &self.error_messages.inv_type
        } else if str_eq(field, "return-type") {
            &self.error_messages.return_type
        } else if str_eq(field, "inv-amount") {
            &self.error_messages.inv_amount
        } else if str_eq(field, "return-amount") {
            &self.error_messages.return_amount
        } else if str_eq(field, "return-rate") {
            &self.error_messages.return_rate
        } else if str_eq(field, "start-date") {
            &self.error_messages.start_date
        } else if str_eq(field, "end-date") {
            &self.error_messages.end_date
        } else {
            return Option::None;
        };
        match slot {
            Option::Some(m) => Option::Some(m.clone()),
            Option::None => Option::None,
        }
    }

    /// Turns a kebab-case field identifier into the label shown beside the
    /// field: each part's first character uppercased, parts joined by spaces.
    pub fn kebab_to_title(&self, s: &str) -> (r: String)
        ensures
            r@ == title_of(s@),
    {
        title_case(s)
    }
}

/// Clears a candidate record back to the create form's initial state: the
/// text fields empty, the numbers zero, the dates absent; the identifier,
/// status and server timestamps are untouched.
pub fn reset_form(investment: &mut Investment)
    ensures
        *final(investment) == (Investment {
            inv_name: final(investment).inv_name,
            name: final(investment).name,
            inv_type: final(investment).inv_type,
            return_type: final(investment).return_type,
            inv_amount: 0,
            return_amount: 0,
            return_rate: 0,
            start_date: Option::None,
            end_date: Option::None,
            ..*old(investment)
        }),
        final(investment).inv_name@.len() == 0,
        final(investment).name@.len() == 0,
        final(investment).inv_type@.len() == 0,
        final(investment).return_type@.len() == 0,
{
    investment.inv_name = String::new();
    investment.name = String::new();
    investment.inv_type = String::new();
    investment.return_type = String::new();
    investment.inv_amount = 0;
    investment.return_amount = 0;
    investment.return_rate = 0;
    investment.start_date = Option::None;
    investment.end_date = Option::None;
}

} // verus!
