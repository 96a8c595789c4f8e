use inv_tracker::forms::{reset_form, BaseFormComponent};
use inv_tracker::numeric::{parse_i32, parse_or_zero};
use inv_tracker::records::Investment;

fn valid_candidate() -> Investment {
    Investment {
        id: None,
        inv_name: "Fixed deposit".to_string(),
        inv_type: "FD".to_string(),
        return_rate: 7,
        return_type: "Ordinary".to_string(),
        inv_amount: 5000,
        return_amount: 6000,
        name: "Holder".to_string(),
        inv_status: None,
        start_date: Some(1_700_000_000_000),
        end_date: Some(1_731_536_000_000),
        created_at: None,
        updated_at: None,
    }
}

#[test]
fn valid_candidate_passes() {
    let mut form = BaseFormComponent::new();
    let mut candidate = valid_candidate();
    assert!(form.validate_form(&mut candidate));
    assert!(form.error_messages.inv_name.is_none());
    assert!(form.error_messages.return_amount.is_none());
}

#[test]
fn blank_fields_fail_with_messages() {
    let mut form = BaseFormComponent::new();
    let mut candidate = Investment::blank();
    assert!(!form.validate_form(&mut candidate));
    assert_eq!(
        form.error_messages.inv_name.as_deref(),
        Some("Investment Name can not be blank")
    );
    assert_eq!(form.error_messages.name.as_deref(), Some("Name can not be blank"));
    assert_eq!(
        form.error_messages.inv_type.as_deref(),
        Some("Investment Type can not be blank")
    );
    assert_eq!(
        form.error_messages.return_type.as_deref(),
        Some("Return Type can not be blank")
    );
    assert_eq!(
        form.error_messages.inv_amount.as_deref(),
        Some("Investment Amount can not be blank")
    );
    assert_eq!(
        form.error_messages.return_amount.as_deref(),
        Some("Return Amount can not be blank")
    );
    assert_eq!(
        form.error_messages.return_rate.as_deref(),
        Some("Return Rate can not be blank")
    );
    assert_eq!(
        form.error_messages.start_date.as_deref(),
        Some("Start Date can not be blank")
    );
    assert_eq!(form.error_messages.end_date.as_deref(), Some("End Date can not be blank"));
}

#[test]
fn amounts_out_of_order_flag_both_fields() {
    let mut form = BaseFormComponent::new();
    let mut candidate = valid_candidate();
    candidate.inv_amount = 6000;
    candidate.return_amount = 5000;
    assert!(!form.validate_form(&mut candidate));
    assert_eq!(
        form.error_messages.inv_amount.as_deref(),
        Some("Investment Amount can not be more than Return Amount")
    );
    assert_eq!(
        form.error_messages.return_amount.as_deref(),
        Some("Return Amount can not be less than Investment Amount")
    );
}

#[test]
fn zero_return_amount_scenario() {
    // Invested five thousand against a return of nothing: validation fails
    // with an error attached to the return amount; entering six thousand
    // clears it and the record then passes.
    let mut form = BaseFormComponent::new();
    let mut candidate = valid_candidate();
    candidate.inv_amount = 5000;
    candidate.return_amount = 0;
    assert!(!form.validate_form(&mut candidate));
    assert!(form.error_messages.return_amount.is_some());

    form.update_field(&mut candidate, "return-amount", "6000".to_string());
    assert_eq!(candidate.return_amount, 6000);
    assert!(form.error_messages.return_amount.is_none());
    assert!(form.validate_form(&mut candidate));
}

#[test]
fn update_field_writes_each_field() {
    let mut form = BaseFormComponent::new();
    let mut candidate = Investment::blank();
    form.update_field(&mut candidate, "inv-name", "Bond".to_string());
    form.update_field(&mut candidate, "name", "Holder".to_string());
    form.update_field(&mut candidate, "inv-type", "RD".to_string());
    form.update_field(&mut candidate, "return-type", "Culmulative".to_string());
    form.update_field(&mut candidate, "return-rate", "8".to_string());
    form.update_field(&mut candidate, "inv-amount", "1500".to_string());
    form.update_field(&mut candidate, "return-amount", "1800".to_string());
    assert_eq!(candidate.inv_name, "Bond");
    assert_eq!(candidate.name, "Holder");
    assert_eq!(candidate.inv_type, "RD");
    assert_eq!(candidate.return_type, "Culmulative");
    assert_eq!(candidate.return_rate, 8);
    assert_eq!(candidate.inv_amount, 1500);
    assert_eq!(candidate.return_amount, 1800);
}

#[test]
fn update_field_reads_malformed_numbers_as_zero() {
    let mut form = BaseFormComponent::new();
    let mut candidate = valid_candidate();
    form.update_field(&mut candidate, "return-rate", "eight".to_string());
    assert_eq!(candidate.return_rate, 0);
}

#[test]
fn update_field_unknown_identifier_is_noop() {
    let mut form = BaseFormComponent::new();
    let mut candidate = valid_candidate();
    let before_name = candidate.inv_name.clone();
    form.update_field(&mut candidate, "no-such-field", "whatever".to_string());
    assert_eq!(candidate.inv_name, before_name);
    assert_eq!(candidate.inv_amount, 5000);
}

#[test]
fn update_field_clears_only_that_error() {
    let mut form = BaseFormComponent::new();
    let mut candidate = Investment::blank();
    assert!(!form.validate_form(&mut candidate));
    form.update_field(&mut candidate, "inv-name", "Bond".to_string());
    assert!(form.error_messages.inv_name.is_none());
    assert!(form.error_messages.name.is_some());
}

#[test]
fn update_date_field_writes_dates() {
    let mut form = BaseFormComponent::new();
    let mut candidate = Investment::blank();
    form.update_date_field(&mut candidate, "start-date", Some(1_700_000_000_000));
    form.update_date_field(&mut candidate, "end-date", Some(1_731_536_000_000));
    assert_eq!(candidate.start_date, Some(1_700_000_000_000));
    assert_eq!(candidate.end_date, Some(1_731_536_000_000));
    form.update_date_field(&mut candidate, "start-date", None);
    assert_eq!(candidate.start_date, None);
}

#[test]
fn reset_form_clears_entries_only() {
    let mut candidate = valid_candidate();
    candidate.created_at = Some(42);
    reset_form(&mut candidate);
    assert_eq!(candidate.inv_name, "");
    assert_eq!(candidate.name, "");
    assert_eq!(candidate.inv_type, "");
    assert_eq!(candidate.return_type, "");
    assert_eq!(candidate.inv_amount, 0);
    assert_eq!(candidate.return_amount, 0);
    assert_eq!(candidate.return_rate, 0);
    assert_eq!(candidate.start_date, None);
    assert_eq!(candidate.end_date, None);
    assert_eq!(candidate.created_at, Some(42));
}

#[test]
fn parse_i32_reads_signed_decimals() {
    assert_eq!(parse_i32("123"), Some(123));
    assert_eq!(parse_i32("-45"), Some(-45));
    assert_eq!(parse_i32("+7"), Some(7));
    assert_eq!(parse_i32("0"), Some(0));
    assert_eq!(parse_i32("00042"), Some(42));
    assert_eq!(parse_i32("2147483647"), Some(i32::MAX));
    assert_eq!(parse_i32("-2147483648"), Some(i32::MIN));
}

#[test]
fn parse_i32_rejects_malformed_and_out_of_range() {
    assert_eq!(parse_i32(""), None);
    assert_eq!(parse_i32("-"), None);
    assert_eq!(parse_i32("+"), None);
    assert_eq!(parse_i32("12a"), None);
    assert_eq!(parse_i32("1 2"), None);
    assert_eq!(parse_i32("2147483648"), None);
    assert_eq!(parse_i32("-2147483649"), None);
    assert_eq!(parse_i32("99999999999999999999"), None);
}

#[test]
fn parse_or_zero_defaults_to_zero() {
    assert_eq!(parse_or_zero("250"), 250);
    assert_eq!(parse_or_zero("bad"), 0);
    assert_eq!(parse_or_zero(""), 0);
}

#[test]
fn error_message_reads_by_field_identifier() {
    let mut form = BaseFormComponent::new();
    let mut candidate = Investment::blank();
    assert!(!form.validate_form(&mut candidate));
    assert_eq!(
        form.error_message("inv-name").as_deref(),
        Some("Investment Name can not be blank")
    );
    assert_eq!(
        form.error_message("start-date").as_deref(),
        Some("Start Date can not be blank")
    );
    assert_eq!(form.error_message("no-such-field"), None);
}

#[test]
fn kebab_to_title_capitalizes_parts() {
    let form = BaseFormComponent::new();
    assert_eq!(form.kebab_to_title("inv-name"), "Inv Name");
    assert_eq!(form.kebab_to_title("return-amount"), "Return Amount");
    assert_eq!(form.kebab_to_title("name"), "Name");
    assert_eq!(form.kebab_to_title(""), "");
    assert_eq!(form.kebab_to_title("a--b"), "A  B");
}
