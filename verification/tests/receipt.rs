use smart_parking::receipt::{from_pairs, ReceiptDocument};

fn pairs(items: &[(&str, &str)]) -> Vec<(String, String)> {
    items
        .iter()
        .map(|(k, v)| (k.to_string(), v.to_string()))
        .collect()
}

#[test]
fn empty_document_has_every_field_absent() {
    let d = ReceiptDocument::empty();
    assert!(d.company_name.is_none());
    assert!(d.item_description.is_none());
    assert!(d.qr_payload.is_none());
    assert!(d.payment_number.is_none());
}

#[test]
fn recognized_keys_fill_their_fields() {
    let d = from_pairs(&pairs(&[
        ("company_name", "ACME"),
        ("company_subtitle", "Karibu"),
        ("receipt_number", "R-1"),
        ("receipt_ref", "K-2"),
        ("date_time", "2024-05-06"),
        ("plate_number", "T 123"),
        ("entry_time", "08:00"),
        ("exit_time", "09:00"),
        ("item_description", "Parking"),
        ("item_quantity", "2"),
        ("item_amount", "1,000"),
        ("total_amount", "2,000"),
        ("operator_name", "Asha"),
        ("location", "Lot B"),
        ("qr_payload", "PAY|1"),
        ("payment_number", "555"),
    ]));
    assert_eq!(d.company_name.as_deref(), Some("ACME"));
    assert_eq!(d.company_subtitle.as_deref(), Some("Karibu"));
    assert_eq!(d.receipt_number.as_deref(), Some("R-1"));
    assert_eq!(d.receipt_ref.as_deref(), Some("K-2"));
    assert_eq!(d.date_time.as_deref(), Some("2024-05-06"));
    assert_eq!(d.plate_number.as_deref(), Some("T 123"));
    assert_eq!(d.entry_time.as_deref(), Some("08:00"));
    assert_eq!(d.exit_time.as_deref(), Some("09:00"));
    assert_eq!(d.item_description.as_deref(), Some("Parking"));
    assert_eq!(d.item_quantity.as_deref(), Some("2"));
    assert_eq!(d.item_amount.as_deref(), Some("1,000"));
    assert_eq!(d.total_amount.as_deref(), Some("2,000"));
    assert_eq!(d.operator_name.as_deref(), Some("Asha"));
    assert_eq!(d.location.as_deref(), Some("Lot B"));
    assert_eq!(d.qr_payload.as_deref(), Some("PAY|1"));
    assert_eq!(d.payment_number.as_deref(), Some("555"));
}

#[test]
fn unrecognized_keys_are_ignored_and_missing_keys_stay_absent() {
    let d = from_pairs(&pairs(&[("mystery", "x"), ("company_name", "ACME")]));
    assert_eq!(d.company_name.as_deref(), Some("ACME"));
    assert!(d.receipt_number.is_none());
    assert!(d.total_amount.is_none());
}

#[test]
fn first_value_wins_for_duplicate_keys() {
    let d = from_pairs(&pairs(&[
        ("company_name", "FIRST"),
        ("company_name", "SECOND"),
    ]));
    assert_eq!(d.company_name.as_deref(), Some("FIRST"));
}

#[test]
fn unit_price_is_a_fallback_spelling_for_the_item_amount() {
    let d = from_pairs(&pairs(&[("item_unit_price", "750")]));
    assert_eq!(d.item_amount.as_deref(), Some("750"));
    let d2 = from_pairs(&pairs(&[
        ("item_unit_price", "750"),
        ("item_amount", "800"),
    ]));
    assert_eq!(d2.item_amount.as_deref(), Some("800"));
}
