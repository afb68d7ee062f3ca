use smart_parking::escpos::{encode, generate_escpos_receipt, ReceiptLayout};
use smart_parking::receipt::ReceiptDocument;

fn contains(haystack: &[u8], needle: &[u8]) -> bool {
    if needle.is_empty() {
        return true;
    }
    if haystack.len() < needle.len() {
        return false;
    }
    for start in 0..=haystack.len() - needle.len() {
        if &haystack[start..start + needle.len()] == needle {
            return true;
        }
    }
    false
}

fn doc_with(f: impl FnOnce(&mut ReceiptDocument)) -> ReceiptDocument {
    let mut d = ReceiptDocument::empty();
    f(&mut d);
    d
}

#[test]
fn empty_document_is_framed_and_uses_defaults() {
    let doc = ReceiptDocument::empty();
    let bytes = generate_escpos_receipt(&doc);
    assert!(!bytes.is_empty());
    assert_eq!(&bytes[0..2], &[0x1B, 0x40]);
    assert_eq!(&bytes[bytes.len() - 3..], &[0x1D, 0x56, 0x00]);
    assert!(contains(&bytes, b"SMART PARKING"));
    assert!(contains(&bytes, b"Parking Fee"));
    assert!(contains(&bytes, b"3,000"));
    assert!(contains(&bytes, b"MWISHO WA STAKABADHI"));
    // No detail labels appear for absent fields.
    assert!(!contains(&bytes, b"RECEIPT: "));
    assert!(!contains(&bytes, b"PLATE: "));
    assert!(!contains(&bytes, b"OPERATOR: "));
    assert!(!contains(&bytes, b"Days:"));
    assert!(!contains(&bytes, b"SCAN TO PAY"));
}

#[test]
fn encoding_is_deterministic() {
    let doc = doc_with(|d| {
        d.company_name = Some("ACME PARK".to_string());
        d.receipt_number = Some("R-0042".to_string());
        d.item_quantity = Some("2".to_string());
        d.total_amount = Some("12,500".to_string());
        d.qr_payload = Some("PAY|R-0042|12500".to_string());
    });
    let a = generate_escpos_receipt(&doc);
    let b = generate_escpos_receipt(&doc);
    assert_eq!(a, b);
}

#[test]
fn present_fields_get_labeled_lines() {
    let doc = doc_with(|d| {
        d.receipt_number = Some("R-7".to_string());
        d.receipt_ref = Some("K-9".to_string());
        d.date_time = Some("2024-01-02 03:04".to_string());
        d.plate_number = Some("T123ABC".to_string());
        d.entry_time = Some("03:00".to_string());
        d.exit_time = Some("04:00".to_string());
        d.operator_name = Some("Asha".to_string());
        d.location = Some("Gate A".to_string());
    });
    let bytes = generate_escpos_receipt(&doc);
    assert!(contains(&bytes, b"RECEIPT: R-7\n"));
    assert!(contains(&bytes, b"REF: K-9\n"));
    assert!(contains(&bytes, b"DATE: 2024-01-02 03:04\n"));
    assert!(contains(&bytes, b"PLATE: T123ABC\n"));
    assert!(contains(&bytes, b"ENTRY: 03:00\n"));
    assert!(contains(&bytes, b"EXIT: 04:00\n"));
    assert!(contains(&bytes, b"OPERATOR: Asha\n"));
    assert!(contains(&bytes, b"LOCATION: Gate A\n"));
}

#[test]
fn item_amount_is_preferred_over_total() {
    let doc = doc_with(|d| {
        d.item_amount = Some("1,000".to_string());
        d.total_amount = Some("9,999".to_string());
    });
    let bytes = generate_escpos_receipt(&doc);
    assert!(contains(&bytes, b"TOTAL: 1,000"));
    assert!(!contains(&bytes, b"TOTAL: 9,999"));
}

#[test]
fn total_amount_is_used_when_no_item_amount() {
    let doc = doc_with(|d| {
        d.total_amount = Some("9,999".to_string());
    });
    let bytes = generate_escpos_receipt(&doc);
    assert!(contains(&bytes, b"TOTAL: 9,999"));
}

#[test]
fn line_item_row_is_padded_to_fixed_columns() {
    let doc = doc_with(|d| {
        d.item_description = Some("Fee".to_string());
        d.item_amount = Some("500".to_string());
    });
    let bytes = generate_escpos_receipt(&doc);
    // Description left-aligned in 26 columns, amount right-aligned in 14.
    let mut row = Vec::new();
    row.extend_from_slice(b"Fee");
    row.extend_from_slice(&[b' '; 23]);
    row.extend_from_slice(&[b' '; 11]);
    row.extend_from_slice(b"500\n");
    assert!(contains(&bytes, &row));
}

#[test]
fn day_line_appears_for_positive_quantity() {
    let doc = doc_with(|d| {
        d.item_quantity = Some("3".to_string());
    });
    let bytes = generate_escpos_receipt(&doc);
    let mut row = Vec::new();
    row.extend_from_slice(b"Days:");
    row.extend_from_slice(&[b' '; 21]);
    row.extend_from_slice(&[b' '; 13]);
    row.extend_from_slice(b"3\n");
    assert!(contains(&bytes, &row));
}

#[test]
fn day_line_skipped_for_negative_quantity() {
    let doc = doc_with(|d| {
        d.item_quantity = Some("-5".to_string());
    });
    let bytes = generate_escpos_receipt(&doc);
    assert!(!contains(&bytes, b"Days:"));
}

#[test]
fn day_line_skipped_for_zero_and_malformed_quantity() {
    for q in ["0", "junk", ""] {
        let doc = doc_with(|d| {
            d.item_quantity = Some(q.to_string());
        });
        let bytes = generate_escpos_receipt(&doc);
        assert!(!contains(&bytes, b"Days:"), "quantity {:?}", q);
    }
}

#[test]
fn boxed_total_line_is_centered() {
    let doc = ReceiptDocument::empty();
    let bytes = encode(&doc, ReceiptLayout::Boxed);
    // "TOTAL: 3,000" is 12 columns; 28 pad spaces split 14 left, 14 right.
    let mut line = Vec::new();
    line.extend_from_slice(&[b' '; 14]);
    line.extend_from_slice(b"TOTAL: 3,000");
    line.extend_from_slice(&[b' '; 14]);
    assert!(contains(&bytes, &line));
}

#[test]
fn plain_total_line_is_flush_left() {
    let doc = ReceiptDocument::empty();
    let bytes = encode(&doc, ReceiptLayout::Plain);
    // Emphasis on, then the total text immediately.
    let mut frag = Vec::new();
    frag.extend_from_slice(&[0x1B, 0x45, 0x01]);
    frag.extend_from_slice(b"TOTAL: 3,000\n");
    assert!(contains(&bytes, &frag));
}

#[test]
fn qr_block_appears_only_with_payload() {
    let with_qr = doc_with(|d| {
        d.qr_payload = Some("PAY123".to_string());
        d.payment_number = Some("555-001".to_string());
    });
    let bytes = generate_escpos_receipt(&with_qr);
    assert!(contains(&bytes, b"SCAN TO PAY"));
    assert!(contains(&bytes, b"PAY123"));
    assert!(contains(&bytes, b"PAY NO: 555-001\n"));

    let without = ReceiptDocument::empty();
    let bytes2 = generate_escpos_receipt(&without);
    assert!(!contains(&bytes2, b"SCAN TO PAY"));
    assert!(!contains(&bytes2, b"PAY NO: "));
}

#[test]
fn text_fields_pass_through_as_utf8() {
    let doc = doc_with(|d| {
        d.company_name = Some("CAF\u{00c9} PARKING".to_string());
    });
    let bytes = generate_escpos_receipt(&doc);
    assert!(contains(&bytes, "CAF\u{00c9} PARKING".as_bytes()));
}

#[test]
fn fractional_quantity_rounds_in_the_rendered_day_line() {
    let doc = doc_with(|d| {
        d.item_quantity = Some("2.5".to_string());
    });
    let bytes = generate_escpos_receipt(&doc);
    let mut row = Vec::new();
    row.extend_from_slice(b"Days:");
    row.extend_from_slice(&[b' '; 21]);
    row.extend_from_slice(&[b' '; 13]);
    row.extend_from_slice(b"3\n");
    assert!(contains(&bytes, &row));
}

#[test]
fn header_sets_center_alignment_and_sizes() {
    let doc = doc_with(|d| {
        d.company_name = Some("ACME".to_string());
        d.company_subtitle = Some("Karibu".to_string());
    });
    let bytes = generate_escpos_receipt(&doc);
    // Initialize, line spacing, center, double size, then the name.
    let mut head = Vec::new();
    head.extend_from_slice(&[0x1B, 0x40]);
    head.extend_from_slice(&[0x1B, 0x33, 0x18]);
    head.extend_from_slice(&[0x1B, 0x61, 0x01]);
    head.extend_from_slice(&[0x1B, 0x21, 0x10]);
    head.extend_from_slice(b"ACME\n");
    head.extend_from_slice(&[0x1B, 0x21, 0x00]);
    head.extend_from_slice(b"Karibu\n");
    assert_eq!(&bytes[0..head.len()], &head[..]);
}
