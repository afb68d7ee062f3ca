//! The receipt model: a normalized, fixed-shape record of the fields that
//! may appear on a printed receipt.
//!
//! Extraction from a loosely-typed key/value document never fails:
//! recognized keys contribute their string value, unrecognized keys are
//! ignored, and missing keys leave the field absent so the encoder can
//! substitute its documented default.

use vstd::prelude::*;

verus! {

/// View of an optional string field.
pub open spec fn opt_view(o: Option<String>) -> Option<Seq<char>> {
    match o {
        Some(s) => Some(s@),
        None => None,
    }
}

/// The first value for `a`, else the first value for `b`.
pub open spec fn opt_or(a: Option<Seq<char>>, b: Option<Seq<char>>) -> Option<Seq<char>> {
    if a is Some {
        a
    } else {
        b
    }
}

/// All fields that may appear on a receipt. Every field is optional, and
/// every value is a pre-formatted display string: the encoder does not
/// parse or validate field content, except to coerce the quantity to a
/// day count.
pub struct ReceiptDocument {
    /// Company name printed in the header; defaults to a fixed organization name.
    pub company_name: Option<String>,
    /// Subtitle under the company name; skipped when absent.
    pub company_subtitle: Option<String>,
    /// Receipt number; skipped when absent.
    pub receipt_number: Option<String>,
    /// Reference number; skipped when absent.
    pub receipt_ref: Option<String>,
    /// Date and time of issue; skipped when absent.
    pub date_time: Option<String>,
    /// Vehicle plate number; skipped when absent.
    pub plate_number: Option<String>,
    /// Entry timestamp; skipped when absent.
    pub entry_time: Option<String>,
    /// Exit timestamp; skipped when absent.
    pub exit_time: Option<String>,
    /// Line-item description; defaults to a fixed placeholder.
    pub item_description: Option<String>,
    /// Line-item quantity, coerced to a day count; absent counts as zero.
    pub item_quantity: Option<String>,
    /// Explicit line-item amount; preferred over the total amount.
    pub item_amount: Option<String>,
    /// Total amount; used when no line-item amount is set.
    pub total_amount: Option<String>,
    /// Operator name; the operator line is skipped when absent.
    pub operator_name: Option<String>,
    /// Facility location; the location line is skipped when absent.
    pub location: Option<String>,
    /// Payment QR payload; the QR block is skipped when absent.
    pub qr_payload: Option<String>,
    /// Human-readable payment number under the QR block; skipped when absent.
    pub payment_number: Option<String>,
}

impl ReceiptDocument {
    /// A document with every field absent.
    pub fn empty() -> (d: ReceiptDocument)
        ensures
            d.company_name is None,
            d.company_subtitle is None,
            d.receipt_number is None,
            d.receipt_ref is None,
            d.date_time is None,
            d.plate_number is None,
            d.entry_time is None,
            d.exit_time is None,
            d.item_description is None,
            d.item_quantity is None,
            d.item_amount is None,
            d.total_amount is None,
            d.operator_name is None,
            d.location is None,
            d.qr_payload is None,
            d.payment_number is None,
    {
        ReceiptDocument {
            company_name: None,
            company_subtitle: None,
            receipt_number: None,
            receipt_ref: None,
            date_time: None,
            plate_number: None,
            entry_time: None,
            exit_time: None,
            item_description: None,
            item_quantity: None,
            item_amount: None,
            total_amount: None,
            operator_name: None,
            location: None,
            qr_payload: None,
            payment_number: None,
        }
    }
}

/// The value of the first pair whose key matches, if any.
pub open spec fn lookup(pairs: Seq<(String, String)>, key: Seq<char>) -> Option<Seq<char>>
    decreases pairs.len(),
{
    if pairs.len() == 0 {
        None
    } else if pairs[0].0@ == key {
        Some(pairs[0].1@)
    } else {
        lookup(pairs.drop_first(), key)
    }
}

/// Character-for-character string equality.
fn str_eq(a: &str, b: &str) -> (r: bool)
    ensures
        r == (a@ == b@),
{
    let la = a.unicode_len();
    let lb = b.unicode_len();
    if la != lb {
        return false;
    }
    let mut i: usize = 0;
    while i < la
        invariant
            0 <= i <= la,
            la == a@.len(),
            la == b@.len(),
            forall|j: int| 0 <= j < i ==> a@[j] == b@[j],
        decreases la - i,
    {
        if a.get_char(i) != b.get_char(i) {
            return false;
        }
        i += 1;
    }
    proof {
        assert(a@ =~= b@);
    }
    true
}

/// Look a key up in the document's pairs; the first match wins.
fn lookup_value(pairs: &Vec<(String, String)>, key: &str) -> (r: Option<String>)
    ensures
        opt_view(r) == lookup(pairs@, key@),
{
    let mut i: usize = 0;
    proof {
        assert(pairs@.skip(0) =~= pairs@);
    }
    while i < pairs.len()
        invariant
            0 <= i <= pairs@.len(),
            lookup(pairs@, key@) == lookup(pairs@.skip(i as int), key@),
        decreases pairs@.len() - i,
    {
        proof {
            assert(pairs@.skip(i as int)[0] == pairs@[i as int]);
        }
        if str_eq(pairs[i].0.as_str(), key) {
            return Some(pairs[i].1.clone());
        }
        proof {
            assert(pairs@.skip(i as int).drop_first() =~= pairs@.skip(i + 1));
        }
        i += 1;
    }
    None
}

/// Extract a receipt document from a loosely-typed key/value listing.
/// Recognized keys contribute their value; everything else is ignored; no
/// input is rejected. The line-item amount also recognizes a unit-price
/// key as a fallback spelling.
pub fn from_pairs(pairs: &Vec<(String, String)>) -> (d: ReceiptDocument)
    ensures
        opt_view(d.company_name) == lookup(pairs@, "company_name"@),
        opt_view(d.company_subtitle) == lookup(pairs@, "company_subtitle"@),
        opt_view(d.receipt_number) == lookup(pairs@, "receipt_number"@),
        opt_view(d.receipt_ref) == lookup(pairs@, "receipt_ref"@),
        opt_view(d.date_time) == lookup(pairs@, "date_time"@),
        opt_view(d.plate_number) == lookup(pairs@, "plate_number"@),
        opt_view(d.entry_time) == lookup(pairs@, "entry_time"@),
        opt_view(d.exit_time) == lookup(pairs@, "exit_time"@),
        opt_view(d.item_description) == lookup(pairs@, "item_description"@),
        opt_view(d.item_quantity) == lookup(pairs@, "item_quantity"@),
        opt_view(d.item_amount) == opt_or(
            lookup(pairs@, "item_amount"@),
            lookup(pairs@, "item_unit_price"@),
        ),
        opt_view(d.total_amount) == lookup(pairs@, "total_amount"@),
        opt_view(d.operator_name) == lookup(pairs@, "operator_name"@),
        opt_view(d.location) == lookup(pairs@, "location"@),
        opt_view(d.qr_payload) == lookup(pairs@, "qr_payload"@),
        opt_view(d.payment_number) == lookup(pairs@, "payment_number"@),
{
    let item_amount = match lookup_value(pairs, "item_amount") {
        Some(v) => Some(v),
        None => lookup_value(pairs, "item_unit_price"),
    };
    ReceiptDocument {
        company_name: lookup_value(pairs, "company_name"),
        company_subtitle: lookup_value(pairs, "company_subtitle"),
        receipt_number: lookup_value(pairs, "receipt_number"),
        receipt_ref: lookup_value(pairs, "receipt_ref"),
        date_time: lookup_value(pairs, "date_time"),
        plate_number: lookup_value(pairs, "plate_number"),
        entry_time: lookup_value(pairs, "entry_time"),
        exit_time: lookup_value(pairs, "exit_time"),
        item_description: lookup_value(pairs, "item_description"),
        item_quantity: lookup_value(pairs, "item_quantity"),
        item_amount,
        total_amount: lookup_value(pairs, "total_amount"),
        operator_name: lookup_value(pairs, "operator_name"),
        location: lookup_value(pairs, "location"),
        qr_payload: lookup_value(pairs, "qr_payload"),
        payment_number: lookup_value(pairs, "payment_number"),
    }
}

} // verus!
