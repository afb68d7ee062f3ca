//! ESC/POS command stream construction.
//!
//! Every control sequence emitted here is a fixed byte pattern understood
//! by ESC/POS-compatible thermal printers. The byte values are wire
//! constants of the protocol, not stylistic choices.

use vstd::prelude::*;
use vstd::utf8::encode_utf8;

use crate::quantity::day_count;
use crate::quantity::day_count_of;
use crate::quantity::dec_bytes;
use crate::quantity::push_dec;
use crate::receipt::opt_view;
use crate::receipt::ReceiptDocument;

verus! {

/// ESC control byte.
pub const ESC: u8 = 0x1B;

/// GS control byte.
pub const GS: u8 = 0x1D;

/// Line feed.
pub const LF: u8 = 0x0A;

/// ASCII space, used for column padding.
pub const SP: u8 = 0x20;

/// QR module size selected for the payment barcode.
pub const QR_MODULE_SIZE: u8 = 0x06;

/// QR error-correction level selected for the payment barcode
/// (0x31 selects level M).
pub const QR_EC_LEVEL: u8 = 0x31;

/// Largest QR payload the store command can frame: the length header is
/// `payload length + 3` split into two bytes, so the sum must stay below
/// 65536.
pub const QR_MAX_PAYLOAD: usize = 65532;

/// A run of `n` copies of the byte `ch`.
pub open spec fn rep(ch: u8, n: nat) -> Seq<u8> {
    Seq::new(n, |i: int| ch)
}

/// The four-step 2D-barcode command group: select model, select module
/// size, select error-correction level, store the payload framed by its
/// length header, print.
pub open spec fn spec_encode_qr(payload: Seq<u8>) -> Seq<u8> {
    seq![GS, 0x28u8, 0x6Bu8, 0x04u8, 0x00u8, 0x31u8, 0x41u8, 0x32u8, 0x00u8]
        + seq![GS, 0x28u8, 0x6Bu8, 0x03u8, 0x00u8, 0x31u8, 0x43u8, QR_MODULE_SIZE]
        + seq![GS, 0x28u8, 0x6Bu8, 0x03u8, 0x00u8, 0x31u8, 0x45u8, QR_EC_LEVEL]
        + seq![
            GS,
            0x28u8,
            0x6Bu8,
            (((payload.len() + 3) % 256) as u8),
            (((payload.len() + 3) / 256) as u8),
            0x31u8,
            0x50u8,
            0x30u8,
        ] + payload
        + seq![GS, 0x28u8, 0x6Bu8, 0x03u8, 0x00u8, 0x31u8, 0x51u8, 0x30u8]
}

/// Encode the QR command group for one payload. The length header is
/// computed as `(len + 3)` split into a low and a high byte; an off-by-one
/// here corrupts the barcode on real hardware.
pub fn encode_qr(payload: &[u8]) -> (r: Vec<u8>)
    requires
        payload@.len() <= QR_MAX_PAYLOAD,
    ensures
        r@ == spec_encode_qr(payload@),
{
    let mut out: Vec<u8> = Vec::new();
    // Select model
    out.push(GS);
    out.push(0x28);
    out.push(0x6B);
    out.push(0x04);
    out.push(0x00);
    out.push(0x31);
    out.push(0x41);
    out.push(0x32);
    out.push(0x00);
    // Select module size
    out.push(GS);
    out.push(0x28);
    out.push(0x6B);
    out.push(0x03);
    out.push(0x00);
    out.push(0x31);
    out.push(0x43);
    out.push(QR_MODULE_SIZE);
    // Select error-correction level
    out.push(GS);
    out.push(0x28);
    out.push(0x6B);
    out.push(0x03);
    out.push(0x00);
    out.push(0x31);
    out.push(0x45);
    out.push(QR_EC_LEVEL);
    // Store the payload, framed by the length header
    let framed: usize = payload.len() + 3;
    out.push(GS);
    out.push(0x28);
    out.push(0x6B);
    out.push((framed % 256) as u8);
    out.push((framed / 256) as u8);
    out.push(0x31);
    out.push(0x50);
    out.push(0x30);
    out.extend_from_slice(payload);
    // Print the stored symbol
    out.push(GS);
    out.push(0x28);
    out.push(0x6B);
    out.push(0x03);
    out.push(0x00);
    out.push(0x31);
    out.push(0x51);
    out.push(0x30);
    assert(out@ =~= spec_encode_qr(payload@));
    out
}

/// Column width of a receipt line.
pub const RULE_WIDTH: usize = 40;

/// Width of the description column of the line-item table.
pub const DESC_COL: usize = 26;

/// Width of the trailing amount column of the line-item table.
pub const AMOUNT_COL: usize = 14;

/// The `=` byte used for the strong separator rule.
pub const RULE_EQ: u8 = 0x3D;

/// The `-` byte used for the light separator rule.
pub const RULE_DASH: u8 = 0x2D;

/// The target receipt layout. The boxed variant centers the total line
/// within the full column width; the plain variant prints it flush left.
#[derive(Clone, Copy, Debug, PartialEq, Eq, Structural)]
pub enum ReceiptLayout {
    /// Total line centered within the column width.
    Boxed,
    /// Total line printed without centering.
    Plain,
}

/// The UTF-8 bytes of a text fragment.
pub open spec fn txt(s: Seq<char>) -> Seq<u8> {
    encode_utf8(s)
}

/// Number of pad bytes needed to bring `n` columns up to `w`.
pub open spec fn pad_to(n: nat, w: nat) -> nat {
    if n >= w {
        0
    } else {
        (w - n) as nat
    }
}

/// Text padded on the right with spaces to `w` columns.
pub open spec fn spec_pad_right(s: Seq<char>, w: nat) -> Seq<u8> {
    txt(s) + rep(SP, pad_to(s.len(), w))
}

/// Text padded on the left with spaces to `w` columns.
pub open spec fn spec_pad_left(s: Seq<char>, w: nat) -> Seq<u8> {
    rep(SP, pad_to(s.len(), w)) + txt(s)
}

/// Text centered in `w` columns; surplus padding goes to the right.
pub open spec fn spec_center(s: Seq<char>, w: nat) -> Seq<u8> {
    let total = pad_to(s.len(), w);
    rep(SP, total / 2) + txt(s) + rep(SP, (total - total / 2) as nat)
}

/// A labeled detail line, or nothing when the field is absent.
pub open spec fn spec_field_line(label: Seq<char>, v: Option<Seq<char>>) -> Seq<u8> {
    match v {
        Some(s) => txt(label) + txt(s) + seq![LF],
        None => Seq::empty(),
    }
}

/// The company name, defaulting to the fixed organization name.
pub open spec fn resolved_company(d: ReceiptDocument) -> Seq<char> {
    match opt_view(d.company_name) {
        Some(s) => s,
        None => "SMART PARKING"@,
    }
}

/// The line-item description, defaulting to the fixed placeholder.
pub open spec fn resolved_description(d: ReceiptDocument) -> Seq<char> {
    match opt_view(d.item_description) {
        Some(s) => s,
        None => "Parking Fee"@,
    }
}

/// The amount to print: the explicit line-item amount when set, else the
/// total amount, else the fixed placeholder.
pub open spec fn resolved_amount(d: ReceiptDocument) -> Seq<char> {
    match opt_view(d.item_amount) {
        Some(s) => s,
        None => match opt_view(d.total_amount) {
            Some(s) => s,
            None => "3,000"@,
        },
    }
}

/// The day count coerced from the quantity field; absent counts as zero.
pub open spec fn quantity_days(d: ReceiptDocument) -> nat {
    match opt_view(d.item_quantity) {
        Some(q) => day_count_of(q),
        None => 0,
    }
}

/// Header block: reset, line spacing, centered emphasized company name,
/// subtitle when present, and the opening separator rule.
pub open spec fn spec_header(d: ReceiptDocument) -> Seq<u8> {
    seq![ESC, 0x40u8] + seq![ESC, 0x33u8, 0x18u8] + seq![ESC, 0x61u8, 0x01u8]
        + seq![ESC, 0x21u8, 0x10u8] + txt(resolved_company(d)) + seq![LF]
        + seq![ESC, 0x21u8, 0x00u8] + (match opt_view(d.company_subtitle) {
        Some(s) => txt(s) + seq![LF],
        None => Seq::empty(),
    }) + seq![LF] + rep(RULE_EQ, RULE_WIDTH as nat) + seq![LF] + seq![LF]
}

/// Detail block: left alignment, then one labeled line per present field,
/// in a fixed order; absent fields are skipped entirely.
pub open spec fn spec_details(d: ReceiptDocument) -> Seq<u8> {
    seq![ESC, 0x61u8, 0x00u8] + spec_field_line("RECEIPT: "@, opt_view(d.receipt_number))
        + spec_field_line("REF: "@, opt_view(d.receipt_ref))
        + spec_field_line("DATE: "@, opt_view(d.date_time))
        + spec_field_line("PLATE: "@, opt_view(d.plate_number))
        + spec_field_line("ENTRY: "@, opt_view(d.entry_time))
        + spec_field_line("EXIT: "@, opt_view(d.exit_time)) + seq![LF]
}

/// Line-item table: column header, separator, one row of description and
/// amount, and a day line when the day count is positive.
pub open spec fn spec_table(d: ReceiptDocument) -> Seq<u8> {
    rep(RULE_DASH, RULE_WIDTH as nat) + seq![LF]
        + txt("DESCRIPTION              AMOUNT (TZS)"@) + seq![LF]
        + rep(RULE_DASH, RULE_WIDTH as nat) + seq![LF]
        + spec_pad_right(resolved_description(d), DESC_COL as nat)
        + spec_pad_left(resolved_amount(d), AMOUNT_COL as nat) + seq![LF] + (if quantity_days(d)
        > 0 {
        spec_pad_right("Days:"@, DESC_COL as nat) + rep(
            SP,
            pad_to(dec_bytes(quantity_days(d)).len(), AMOUNT_COL as nat),
        ) + dec_bytes(quantity_days(d)) + seq![LF]
    } else {
        Seq::empty()
    })
}

/// Total block: separator, emphasized total line (centered for the boxed
/// layout), separator.
pub open spec fn spec_total(d: ReceiptDocument, layout: ReceiptLayout) -> Seq<u8> {
    rep(RULE_EQ, RULE_WIDTH as nat) + seq![LF] + seq![ESC, 0x45u8, 0x01u8] + (match layout {
        ReceiptLayout::Boxed => spec_center("TOTAL: "@ + resolved_amount(d), RULE_WIDTH as nat),
        ReceiptLayout::Plain => txt("TOTAL: "@ + resolved_amount(d)),
    }) + seq![LF] + seq![ESC, 0x45u8, 0x00u8] + rep(RULE_EQ, RULE_WIDTH as nat) + seq![LF]
        + seq![LF]
}

/// Payment QR block: instructional line, the QR command group over the
/// payload, and the payment-number line when present. Skipped when there
/// is no payload or the payload is too long to frame.
pub open spec fn spec_qr_block(d: ReceiptDocument) -> Seq<u8> {
    match opt_view(d.qr_payload) {
        Some(p) => if txt(p).len() <= QR_MAX_PAYLOAD {
            txt("SCAN TO PAY"@) + seq![LF] + spec_encode_qr(txt(p)) + seq![LF] + (match opt_view(
                d.payment_number,
            ) {
                Some(pn) => txt("PAY NO: "@) + txt(pn) + seq![LF],
                None => Seq::empty(),
            })
        } else {
            Seq::empty()
        },
        None => Seq::empty(),
    }
}

/// Operator and location block: left alignment, then one labeled line per
/// present field.
pub open spec fn spec_operator(d: ReceiptDocument) -> Seq<u8> {
    seq![ESC, 0x61u8, 0x00u8] + spec_field_line("OPERATOR: "@, opt_view(d.operator_name))
        + spec_field_line("LOCATION: "@, opt_view(d.location))
}

/// Footer: centered closing rules around the emphasized end-of-receipt
/// banner, paper feed, and the full cut as the final bytes.
pub open spec fn spec_footer() -> Seq<u8> {
    seq![ESC, 0x61u8, 0x01u8] + seq![LF, LF] + rep(RULE_EQ, RULE_WIDTH as nat) + seq![LF]
        + seq![ESC, 0x21u8, 0x10u8] + txt("MWISHO WA STAKABADHI"@) + seq![LF]
        + seq![ESC, 0x21u8, 0x00u8] + rep(RULE_EQ, RULE_WIDTH as nat) + seq![LF]
        + seq![LF, LF, LF] + seq![GS, 0x56u8, 0x00u8]
}

/// The full command stream for one receipt.
pub open spec fn spec_encode(d: ReceiptDocument, layout: ReceiptLayout) -> Seq<u8> {
    spec_header(d) + spec_details(d) + spec_table(d) + spec_total(d, layout) + spec_qr_block(d)
        + spec_operator(d) + spec_footer()
}

/// Append two fixed bytes.
fn put2(out: &mut Vec<u8>, a: u8, b: u8)
    ensures
        final(out)@ == old(out)@ + seq![a, b],
{
    out.push(a);
    out.push(b);
    proof {
        assert(out@ =~= old(out)@ + seq![a, b]);
    }
}

/// Append three fixed bytes.
fn put3(out: &mut Vec<u8>, a: u8, b: u8, c: u8)
    ensures
        final(out)@ == old(out)@ + seq![a, b, c],
{
    out.push(a);
    out.push(b);
    out.push(c);
    proof {
        assert(out@ =~= old(out)@ + seq![a, b, c]);
    }
}

/// Append a line feed.
fn put_lf(out: &mut Vec<u8>)
    ensures
        final(out)@ == old(out)@ + seq![LF],
{
    out.push(LF);
    proof {
        assert(out@ =~= old(out)@ + seq![LF]);
    }
}

/// Append the UTF-8 bytes of a text fragment.
fn put_text(out: &mut Vec<u8>, s: &str)
    ensures
        final(out)@ == old(out)@ + txt(s@),
{
    out.extend_from_slice(s.as_bytes());
}

/// Append `n` copies of the byte `ch`.
fn put_run(out: &mut Vec<u8>, ch: u8, n: usize)
    ensures
        final(out)@ == old(out)@ + rep(ch, n as nat),
{
    let mut i: usize = 0;
    proof {
        assert(out@ =~= old(out)@ + rep(ch, 0));
    }
    while i < n
        invariant
            0 <= i <= n,
            out@ == old(out)@ + rep(ch, i as nat),
        decreases n - i,
    {
        out.push(ch);
        i += 1;
        proof {
            assert(out@ =~= old(out)@ + rep(ch, i as nat));
        }
    }
}

/// Append a full-width separator rule and a line feed.
fn put_rule(out: &mut Vec<u8>, ch: u8)
    ensures
        final(out)@ == old(out)@ + rep(ch, RULE_WIDTH as nat) + seq![LF],
{
    put_run(out, ch, RULE_WIDTH);
    put_lf(out);
}

/// Append text padded on the right with spaces to `w` columns.
fn put_pad_right(out: &mut Vec<u8>, s: &str, w: usize)
    ensures
        final(out)@ == old(out)@ + spec_pad_right(s@, w as nat),
{
    put_text(out, s);
    let l = s.unicode_len();
    let pad: usize = if l >= w {
        0
    } else {
        w - l
    };
    put_run(out, SP, pad);
    proof {
        assert(out@ =~= old(out)@ + spec_pad_right(s@, w as nat));
    }
}

/// Append text padded on the left with spaces to `w` columns.
fn put_pad_left(out: &mut Vec<u8>, s: &str, w: usize)
    ensures
        final(out)@ == old(out)@ + spec_pad_left(s@, w as nat),
{
    let l = s.unicode_len();
    let pad: usize = if l >= w {
        0
    } else {
        w - l
    };
    put_run(out, SP, pad);
    put_text(out, s);
    proof {
        assert(out@ =~= old(out)@ + spec_pad_left(s@, w as nat));
    }
}

/// Append text centered in `w` columns.
fn put_center(out: &mut Vec<u8>, s: &str, w: usize)
    ensures
        final(out)@ == old(out)@ + spec_center(s@, w as nat),
{
    let l = s.unicode_len();
    let total: usize = if l >= w {
        0
    } else {
        w - l
    };
    let left = total / 2;
    put_run(out, SP, left);
    put_text(out, s);
    put_run(out, SP, total - left);
    proof {
        assert(out@ =~= old(out)@ + spec_center(s@, w as nat));
    }
}

/// Append one labeled detail line when the field is present.
fn put_field_line(out: &mut Vec<u8>, label: &str, v: &Option<String>)
    ensures
        final(out)@ == old(out)@ + spec_field_line(label@, opt_view(*v)),
{
    match v {
        Some(s) => {
            put_text(out, label);
            put_text(out, s.as_str());
            put_lf(out);
            proof {
                assert(out@ =~= old(out)@ + spec_field_line(label@, opt_view(*v)));
            }
        },
        None => {
            proof {
                assert(out@ =~= old(out)@ + spec_field_line(label@, opt_view(*v)));
            }
        },
    }
}

/// The printed company name.
fn company_of(d: &ReceiptDocument) -> (r: String)
    ensures
        r@ == resolved_company(*d),
{
    match &d.company_name {
        Some(s) => s.clone(),
        None => String::from_str("SMART PARKING"),
    }
}

/// The printed line-item description.
fn description_of(d: &ReceiptDocument) -> (r: String)
    ensures
        r@ == resolved_description(*d),
{
    match &d.item_description {
        Some(s) => s.clone(),
        None => String::from_str("Parking Fee"),
    }
}

/// The printed amount.
fn amount_of(d: &ReceiptDocument) -> (r: String)
    ensures
        r@ == resolved_amount(*d),
{
    match &d.item_amount {
        Some(s) => s.clone(),
        None => match &d.total_amount {
            Some(s) => s.clone(),
            None => String::from_str("3,000"),
        },
    }
}

/// Emit the header block.
fn emit_header(out: &mut Vec<u8>, d: &ReceiptDocument)
    ensures
        final(out)@ == old(out)@ + spec_header(*d),
{
    put2(out, ESC, 0x40);
    put3(out, ESC, 0x33, 0x18);
    put3(out, ESC, 0x61, 0x01);
    put3(out, ESC, 0x21, 0x10);
    let company = company_of(d);
    put_text(out, company.as_str());
    put_lf(out);
    put3(out, ESC, 0x21, 0x00);
    match &d.company_subtitle {
        Some(s) => {
            put_text(out, s.as_str());
            put_lf(out);
        },
        None => (),
    }
    put_lf(out);
    put_rule(out, RULE_EQ);
    put_lf(out);
    proof {
        assert(out@ =~= old(out)@ + spec_header(*d));
    }
}

/// Emit the detail block.
fn emit_details(out: &mut Vec<u8>, d: &ReceiptDocument)
    ensures
        final(out)@ == old(out)@ + spec_details(*d),
{
    put3(out, ESC, 0x61, 0x00);
    put_field_line(out, "RECEIPT: ", &d.receipt_number);
    put_field_line(out, "REF: ", &d.receipt_ref);
    put_field_line(out, "DATE: ", &d.date_time);
    put_field_line(out, "PLATE: ", &d.plate_number);
    put_field_line(out, "ENTRY: ", &d.entry_time);
    put_field_line(out, "EXIT: ", &d.exit_time);
    put_lf(out);
    proof {
        assert(out@ =~= old(out)@ + spec_details(*d));
    }
}

/// Emit the line-item table.
fn emit_table(out: &mut Vec<u8>, d: &ReceiptDocument)
    ensures
        final(out)@ == old(out)@ + spec_table(*d),
{
    put_rule(out, RULE_DASH);
    put_text(out, "DESCRIPTION              AMOUNT (TZS)");
    put_lf(out);
    put_rule(out, RULE_DASH);
    let desc = description_of(d);
    put_pad_right(out, desc.as_str(), DESC_COL);
    let amount = amount_of(d);
    put_pad_left(out, amount.as_str(), AMOUNT_COL);
    put_lf(out);
    let days: u64 = match &d.item_quantity {
        Some(q) => day_count(q.as_str()),
        None => 0,
    };
    if days > 0 {
        put_pad_right(out, "Days:", DESC_COL);
        let mut digits: Vec<u8> = Vec::new();
        push_dec(&mut digits, days);
        let dl = digits.len();
        let pad: usize = if dl >= AMOUNT_COL {
            0
        } else {
            AMOUNT_COL - dl
        };
        put_run(out, SP, pad);
        out.append(&mut digits);
        put_lf(out);
    }
    proof {
        assert(out@ =~= old(out)@ + spec_table(*d));
    }
}

/// Emit the total block.
fn emit_total(out: &mut Vec<u8>, d: &ReceiptDocument, layout: ReceiptLayout)
    ensures
        final(out)@ == old(out)@ + spec_total(*d, layout),
{
    put_rule(out, RULE_EQ);
    put3(out, ESC, 0x45, 0x01);
    let amount = amount_of(d);
    let mut line = String::from_str("TOTAL: ");
    line.append(amount.as_str());
    match layout {
        ReceiptLayout::Boxed => put_center(out, line.as_str(), RULE_WIDTH),
        ReceiptLayout::Plain => put_text(out, line.as_str()),
    }
    put_lf(out);
    put3(out, ESC, 0x45, 0x00);
    put_rule(out, RULE_EQ);
    put_lf(out);
    proof {
        assert(out@ =~= old(out)@ + spec_total(*d, layout));
    }
}

/// Emit the payment QR block.
fn emit_qr_block(out: &mut Vec<u8>, d: &ReceiptDocument)
    ensures
        final(out)@ == old(out)@ + spec_qr_block(*d),
{
    match &d.qr_payload {
        Some(p) => {
            let bytes = p.as_str().as_bytes();
            if bytes.len() <= QR_MAX_PAYLOAD {
                put_text(out, "SCAN TO PAY");
                put_lf(out);
                let mut qr = encode_qr(bytes);
                out.append(&mut qr);
                put_lf(out);
                match &d.payment_number {
                    Some(pn) => {
                        put_text(out, "PAY NO: ");
                        put_text(out, pn.as_str());
                        put_lf(out);
                    },
                    None => (),
                }
                proof {
                    assert(out@ =~= old(out)@ + spec_qr_block(*d));
                }
            } else {
                proof {
                    assert(out@ =~= old(out)@ + spec_qr_block(*d));
                }
            }
        },
        None => {
            proof {
                assert(out@ =~= old(out)@ + spec_qr_block(*d));
            }
        },
    }
}

/// Emit the operator and location block.
fn emit_operator(out: &mut Vec<u8>, d: &ReceiptDocument)
    ensures
        final(out)@ == old(out)@ + spec_operator(*d),
{
    put3(out, ESC, 0x61, 0x00);
    put_field_line(out, "OPERATOR: ", &d.operator_name);
    put_field_line(out, "LOCATION: ", &d.location);
    proof {
        assert(out@ =~= old(out)@ + spec_operator(*d));
    }
}

/// Emit the footer, paper feed and cut.
fn emit_footer(out: &mut Vec<u8>)
    ensures
        final(out)@ == old(out)@ + spec_footer(),
{
    put3(out, ESC, 0x61, 0x01);
    put_lf(out);
    put_lf(out);
    put_rule(out, RULE_EQ);
    put3(out, ESC, 0x21, 0x10);
    put_text(out, "MWISHO WA STAKABADHI");
    put_lf(out);
    put3(out, ESC, 0x21, 0x00);
    put_rule(out, RULE_EQ);
    put_lf(out);
    put_lf(out);
    put_lf(out);
    put3(out, GS, 0x56, 0x00);
    proof {
        assert(out@ =~= old(out)@ + spec_footer());
    }
}

/// Encode one receipt as its full ESC/POS command stream. Total over any
/// document: absent fields are skipped or replaced by their documented
/// defaults, and the call never fails.
pub fn encode(doc: &ReceiptDocument, layout: ReceiptLayout) -> (r: Vec<u8>)
    ensures
        r@ == spec_encode(*doc, layout),
{
    let mut out: Vec<u8> = Vec::new();
    emit_header(&mut out, doc);
    emit_details(&mut out, doc);
    emit_table(&mut out, doc);
    emit_total(&mut out, doc, layout);
    emit_qr_block(&mut out, doc);
    emit_operator(&mut out, doc);
    emit_footer(&mut out);
    proof {
        assert(out@ =~= spec_encode(*doc, layout));
    }
    out
}

/// The receipt command stream in the boxed layout, the variant sent to
/// the kiosk's printer.
pub fn generate_escpos_receipt(doc: &ReceiptDocument) -> (r: Vec<u8>)
    ensures
        r@ == spec_encode(*doc, ReceiptLayout::Boxed),
{
    encode(doc, ReceiptLayout::Boxed)
}

/// The command stream is framed by the initialize sequence at the start
/// and the full-cut sequence at the end, whatever the document holds.
pub proof fn lemma_encode_framing(d: ReceiptDocument, layout: ReceiptLayout)
    ensures
        spec_encode(d, layout).len() >= 5,
        spec_encode(d, layout).take(2) =~= seq![ESC, 0x40u8],
        spec_encode(d, layout).skip(spec_encode(d, layout).len() - 3) =~= seq![
            GS,
            0x56u8,
            0x00u8,
        ],
{
    let e = spec_encode(d, layout);
    assert(e[0] == ESC);
    assert(e[1] == 0x40u8);
    assert(e[e.len() - 3] == GS);
    assert(e[e.len() - 2] == 0x56u8);
    assert(e[e.len() - 1] == 0x00u8);
}

/// Encoding is deterministic: the command stream is a function of the
/// document and the layout alone, with no hidden clock or randomness, so
/// the same document always yields byte-identical output.
pub proof fn lemma_encode_deterministic(d1: ReceiptDocument, d2: ReceiptDocument, layout: ReceiptLayout)
    requires
        d1 == d2,
    ensures
        spec_encode(d1, layout) == spec_encode(d2, layout),
{
}

} // verus!
