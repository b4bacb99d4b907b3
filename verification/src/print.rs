//! Slip rendering: the exact text of the payment slip and of the container
//! movement slip. Writing the text to a file and opening it belong to the
//! surrounding program; the text itself is pinned here, character for
//! character. Amounts print in whole currency units with two fixed decimal
//! places.

use vstd::prelude::*;

use crate::payment::{dec_str, u64_to_string, PaymentResultDetails};
use crate::soap::CMSData;

verus! {

/// What the movement-slip request carries: the transaction, its movement
/// records, and gate, tag, and tractor identities to print.
#[derive(Clone, Debug)]
pub struct CmsSlipCommandPayload {
    pub transaction_id: String,
    pub cms_items: Option<Vec<CMSData>>,
    pub gate_name: String,
    pub tag_number: Option<String>,
    pub tractor_number: Option<String>,
}

/// An optional text as printed: the text itself, or `N/A`.
pub open spec fn opt_or_na_spec(o: Option<String>) -> Seq<char> {
    match o {
        Some(s) => s@,
        None => "N/A"@,
    }
}

/// An optional text as printed: the text itself, or `N/A`.
fn opt_or_na(o: &Option<String>) -> (r: String)
    ensures
        r@ == opt_or_na_spec(*o),
{
    match o {
        Some(s) => s.clone(),
        None => String::from_str("N/A"),
    }
}

/// The payment slip for one finished payment.
pub open spec fn payment_slip_text_spec(d: PaymentResultDetails) -> Seq<char> {
    "-- PAYMENT SLIP --\nGate: "@ + d.gate_name@ + "\nTransaction ID: "@ + d.transaction_id@
        + "\nCard No: "@ + d.card_no@ + "\nAmount Paid: "@ + dec_str(d.amount_paid as int)
        + ".00\nBalance After: "@ + dec_str(d.balance_after as int) + ".00\nTimestamp: "@
        + d.timestamp@ + "\n------------------\n(Simulated Print)"@
}

/// Render the payment slip for one finished payment.
pub fn payment_slip_text(slip_details: &PaymentResultDetails) -> (r: String)
    ensures
        r@ == payment_slip_text_spec(*slip_details),
{
    let mut s = String::from_str("-- PAYMENT SLIP --\nGate: ");
    s.append(slip_details.gate_name.as_str());
    s.append("\nTransaction ID: ");
    s.append(slip_details.transaction_id.as_str());
    s.append("\nCard No: ");
    s.append(slip_details.card_no.as_str());
    s.append("\nAmount Paid: ");
    let amount = u64_to_string(slip_details.amount_paid);
    s.append(amount.as_str());
    s.append(".00\nBalance After: ");
    let balance = u64_to_string(slip_details.balance_after);
    s.append(balance.as_str());
    s.append(".00\nTimestamp: ");
    s.append(slip_details.timestamp.as_str());
    s.append("\n------------------\n(Simulated Print)");
    proof {
        assert(s@ =~= payment_slip_text_spec(*slip_details));
    }
    s
}

/// One movement record's line on the slip.
pub open spec fn cms_line_spec(c: CMSData) -> Seq<char> {
    "Seq: "@ + opt_or_na_spec(c.daily_seq) + ", CN: "@ + opt_or_na_spec(c.cntr_number)
        + ", Police: "@ + opt_or_na_spec(c.truck_police_num) + ", Time: "@ + opt_or_na_spec(
        c.truck_in_time,
    ) + "\n"@
}

/// Render one movement record's line on the slip.
fn cms_line(item: &CMSData) -> (r: String)
    ensures
        r@ == cms_line_spec(*item),
{
    let mut s = String::from_str("Seq: ");
    let daily_seq = opt_or_na(&item.daily_seq);
    s.append(daily_seq.as_str());
    s.append(", CN: ");
    let cntr_number = opt_or_na(&item.cntr_number);
    s.append(cntr_number.as_str());
    s.append(", Police: ");
    let police = opt_or_na(&item.truck_police_num);
    s.append(police.as_str());
    s.append(", Time: ");
    let in_time = opt_or_na(&item.truck_in_time);
    s.append(in_time.as_str());
    s.append("\n");
    proof {
        assert(s@ =~= cms_line_spec(*item));
    }
    s
}

/// The lines of all movement records, in order.
pub open spec fn cms_lines_spec(items: Seq<CMSData>) -> Seq<char>
    decreases items.len(),
{
    if items.len() == 0 {
        Seq::empty()
    } else {
        cms_lines_spec(items.drop_last()) + cms_line_spec(items.last())
    }
}

/// The body of the slip between its rules: the record lines, or a note that
/// there are none.
pub open spec fn cms_items_block_spec(items: Option<Vec<CMSData>>) -> Seq<char> {
    match items {
        Some(v) => cms_lines_spec(v@),
        None => "No CMS items found.\n"@,
    }
}

/// The container movement slip for one transaction.
pub open spec fn cms_slip_text_spec(p: CmsSlipCommandPayload) -> Seq<char> {
    "-- CMS SLIP --\nGate: "@ + p.gate_name@ + "\nTransaction ID: "@ + p.transaction_id@
        + "\nTag: "@ + opt_or_na_spec(p.tag_number) + ", Tractor: "@ + opt_or_na_spec(
        p.tractor_number,
    ) + "\n------------------\n"@ + cms_items_block_spec(p.cms_items)
        + "------------------\n(Simulated Print)\n"@
}

/// Render the container movement slip for one transaction.
pub fn cms_slip_text(cms_data: &CmsSlipCommandPayload) -> (r: String)
    ensures
        r@ == cms_slip_text_spec(*cms_data),
{
    let mut s = String::from_str("-- CMS SLIP --\nGate: ");
    s.append(cms_data.gate_name.as_str());
    s.append("\nTransaction ID: ");
    s.append(cms_data.transaction_id.as_str());
    s.append("\nTag: ");
    let tag = opt_or_na(&cms_data.tag_number);
    s.append(tag.as_str());
    s.append(", Tractor: ");
    let tractor = opt_or_na(&cms_data.tractor_number);
    s.append(tractor.as_str());
    s.append("\n------------------\n");
    match &cms_data.cms_items {
        Some(items) => {
            let mut i: usize = 0;
            proof {
                assert(s@ =~= cms_slip_head_spec(*cms_data) + cms_lines_spec(
                    items@.take(0int),
                ));
            }
            while i < items.len()
                invariant
                    i <= items@.len(),
                    s@ == cms_slip_head_spec(*cms_data) + cms_lines_spec(items@.take(i as int)),
                decreases items@.len() - i,
            {
                let line = cms_line(&items[i]);
                s.append(line.as_str());
                proof {
                    assert(items@.take(i + 1).drop_last() =~= items@.take(i as int));
                    assert(items@.take(i + 1).last() == items@[i as int]);
                    assert(s@ =~= cms_slip_head_spec(*cms_data) + cms_lines_spec(
                        items@.take(i + 1),
                    ));
                }
                i = i + 1;
            }
            proof {
                assert(items@.take(items@.len() as int) =~= items@);
            }
        },
        None => {
            s.append("No CMS items found.\n");
        },
    }
    s.append("------------------\n(Simulated Print)\n");
    proof {
        assert(s@ =~= cms_slip_text_spec(*cms_data));
    }
    s
}

/// Everything on the slip before the record lines.
pub open spec fn cms_slip_head_spec(p: CmsSlipCommandPayload) -> Seq<char> {
    "-- CMS SLIP --\nGate: "@ + p.gate_name@ + "\nTransaction ID: "@ + p.transaction_id@
        + "\nTag: "@ + opt_or_na_spec(p.tag_number) + ", Tractor: "@ + opt_or_na_spec(
        p.tractor_number,
    ) + "\n------------------\n"@
}

} // verus!
