//! The transaction-logging call to the CaCM tool: the payload a finished
//! payment is reported with, and the endpoint it goes to. The HTTP transport
//! stays outside this crate.

use vstd::prelude::*;

use crate::payment::PaymentResultDetails;
use crate::text::{trim_end_slashes, trim_trailing_slashes};

verus! {

/// The record the logging service receives for one outbound payment.
#[derive(Clone, Debug)]
pub struct SaveOutPaymentInfoPayload {
    pub tr_id: i32,
    pub cardnumber: Option<String>,
    pub deduct_amount: i32,
    pub card_remain_balance: i32,
    pub cardtype: Option<String>,
    pub midreader: Option<String>,
    pub tidreader: Option<String>,
    pub transcounter: Option<String>,
    pub transactiondata: Option<String>,
    pub deduct_status: Option<String>,
    pub stid: Option<String>,
    pub gate_id: Option<String>,
    pub mode: Option<String>,
    pub date_payment: Option<String>,
}

/// The logging service's answer.
#[derive(Clone, Debug)]
pub struct CaCMToolCommonResponse {
    pub status: Option<String>,
    pub message: Option<String>,
}

/// A currency amount as the logging service's signed field: the value
/// itself, or the largest representable one when it does not fit.
pub open spec fn amount_as_i32_spec(v: u64) -> int {
    if v > i32::MAX {
        i32::MAX as int
    } else {
        v as int
    }
}

/// Narrow a currency amount to the logging service's signed field.
fn amount_as_i32(v: u64) -> (r: i32)
    ensures
        r as int == amount_as_i32_spec(v),
{
    if v > i32::MAX as u64 {
        i32::MAX
    } else {
        v as i32
    }
}

impl SaveOutPaymentInfoPayload {
    /// Assemble the logging record for a finished payment: this gate's own
    /// transaction id, the card and amounts from the payment result, the
    /// deduction status code (`00` on success, `02` otherwise), the tag that
    /// opened the transaction, and the reporting gate.
    pub fn from_payment(
        payment_details: PaymentResultDetails,
        original_transaction_id: i32,
        stid_tag_number: String,
        gate_name: String,
    ) -> (r: SaveOutPaymentInfoPayload)
        ensures
            r.tr_id == original_transaction_id,
            (r.cardnumber matches Some(t) && t@ == payment_details.card_no@),
            r.deduct_amount as int == amount_as_i32_spec(payment_details.amount_paid),
            r.card_remain_balance as int == amount_as_i32_spec(payment_details.balance_after),
            (r.cardtype matches Some(t) && t@ == "N/A"@),
            (r.midreader matches Some(t) && t@ == "READER_MID_SIM"@),
            (r.tidreader matches Some(t) && t@ == "READER_TID_SIM"@),
            (r.transcounter matches Some(t) && t@ == "N/A"@),
            (r.transactiondata matches Some(t) && t@ == payment_details.transaction_id@),
            (r.deduct_status matches Some(t) && t@ == (if payment_details.success {
                "00"@
            } else {
                "02"@
            })),
            (r.stid matches Some(t) && t@ == stid_tag_number@),
            (r.gate_id matches Some(t) && t@ == gate_name@),
            (r.mode matches Some(t) && t@ == "AUTOGATE_V2"@),
            (r.date_payment matches Some(t) && t@ == payment_details.timestamp@),
    {
        let deduct_status = if payment_details.success {
            String::from_str("00")
        } else {
            String::from_str("02")
        };
        SaveOutPaymentInfoPayload {
            tr_id: original_transaction_id,
            cardnumber: Some(payment_details.card_no),
            deduct_amount: amount_as_i32(payment_details.amount_paid),
            card_remain_balance: amount_as_i32(payment_details.balance_after),
            cardtype: Some(String::from_str("N/A")),
            midreader: Some(String::from_str("READER_MID_SIM")),
            tidreader: Some(String::from_str("READER_TID_SIM")),
            transcounter: Some(String::from_str("N/A")),
            transactiondata: Some(payment_details.transaction_id),
            deduct_status: Some(deduct_status),
            stid: Some(stid_tag_number),
            gate_id: Some(gate_name),
            mode: Some(String::from_str("AUTOGATE_V2")),
            date_payment: Some(payment_details.timestamp),
        }
    }
}

/// The logging endpoint under a configured base address: the base without
/// its trailing slashes, then the fixed path.
pub fn cacm_transaction_detail_url(base_url: &str) -> (r: String)
    ensures
        r@ == trim_trailing_slashes(base_url@) + "/api/TransactionDetail"@,
{
    let mut s = trim_end_slashes(base_url);
    s.append("/api/TransactionDetail");
    s
}

} // verus!
