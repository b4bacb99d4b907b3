//! Payment processing against a card.
//!
//! Amounts are whole currency units (rupiah), so they carry exactly in
//! unsigned integers. The transaction round-trip of the simulated payment
//! system always succeeds; the transaction identifier and timestamps come
//! from the clock, so the contracts pin every field except those two, of
//! which they state shape and non-emptiness.

use vstd::prelude::*;

use crate::reader::{extract_card_number_spec, RFIDReader};
use crate::errors::Error;

verus! {

/// The outcome of one payment: success flag, human-readable message,
/// transaction id, card identifier, amount charged, resulting balance,
/// timestamp, and gate identifier. Owned by the caller after return.
#[derive(Clone)]
pub struct PaymentResultDetails {
    pub success: bool,
    pub message: String,
    pub transaction_id: String,
    pub card_no: String,
    pub amount_paid: u64,
    pub balance_after: u64,
    pub timestamp: String,
    pub gate_name: String,
}

/// The decimal digit `d` as a character; meaningful for `0 <= d <= 9`.
pub open spec fn digit_char(d: int) -> char {
    if d == 0 {
        '0'
    } else if d == 1 {
        '1'
    } else if d == 2 {
        '2'
    } else if d == 3 {
        '3'
    } else if d == 4 {
        '4'
    } else if d == 5 {
        '5'
    } else if d == 6 {
        '6'
    } else if d == 7 {
        '7'
    } else if d == 8 {
        '8'
    } else {
        '9'
    }
}

/// The usual decimal rendering of `n`, without sign or leading zeros.
pub open spec fn dec_str(n: int) -> Seq<char>
    decreases n,
{
    if n < 10 {
        seq![digit_char(n)]
    } else {
        dec_str(n / 10) + seq![digit_char(n % 10)]
    }
}

/// One decimal digit as string slice.
fn digit_str(d: u64) -> (r: &'static str)
    requires
        d <= 9,
    ensures
        r@ =~= seq![digit_char(d as int)],
{
    proof {
        reveal_strlit("0");
        reveal_strlit("1");
        reveal_strlit("2");
        reveal_strlit("3");
        reveal_strlit("4");
        reveal_strlit("5");
        reveal_strlit("6");
        reveal_strlit("7");
        reveal_strlit("8");
        reveal_strlit("9");
    }
    if d == 0 {
        "0"
    } else if d == 1 {
        "1"
    } else if d == 2 {
        "2"
    } else if d == 3 {
        "3"
    } else if d == 4 {
        "4"
    } else if d == 5 {
        "5"
    } else if d == 6 {
        "6"
    } else if d == 7 {
        "7"
    } else if d == 8 {
        "8"
    } else {
        "9"
    }
}

/// Render `n` in decimal.
pub fn u64_to_string(n: u64) -> (r: String)
    ensures
        r@ == dec_str(n as int),
        r@.len() >= 1,
    decreases n,
{
    if n < 10 {
        let r = String::from_str(digit_str(n));
        r
    } else {
        let mut s = u64_to_string(n / 10);
        s.append(digit_str(n % 10));
        s
    }
}

/// Relies on chrono's `Utc::now` and `DateTime::timestamp_millis`: the
/// current time as milliseconds since the Unix epoch. The value depends on
/// the machine's clock, so nothing is promised of it.
#[verifier::external_body]
fn now_timestamp_millis() -> i64 {
    chrono::Utc::now().timestamp_millis()
}

/// Relies on chrono's `Utc::now` and `DateTime::to_rfc3339`: an RFC 3339
/// rendering of the current instant. The text depends on the clock, but its
/// fixed shape — a date of at least ten characters, the `T` separator, a
/// time of eight, and a signed minute-precision offset of six — holds of
/// every outcome.
#[verifier::external_body]
fn now_rfc3339() -> (r: String)
    ensures
        r@.len() >= 25,
        exists|i: int| 0 <= i < r@.len() && #[trigger] r@[i] == 'T',
{
    chrono::Utc::now().to_rfc3339()
}

impl RFIDReader {
    /// Run one payment round-trip for the card described by `card_data_raw`,
    /// charging `amount` whole currency units. The simulated payment system
    /// accepts every deduction, so the call always succeeds: the result
    /// carries the amount as charged, the extracted card number, a fresh
    /// `TXN_`-prefixed transaction id, and the resulting balance.
    pub fn process_payment(&mut self, card_data_raw: &str, amount: u64) -> (r: Result<
        PaymentResultDetails,
        Error,
    >)
        ensures
            *final(self) == *old(self),
            r is Ok,
            ({
                let d = r->Ok_0;
                &&& d.success == true
                &&& d.message@ == "Payment processed successfully"@
                &&& d.amount_paid == amount
                &&& d.balance_after == 95000
                &&& d.card_no@ == extract_card_number_spec(card_data_raw@)
                &&& d.gate_name@ == "SIMULATED_GATE"@
                &&& d.transaction_id@.len() > 4
                &&& d.transaction_id@.take(4) =~= "TXN_"@
                &&& (exists|n: u64| d.transaction_id@ == "TXN_"@ + #[trigger] dec_str(n as int))
                &&& d.timestamp@.len() >= 25
                &&& (exists|i: int| 0 <= i < d.timestamp@.len() && #[trigger] d.timestamp@[i]
                    == 'T')
            }),
    {
        let millis = now_timestamp_millis();
        let millis_u64: u64 = if millis >= 0 {
            millis as u64
        } else {
            0
        };
        let mut transaction_id = String::from_str("TXN_");
        proof {
            reveal_strlit("TXN_");
        }
        let digits = u64_to_string(millis_u64);
        transaction_id.append(digits.as_str());
        proof {
            assert(transaction_id@.take(4) =~= "TXN_"@);
            assert(transaction_id@ == "TXN_"@ + dec_str(millis_u64 as int));
        }
        Ok(
            PaymentResultDetails {
                success: true,
                message: String::from_str("Payment processed successfully"),
                transaction_id,
                card_no: self.extract_card_number(card_data_raw),
                amount_paid: amount,
                balance_after: 95000,
                timestamp: now_rfc3339(),
                gate_name: String::from_str("SIMULATED_GATE"),
            },
        )
    }
}

} // verus!
