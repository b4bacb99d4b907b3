//! Control backend of an unattended gate-access kiosk.
//!
//! The heart of the crate is the peripheral session manager: it owns the
//! exclusive connection to the contactless-card reader, models the background
//! polling and event-distribution work as explicit state transitions, and
//! guarantees safe start/stop of a detection session without leaking
//! background tasks. Around it stand this kiosk's supporting rules: payment
//! processing, remote-service message construction and parsing, slip
//! rendering, settings resolution, and the actuator pulse sequence.

use vstd::prelude::*;

pub mod channel;
pub mod config;
pub mod errors;
pub mod payment;
pub mod print;
pub mod pulse;
pub mod reader;
pub mod rest;
pub mod session;
pub mod soap;
pub mod text;

use crate::text::{contains_seq, contains_sub, utf8_len, utf8_len_at_least};

verus! {

/// A card presentation observed by the polling loop: the raw identifier read
/// from the card and the capture time in milliseconds since the Unix epoch.
pub struct DetectionEvent {
    pub identifier: String,
    pub timestamp_millis: u64,
}

impl DetectionEvent {
    pub fn new(identifier: String, timestamp_millis: u64) -> (r: DetectionEvent)
        ensures
            r.identifier@ == identifier@,
            r.timestamp_millis == timestamp_millis,
    {
        DetectionEvent { identifier, timestamp_millis }
    }
}

/// The Unicode uppercase of the text.
pub uninterp spec fn upper_of(s: Seq<char>) -> Seq<char>;

/// Relies on `str::to_uppercase`: the Unicode uppercase of the text, a
/// function of the characters alone.
#[verifier::external_body]
fn to_uppercase(s: &str) -> (r: String)
    ensures
        r@ == upper_of(s@),
{
    s.to_uppercase()
}

/// A gate-pass code is accepted when its Unicode-uppercased text does not
/// carry the word `INVALID` and the code is at least four bytes long in
/// UTF-8.
pub open spec fn gatepass_qr_ok_spec(qr: Seq<char>) -> bool {
    !contains_seq(upper_of(qr), "INVALID"@) && utf8_len(qr) >= 4
}

/// Validate a scanned gate-pass code. An accepted code is answered with a
/// confirmation naming it; a refused one with a description naming it.
pub fn process_gatepass_qr(qr_data: &str) -> (r: Result<String, String>)
    ensures
        r is Ok <==> gatepass_qr_ok_spec(qr_data@),
        r is Ok ==> r->Ok_0@ == "GatePass "@ + qr_data@ + " accepted and processed."@,
        r is Err ==> r->Err_0@ == "Invalid GatePass format or content: "@ + qr_data@,
{
    let upper = to_uppercase(qr_data);
    if contains_sub(upper.as_str(), "INVALID") || !utf8_len_at_least(qr_data, 4) {
        let mut s = String::from_str("Invalid GatePass format or content: ");
        s.append(qr_data);
        Err(s)
    } else {
        let mut s = String::from_str("GatePass ");
        s.append(qr_data);
        s.append(" accepted and processed.");
        proof {
            assert(s@ =~= "GatePass "@ + qr_data@ + " accepted and processed."@);
        }
        Ok(s)
    }
}

} // verus!
