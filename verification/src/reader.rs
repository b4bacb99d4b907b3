//! The contactless-card reader handle.
//!
//! The handle carries the connection parameters (port name and baud rate) and
//! owns all access to the device. The physical byte-level protocol is outside
//! this crate: the handshake performed by [`RFIDReader::init_port`] and the
//! sampling done by [`RFIDReader::poll_for_card`] stand for a device driver,
//! and the session manager's contract is independent of how bytes become a
//! card identifier — a detection can also be injected by the driver loop.

use vstd::prelude::*;

use crate::errors::Error;
use crate::text::{find_char, find_char_from};

verus! {

/// The card number carried by a raw identifier: the text between the first
/// underscore and the next one (or the end), or `UNKNOWN` when the raw data
/// has no underscore at all.
pub open spec fn extract_card_number_spec(s: Seq<char>) -> Seq<char> {
    let i = find_char_from(s, '_', 0);
    if i < 0 {
        "UNKNOWN"@
    } else {
        let j = find_char_from(s, '_', i + 1);
        if j < 0 {
            s.subrange(i + 1, s.len() as int)
        } else {
            s.subrange(i + 1, j)
        }
    }
}

/// Exclusive handle to the physical or simulated reader connection.
pub struct RFIDReader {
    port_name: String,
    baud_rate: u32,
}

impl RFIDReader {
    /// The serial port this handle was created for.
    pub closed spec fn port_name_spec(&self) -> Seq<char> {
        self.port_name@
    }

    /// The baud rate this handle was created for.
    pub closed spec fn baud_rate_spec(&self) -> u32 {
        self.baud_rate
    }

    pub fn new(port_name: &str, baud_rate: u32) -> (r: RFIDReader)
        ensures
            r.port_name_spec() == port_name@,
            r.baud_rate_spec() == baud_rate,
    {
        RFIDReader { port_name: port_name.to_owned(), baud_rate }
    }

    /// Perform the synchronous device handshake. The simulated device always
    /// answers, so the handshake always succeeds; a real driver would report
    /// a failed handshake as [`Error::DeviceError`].
    pub fn init_port(&mut self) -> (r: Result<(), Error>)
        ensures
            r is Ok,
            *final(self) == *old(self),
    {
        Ok(())
    }

    /// Sample the reader once for a card presentation. The simulated device
    /// never reports a card on its own; detections reach the session manager
    /// through its polling entry point instead.
    pub fn poll_for_card(&mut self) -> (r: Option<String>)
        ensures
            r is None,
            *final(self) == *old(self),
    {
        None
    }

    /// The meaningful card number inside the raw data read from a card:
    /// the segment after the first underscore.
    pub fn extract_card_number(&self, raw_data: &str) -> (r: String)
        ensures
            r@ == extract_card_number_spec(raw_data@),
    {
        match find_char(raw_data, '_', 0) {
            None => {
                let r = String::from_str("UNKNOWN");
                r
            },
            Some(i) => {
                let n = raw_data.unicode_len();
                let end = match find_char(raw_data, '_', i + 1) {
                    None => n,
                    Some(j) => j,
                };
                raw_data.substring_char(i + 1, end).to_owned()
            },
        }
    }
}

} // verus!
