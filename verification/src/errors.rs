//! Error kinds shared by every public operation of the backend.

use vstd::prelude::*;

verus! {

/// Why an operation failed. Every foreground operation reports its failure
/// through one of these kinds, each carrying enough text for a presentation
/// layer to render actionable guidance.
#[derive(Debug)]
pub enum Error {
    /// The operation needs a reader or session that does not exist yet.
    NotInitialized,
    /// A handshake or I/O failure against physical hardware.
    DeviceError(String),
    /// Internal plumbing failed; never user-caused.
    ChannelClosed,
    /// A remote service answered with a non-success status.
    RemoteServiceError(String),
    /// The validation or deduction step of a payment refused the transaction.
    PaymentFailed(String),
    /// Persisted settings were unreadable or unwritable.
    ConfigError(String),
}

impl Error {
    /// A human-readable description naming the stage that failed.
    pub fn message(&self) -> (r: String)
        ensures
            r@.len() > 0,
            *self is NotInitialized ==> r@ == "RFID Reader not initialized. Call initialize first."@,
            (*self matches Error::DeviceError(d) ==> r@ == "Device error: "@ + d@),
            *self is ChannelClosed ==> r@ == "Internal event channel closed unexpectedly."@,
            (*self matches Error::RemoteServiceError(d) ==> r@ == "Remote service error: "@ + d@),
            (*self matches Error::PaymentFailed(d) ==> r@ == "Payment failed: "@ + d@),
            (*self matches Error::ConfigError(d) ==> r@ == "Configuration error: "@ + d@),
    {
        proof {
            reveal_strlit("RFID Reader not initialized. Call initialize first.");
            reveal_strlit("Device error: ");
            reveal_strlit("Internal event channel closed unexpectedly.");
            reveal_strlit("Remote service error: ");
            reveal_strlit("Payment failed: ");
            reveal_strlit("Configuration error: ");
        }
        match self {
            Error::NotInitialized => String::from_str(
                "RFID Reader not initialized. Call initialize first.",
            ),
            Error::DeviceError(d) => {
                let mut s = String::from_str("Device error: ");
                s.append(d.as_str());
                s
            },
            Error::ChannelClosed => String::from_str("Internal event channel closed unexpectedly."),
            Error::RemoteServiceError(d) => {
                let mut s = String::from_str("Remote service error: ");
                s.append(d.as_str());
                s
            },
            Error::PaymentFailed(d) => {
                let mut s = String::from_str("Payment failed: ");
                s.append(d.as_str());
                s
            },
            Error::ConfigError(d) => {
                let mut s = String::from_str("Configuration error: ");
                s.append(d.as_str());
                s
            },
        }
    }

    /// True exactly when this is the `NotInitialized` kind; lets callers
    /// outside the crate branch on the kind without pattern syntax.
    pub fn is_not_initialized(&self) -> (r: bool)
        ensures
            r == (self is NotInitialized),
    {
        match self {
            Error::NotInitialized => true,
            _ => false,
        }
    }
}

} // verus!
