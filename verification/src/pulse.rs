//! The actuator pulse controller and the portal-command rules.
//!
//! A pulse is a stateless sequence: connect to the actuator endpoint, write
//! the engage signal, wait a fixed settle duration, write the release
//! signal; it succeeds only if both writes succeeded, and a failure on
//! either write aborts the sequence, naming the write that failed — no
//! retry. The connecting, writing, and waiting are outside work; the
//! sequence itself is the verified step machine here: the driver asks
//! [`pulse_action`] what to do, does it, and hands the outcome to
//! [`pulse_step`].

use vstd::prelude::*;

use crate::errors::Error;
use crate::text::{seq_ieq, eq_ignore_ascii};

verus! {

/// The step of a pulse that failed.
#[derive(Clone, Copy, Debug, PartialEq, Eq, Structural)]
pub enum PulseFault {
    /// Connecting to the actuator endpoint failed.
    Connect,
    /// The engage write failed; the release write was never attempted.
    Engage,
    /// The release write failed.
    Release,
}

/// Where a pulse stands.
#[derive(Clone, Copy, Debug, PartialEq, Eq, Structural)]
pub enum PulseStage {
    Connecting,
    Engaging,
    Settling,
    Releasing,
    Complete,
    Failed(PulseFault),
}

/// The outside work one stage asks for.
#[derive(Clone, Copy, Debug, PartialEq, Eq, Structural)]
pub enum PulseAction {
    /// Connect to the actuator endpoint.
    Connect,
    /// Write the engage signal (coil on).
    WriteEngage,
    /// Wait the fixed settle duration.
    Wait,
    /// Write the release signal (coil off).
    WriteRelease,
}

/// The outside work a stage asks for, or nothing when the pulse has ended.
pub open spec fn pulse_action_spec(stage: PulseStage) -> Option<PulseAction> {
    match stage {
        PulseStage::Connecting => Some(PulseAction::Connect),
        PulseStage::Engaging => Some(PulseAction::WriteEngage),
        PulseStage::Settling => Some(PulseAction::Wait),
        PulseStage::Releasing => Some(PulseAction::WriteRelease),
        PulseStage::Complete => None,
        PulseStage::Failed(_) => None,
    }
}

/// Where the pulse stands after its pending work reported `succeeded`. Every
/// failure is terminal and names its step; waiting cannot fail.
pub open spec fn pulse_step_spec(stage: PulseStage, succeeded: bool) -> PulseStage {
    match stage {
        PulseStage::Connecting => if succeeded {
            PulseStage::Engaging
        } else {
            PulseStage::Failed(PulseFault::Connect)
        },
        PulseStage::Engaging => if succeeded {
            PulseStage::Settling
        } else {
            PulseStage::Failed(PulseFault::Engage)
        },
        PulseStage::Settling => PulseStage::Releasing,
        PulseStage::Releasing => if succeeded {
            PulseStage::Complete
        } else {
            PulseStage::Failed(PulseFault::Release)
        },
        PulseStage::Complete => PulseStage::Complete,
        PulseStage::Failed(f) => PulseStage::Failed(f),
    }
}

/// The outside work `stage` asks for; `None` once the pulse has ended.
pub fn pulse_action(stage: PulseStage) -> (r: Option<PulseAction>)
    ensures
        r == pulse_action_spec(stage),
{
    match stage {
        PulseStage::Connecting => Some(PulseAction::Connect),
        PulseStage::Engaging => Some(PulseAction::WriteEngage),
        PulseStage::Settling => Some(PulseAction::Wait),
        PulseStage::Releasing => Some(PulseAction::WriteRelease),
        PulseStage::Complete => None,
        PulseStage::Failed(_) => None,
    }
}

/// Advance the pulse after its pending work reported `succeeded`.
pub fn pulse_step(stage: PulseStage, succeeded: bool) -> (r: PulseStage)
    ensures
        r == pulse_step_spec(stage, succeeded),
{
    match stage {
        PulseStage::Connecting => if succeeded {
            PulseStage::Engaging
        } else {
            PulseStage::Failed(PulseFault::Connect)
        },
        PulseStage::Engaging => if succeeded {
            PulseStage::Settling
        } else {
            PulseStage::Failed(PulseFault::Engage)
        },
        PulseStage::Settling => PulseStage::Releasing,
        PulseStage::Releasing => if succeeded {
            PulseStage::Complete
        } else {
            PulseStage::Failed(PulseFault::Release)
        },
        PulseStage::Complete => PulseStage::Complete,
        PulseStage::Failed(f) => PulseStage::Failed(f),
    }
}

impl PulseFault {
    /// Which stage failed, as the presentation layer reports it.
    pub fn message(&self) -> (r: String)
        ensures
            *self is Connect ==> r@ == "ADAM: Modbus TCP connect error"@,
            *self is Engage ==> r@ == "ADAM: Failed to write 'open' coil (ON)"@,
            *self is Release ==> r@ == "ADAM: Failed to write 'open' coil (OFF)"@,
    {
        match self {
            PulseFault::Connect => String::from_str("ADAM: Modbus TCP connect error"),
            PulseFault::Engage => String::from_str("ADAM: Failed to write 'open' coil (ON)"),
            PulseFault::Release => String::from_str("ADAM: Failed to write 'open' coil (OFF)"),
        }
    }
}

/// A failed engage write ends the pulse at once, attributed to the engage
/// step, and a pulse that ended asks for no further work — in particular,
/// the release write is never attempted after the engage write failed.
pub proof fn lemma_engage_failure_aborts()
    ensures
        pulse_step_spec(PulseStage::Engaging, false) == PulseStage::Failed(PulseFault::Engage),
        pulse_action_spec(PulseStage::Failed(PulseFault::Engage)) is None,
{
}

/// The release write is reachable only through the settle stage, and the
/// settle stage only through a successful engage write: no run of the pulse
/// machine writes the release signal unless the engage write succeeded.
pub proof fn lemma_release_needs_engage_success(stage: PulseStage, succeeded: bool)
    ensures
        pulse_action_spec(pulse_step_spec(stage, succeeded)) == Some(PulseAction::WriteRelease)
            ==> stage == PulseStage::Settling,
        pulse_step_spec(stage, succeeded) == PulseStage::Settling ==> stage == PulseStage::Engaging
            && succeeded,
{
}

/// The portal commands the presentation layer may send.
#[derive(Clone, Copy, Debug, PartialEq, Eq, Structural)]
pub enum PortalCommand {
    /// Pulse the portal open.
    Open,
    /// Acknowledged but performed nowhere: closing is simulated.
    Close,
}

/// Which portal command an action word names, matched without regard to
/// ASCII letter case; `None` for an unknown word.
pub fn portal_command_of(action: &str) -> (r: Option<PortalCommand>)
    ensures
        seq_ieq(action@, "open"@) ==> r == Some(PortalCommand::Open),
        !seq_ieq(action@, "open"@) && seq_ieq(action@, "close"@) ==> r == Some(
            PortalCommand::Close,
        ),
        !seq_ieq(action@, "open"@) && !seq_ieq(action@, "close"@) ==> r is None,
{
    if eq_ignore_ascii(action, "open") {
        Some(PortalCommand::Open)
    } else if eq_ignore_ascii(action, "close") {
        Some(PortalCommand::Close)
    } else {
        None
    }
}

/// The reply sent after a portal command went out.
pub fn portal_sent_message(action: &str, simulated: bool) -> (r: String)
    ensures
        simulated ==> r@ == "ADAM Portal command '"@ + action@ + "' sent (simulated)."@,
        !simulated ==> r@ == "ADAM Portal command '"@ + action@ + "' sent."@,
{
    let mut s = String::from_str("ADAM Portal command '");
    s.append(action);
    if simulated {
        s.append("' sent (simulated).");
    } else {
        s.append("' sent.");
    }
    proof {
        if simulated {
            assert(s@ =~= "ADAM Portal command '"@ + action@ + "' sent (simulated)."@);
        } else {
            assert(s@ =~= "ADAM Portal command '"@ + action@ + "' sent."@);
        }
    }
    s
}

/// The reply sent for an action word that names no portal command.
pub fn unknown_portal_action_message(action: &str) -> (r: String)
    ensures
        r@ == "Unknown ADAM portal action: "@ + action@,
{
    let mut s = String::from_str("Unknown ADAM portal action: ");
    s.append(action);
    s
}

/// The register address of a push button: the base status register plus the
/// button's id, or nothing when that address does not exist.
pub fn button_status_address(base: u16, button_id: u16) -> (r: Option<u16>)
    ensures
        base + button_id <= u16::MAX ==> r == Some((base + button_id) as u16),
        base + button_id > u16::MAX ==> r is None,
{
    if button_id <= u16::MAX - base {
        Some(base + button_id)
    } else {
        None
    }
}

/// The state of a push button from the discrete inputs the actuator device
/// answered with: the first input, or a device error when the answer was
/// empty.
pub fn button_status_from(inputs: &Vec<bool>) -> (r: Result<bool, Error>)
    ensures
        inputs@.len() > 0 ==> r == Ok::<bool, Error>(inputs@[0]),
        inputs@.len() == 0 ==> (r matches Err(Error::DeviceError(t)) && t@
            == "No data for button"@),
{
    if inputs.len() > 0 {
        Ok(inputs[0])
    } else {
        Err(Error::DeviceError(String::from_str("No data for button")))
    }
}

} // verus!
