//! The mode handshake: a get/set/get exchange over a vendor-defined
//! string property that announces the session's operating mode to the
//! device.
//!
//! The property accesses themselves are platform calls; the session
//! tracks the stage of the exchange and decides, from each reported
//! outcome, whether the handshake proceeds, fails, or completes with a
//! mismatch warning.  A read failure is fatal (the device cannot be
//! queried); a rejected write fails the handshake; a re-read value that
//! differs from the written mode is surfaced as a warning only.

use crate::fourcc::fourcc_spec;
use crate::fourcc::idFromCharsLikeAppleDoes;
use crate::resolver::Scope;
use vstd::prelude::*;

verus! {

/// Failure of the mode handshake.
#[derive(Clone, Copy, Debug, PartialEq, Eq, Structural)]
pub enum HandshakeError {
    /// A property read was rejected with this status: the device
    /// cannot be queried.
    QueryFailed(i32),
    /// The property write reported this non-success status.
    Rejected(i32),
}

/// A named-property address: selector, scope, element.
pub struct PropertyAddress {
    pub selector: u32,
    pub scope: Scope,
    pub element: u32,
}

/// What a property read reported.
pub enum PropertyReadOutcome {
    Value(String),
    Failure(i32),
}

/// What a property write reported.
#[derive(Clone, Copy, Debug, PartialEq, Eq, Structural)]
pub enum PropertyWriteOutcome {
    Accepted,
    Refused(i32),
}

/// Stage of the get/set/get exchange.
#[derive(Clone, Copy, Debug, PartialEq, Eq, Structural)]
pub enum HandshakeStage {
    AwaitInitialRead,
    AwaitWrite,
    AwaitConfirmRead,
    Complete,
    Failed,
}

/// The 32-bit key of the handshake property, packed from the token
/// `momm`.
pub fn mom_property_key() -> (k: u32)
    ensures
        k == fourcc_spec("momm"@),
        k == 0x6D6F_6D6D,
{
    proof {
        reveal_strlit("momm");
    }
    idFromCharsLikeAppleDoes("momm")
}

/// One mode handshake with a device, stepped by the outcomes of the
/// three property accesses.
pub struct HandshakeSession {
    mode: String,
    stage: HandshakeStage,
}

impl HandshakeSession {
    /// The mode string this session announces.
    pub closed spec fn mode_spec(&self) -> Seq<char> {
        self.mode@
    }

    /// The stage the exchange has reached.
    pub closed spec fn stage_spec(&self) -> HandshakeStage {
        self.stage
    }

    /// Begins a handshake that will announce `mode`.
    pub fn new(mode: String) -> (s: Self)
        ensures
            s.mode_spec() == mode@,
            s.stage_spec() is AwaitInitialRead,
    {
        HandshakeSession { mode, stage: HandshakeStage::AwaitInitialRead }
    }

    /// The address of the handshake property: the `momm` selector on
    /// the device's output scope, main element.
    pub fn property_address(&self) -> (a: PropertyAddress)
        ensures
            a.selector == fourcc_spec("momm"@),
            a.scope is Output,
            a.element == 0,
    {
        PropertyAddress { selector: mom_property_key(), scope: Scope::Output, element: 0 }
    }

    /// Takes the outcome of the initial, diagnostic-only read.  Any
    /// value lets the exchange proceed to the write; a failure is
    /// fatal.
    pub fn on_initial_read(&mut self, outcome: &PropertyReadOutcome) -> (r: Result<
        (),
        HandshakeError,
    >)
        requires
            old(self).stage_spec() is AwaitInitialRead,
        ensures
            final(self).mode_spec() == old(self).mode_spec(),
            match outcome {
                PropertyReadOutcome::Value(_) => r is Ok && final(self).stage_spec() is AwaitWrite,
                PropertyReadOutcome::Failure(st) => r == Err::<(), HandshakeError>(
                    HandshakeError::QueryFailed(*st),
                ) && final(self).stage_spec() is Failed,
            },
    {
        match outcome {
            PropertyReadOutcome::Value(_) => {
                self.stage = HandshakeStage::AwaitWrite;
                Ok(())
            },
            PropertyReadOutcome::Failure(st) => {
                self.stage = HandshakeStage::Failed;
                Err(HandshakeError::QueryFailed(*st))
            },
        }
    }

    /// The string value the write announces: the mode itself.
    pub fn value_to_write(&self) -> (v: &String)
        requires
            self.stage_spec() is AwaitWrite,
        ensures
            v@ == self.mode_spec(),
    {
        &self.mode
    }

    /// Takes the outcome of the property write.  A non-success status
    /// rejects the handshake.
    pub fn on_write(&mut self, outcome: &PropertyWriteOutcome) -> (r: Result<(), HandshakeError>)
        requires
            old(self).stage_spec() is AwaitWrite,
        ensures
            final(self).mode_spec() == old(self).mode_spec(),
            match outcome {
                PropertyWriteOutcome::Accepted => r is Ok
                    && final(self).stage_spec() is AwaitConfirmRead,
                PropertyWriteOutcome::Refused(st) => r == Err::<(), HandshakeError>(
                    HandshakeError::Rejected(*st),
                ) && final(self).stage_spec() is Failed,
            },
    {
        match outcome {
            PropertyWriteOutcome::Accepted => {
                self.stage = HandshakeStage::AwaitConfirmRead;
                Ok(())
            },
            PropertyWriteOutcome::Refused(st) => {
                self.stage = HandshakeStage::Failed;
                Err(HandshakeError::Rejected(*st))
            },
        }
    }

    /// Takes the outcome of the confirming re-read.  On success the
    /// handshake completes; the returned flag warns, without failing,
    /// when the re-read value differs from the announced mode.
    pub fn on_confirm_read(&mut self, outcome: &PropertyReadOutcome) -> (r: Result<
        bool,
        HandshakeError,
    >)
        requires
            old(self).stage_spec() is AwaitConfirmRead,
        ensures
            final(self).mode_spec() == old(self).mode_spec(),
            match outcome {
                PropertyReadOutcome::Value(v) => r == Ok::<bool, HandshakeError>(
                    v@ != old(self).mode_spec(),
                ) && final(self).stage_spec() is Complete,
                PropertyReadOutcome::Failure(st) => r == Err::<bool, HandshakeError>(
                    HandshakeError::QueryFailed(*st),
                ) && final(self).stage_spec() is Failed,
            },
    {
        match outcome {
            PropertyReadOutcome::Value(v) => {
                self.stage = HandshakeStage::Complete;
                let mismatch = !(*v == self.mode);
                Ok(mismatch)
            },
            PropertyReadOutcome::Failure(st) => {
                self.stage = HandshakeStage::Failed;
                Err(HandshakeError::QueryFailed(*st))
            },
        }
    }
}

} // verus!
