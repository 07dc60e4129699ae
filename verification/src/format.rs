//! Stream format negotiation: one physical format applied to the
//! device and one logical format applied to the processing unit bound
//! to it.
//!
//! Physical negotiation selects, from the formats the device supports,
//! one equal to the request in sample rate, channel count and
//! representation, and records it.  Logical negotiation must follow a
//! successful physical negotiation and must agree with it; attempting
//! it earlier, or with a disagreeing format, is rejected.  Applying
//! the chosen formats to the hardware is a platform call made by the
//! caller; the platform is handed exactly the recorded formats.

use crate::handshake::HandshakeSession;
use vstd::prelude::*;

verus! {

/// The representation of one sample.
#[derive(Clone, Copy, Debug, PartialEq, Eq, Structural)]
pub enum SampleRep {
    /// Packed 32-bit float.
    F32Packed,
    /// 32-bit signed integer.
    I32,
    /// 24-bit signed integer.
    I24,
    /// 16-bit signed integer.
    I16,
}

/// A stream format: sample rate in hertz, interleaved channel count,
/// and sample representation.
#[derive(Clone, Copy, Debug, PartialEq, Eq, Structural)]
pub struct StreamFormatSpec {
    pub sample_rate: u32,
    pub channel_count: u32,
    pub rep: SampleRep,
}

/// A well-formed format has a positive rate and at least one channel.
pub open spec fn format_wf(f: StreamFormatSpec) -> bool {
    f.sample_rate > 0 && f.channel_count > 0
}

/// Failure of format negotiation.
#[derive(Clone, Copy, Debug, PartialEq, Eq, Structural)]
pub enum FormatError {
    /// No supported physical format matches the request.
    Unsupported,
    /// Logical negotiation was attempted before physical negotiation.
    PhysicalNotNegotiated,
    /// The logical format disagrees with the negotiated physical
    /// format.
    Mismatch,
}

/// The format negotiation of one session: first the physical format,
/// then a logical format that must equal it.
pub struct FormatNegotiation {
    physical: Option<StreamFormatSpec>,
    logical: Option<StreamFormatSpec>,
}

impl FormatNegotiation {
    /// The physical format, once negotiated.
    pub closed spec fn physical_spec(&self) -> Option<StreamFormatSpec> {
        self.physical
    }

    /// The logical format, once negotiated.
    pub closed spec fn logical_spec(&self) -> Option<StreamFormatSpec> {
        self.logical
    }

    /// Both formats are negotiated and describe the same stream.
    pub open spec fn complete(&self) -> bool {
        self.physical_spec() is Some && self.logical_spec() == self.physical_spec()
    }

    /// Begins a negotiation with neither format set.
    pub fn new() -> (n: Self)
        ensures
            n.physical_spec() is None,
            n.logical_spec() is None,
    {
        FormatNegotiation { physical: None, logical: None }
    }

    /// The negotiated physical format, for the caller to apply to the
    /// device.
    pub fn physical(&self) -> (f: Option<StreamFormatSpec>)
        ensures
            f == self.physical_spec(),
    {
        self.physical
    }

    /// The negotiated logical format, for the caller to apply to the
    /// processing unit.
    pub fn logical(&self) -> (f: Option<StreamFormatSpec>)
        ensures
            f == self.logical_spec(),
    {
        self.logical
    }

    /// Negotiates the physical format: succeeds exactly when the
    /// device's supported set contains a format equal to `want` in
    /// rate, channel count and representation, and records `want`.
    /// The mode handshake must have completed first.
    pub fn negotiate_physical(
        &mut self,
        want: StreamFormatSpec,
        supported: &Vec<StreamFormatSpec>,
        hs: &HandshakeSession,
    ) -> (r: Result<(), FormatError>)
        requires
            format_wf(want),
            hs.stage_spec() is Complete,
            old(self).physical_spec() is None,
        ensures
            final(self).logical_spec() == old(self).logical_spec(),
            if supported@.contains(want) {
                r is Ok && final(self).physical_spec() == Some(want)
            } else {
                r == Err::<(), FormatError>(FormatError::Unsupported) && final(self).physical_spec() is None
            },
    {
        let n = supported.len();
        let mut i: usize = 0;
        while i < n
            invariant
                i <= n,
                n == supported@.len(),
                self.physical_spec() is None,
                self.logical_spec() == old(self).logical_spec(),
                forall|k: int| 0 <= k < i ==> supported@[k] != want,
            decreases n - i,
        {
            if supported[i] == want {
                self.physical = Some(want);
                return Ok(());
            }
            i += 1;
        }
        assert(!supported@.contains(want));
        Err(FormatError::Unsupported)
    }

    /// Negotiates the logical format.  Rejected when physical
    /// negotiation has not happened yet, or when `want` differs from
    /// the negotiated physical format; otherwise records `want`.
    pub fn negotiate_logical(&mut self, want: StreamFormatSpec) -> (r: Result<(), FormatError>)
        ensures
            final(self).physical_spec() == old(self).physical_spec(),
            match old(self).physical_spec() {
                None => r == Err::<(), FormatError>(FormatError::PhysicalNotNegotiated) && final(self).logical_spec() == old(self).logical_spec(),
                Some(p) => if p == want {
                    r is Ok && final(self).logical_spec() == Some(want) && final(self).complete()
                } else {
                    r == Err::<(), FormatError>(FormatError::Mismatch) && final(self).logical_spec()
                        == old(self).logical_spec()
                },
            },
    {
        match self.physical {
            None => Err(FormatError::PhysicalNotNegotiated),
            Some(p) => {
                if p == want {
                    self.logical = Some(want);
                    Ok(())
                } else {
                    Err(FormatError::Mismatch)
                }
            },
        }
    }
}

} // verus!
