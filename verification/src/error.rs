//! Failures the render core reports to its host.

use vstd::prelude::*;

verus! {

/// Why the surface could not hand out the next presentable image.
#[derive(Clone, Copy, Debug, PartialEq, Eq, Structural)]
pub enum SurfaceError {
    /// The image did not become available in time.
    Timeout,
    /// The surface changed underneath the swap chain.
    Outdated,
    /// The swap chain is gone and has to be recreated.
    Lost,
    /// No memory is left for a new frame.
    OutOfMemory,
}

/// What the host has to do about a [`SurfaceError`].
#[derive(Clone, Copy, Debug, PartialEq, Eq, Structural)]
pub enum Severity {
    /// The next frame may succeed; the host keeps running.
    Transient,
    /// The host must terminate.
    Fatal,
}

impl SurfaceError {
    /// Running out of memory is fatal; every other failure is transient.
    pub open spec fn spec_severity(self) -> Severity {
        match self {
            SurfaceError::OutOfMemory => Severity::Fatal,
            SurfaceError::Timeout | SurfaceError::Outdated | SurfaceError::Lost => {
                Severity::Transient
            },
        }
    }

    /// Classifies the failure.
    #[verifier::when_used_as_spec(spec_severity)]
    pub fn severity(self) -> (s: Severity)
        ensures
            s == self.spec_severity(),
    {
        match self {
            SurfaceError::OutOfMemory => Severity::Fatal,
            SurfaceError::Timeout => Severity::Transient,
            SurfaceError::Outdated => Severity::Transient,
            SurfaceError::Lost => Severity::Transient,
        }
    }

    pub open spec fn spec_is_fatal(self) -> bool {
        self.spec_severity() == Severity::Fatal
    }

    /// `true` exactly for the failure after which the host must terminate.
    #[verifier::when_used_as_spec(spec_is_fatal)]
    pub fn is_fatal(self) -> (fatal: bool)
        ensures
            fatal == self.spec_is_fatal(),
            fatal <==> self == SurfaceError::OutOfMemory,
    {
        match self {
            SurfaceError::OutOfMemory => true,
            _ => false,
        }
    }
}

/// Why start-up was abandoned.  Each of these is fatal: no device context
/// exists afterwards and none can be obtained by trying again.
#[derive(Clone, Copy, Debug, PartialEq, Eq, Structural)]
pub enum InitError {
    /// No graphics adapter can present to the surface.
    NoAdapter,
    /// The adapter refused to open a logical device.
    NoDevice,
    /// The surface reports no preferred format for the adapter.
    NoSurfaceFormat,
}

} // verus!
