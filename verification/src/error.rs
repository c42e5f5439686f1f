//! The errors of a session and what each of them leaves the caller to do.

use vstd::prelude::*;

verus! {

/// What the driving loop does about an error.
#[derive(Clone, Copy, Debug, PartialEq, Eq, Structural)]
pub enum Recovery {
    /// Go on: the session is as it was before the failed operation.
    Continue,
    /// Draw again with the next frame.
    Retry,
    /// Resize to the window's current size, then draw again.
    Reconfigure,
    /// End the session: it cannot start or cannot go on.
    Abort,
}

/// Why no session could be started.
#[derive(Clone, Debug, PartialEq, Eq)]
pub enum AcquisitionError {
    /// No GPU adapter can present to the surface.
    NoCompatibleAdapter,
    /// The platform refused to create a device; the payload is its reason.
    DeviceRequest(String),
}

/// Why the next frame could not be acquired from the surface.
#[derive(Clone, Copy, Debug, PartialEq, Eq, Structural)]
pub enum SurfaceError {
    /// The surface was lost and has to be configured again.
    Lost,
    /// The surface no longer matches the window and has to be configured
    /// again.
    Outdated,
    /// No frame became available in time.
    Timeout,
    /// Any other failure of the surface.
    Other,
}

/// Why a shader reload was refused. The pipeline that was active before the
/// reload stays active in either case.
#[derive(Clone, Debug, PartialEq, Eq)]
pub enum ShaderError {
    /// The source is empty or white space only; nothing was compiled.
    EmptySource,
    /// The source did not compile; the payload is the compiler's diagnostic.
    CompileFailed(String),
}

impl AcquisitionError {
    /// Without a GPU there is no session: every such error ends it.
    pub fn recovery(&self) -> (way: Recovery)
        ensures
            way == Recovery::Abort,
    {
        Recovery::Abort
    }

    /// The text shown to a caller: a fixed sentence where no adapter was
    /// found, the platform's reason otherwise.
    pub fn message(&self) -> (text: String)
        ensures
            text@ == match *self {
                AcquisitionError::NoCompatibleAdapter => "No compatible GPU adapter found"@,
                AcquisitionError::DeviceRequest(reason) => reason@,
            },
    {
        match self {
            AcquisitionError::NoCompatibleAdapter => "No compatible GPU adapter found".to_owned(),
            AcquisitionError::DeviceRequest(reason) => reason.clone(),
        }
    }
}

impl SurfaceError {
    /// The way out of this error: a lost or outdated surface is configured
    /// again, a timeout is retried, anything else ends the session.
    pub fn recovery(&self) -> (way: Recovery)
        ensures
            way == match *self {
                SurfaceError::Lost => Recovery::Reconfigure,
                SurfaceError::Outdated => Recovery::Reconfigure,
                SurfaceError::Timeout => Recovery::Retry,
                SurfaceError::Other => Recovery::Abort,
            },
    {
        match self {
            SurfaceError::Lost | SurfaceError::Outdated => Recovery::Reconfigure,
            SurfaceError::Timeout => Recovery::Retry,
            SurfaceError::Other => Recovery::Abort,
        }
    }
}

impl ShaderError {
    /// A refused reload changes nothing, so the session goes on with the
    /// shader it had.
    pub fn recovery(&self) -> (way: Recovery)
        ensures
            way == Recovery::Continue,
    {
        Recovery::Continue
    }

    /// The text shown to a caller: a fixed sentence for an empty source, the
    /// compiler's diagnostic otherwise.
    pub fn message(&self) -> (text: String)
        ensures
            text@ == match *self {
                ShaderError::EmptySource => "Shader source cannot be empty"@,
                ShaderError::CompileFailed(diagnostic) => diagnostic@,
            },
    {
        match self {
            ShaderError::EmptySource => "Shader source cannot be empty".to_owned(),
            ShaderError::CompileFailed(diagnostic) => diagnostic.clone(),
        }
    }
}

} // verus!
