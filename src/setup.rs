//! Setup failures: everything that stops the pipeline before its first
//! frame, and the outcome of compiling and linking the shading program.
use vstd::prelude::*;
use crate::layout::LayoutError;
use crate::uniforms::Uniform;

verus! {

/// A failure while building the pipeline. Each is fatal: no frame is drawn.
#[derive(Debug)]
pub enum SetupError {
    /// The host could not create a shader object.
    ShaderUnavailable,
    /// A shader stage did not compile; the compiler's log, if it gave one.
    CompileFailed(Option<String>),
    /// The host could not create a program object.
    ProgramUnavailable,
    /// The program did not link; the linker's log, if it gave one.
    LinkFailed(Option<String>),
    /// The host could not create a vertex-array object.
    VertexArrayUnavailable,
    /// The host could not create a buffer.
    BufferUnavailable,
    /// The linked program does not expose this uniform.
    MissingUniform(Uniform),
    /// The geometry is inconsistent.
    Layout(LayoutError),
}

/// The text that reports `e`: a compiler's or linker's own log where one was
/// given, else a fixed description.
pub open spec fn message_of(e: SetupError) -> Seq<char> {
    match e {
        SetupError::ShaderUnavailable => "Failed to create shader object"@,
        SetupError::CompileFailed(Some(log)) => log@,
        SetupError::CompileFailed(None) => "Failed to compile shader"@,
        SetupError::ProgramUnavailable => "Failed to create program object"@,
        SetupError::LinkFailed(Some(log)) => log@,
        SetupError::LinkFailed(None) => "Failed to link program"@,
        SetupError::VertexArrayUnavailable => "Failed to create vertex array object"@,
        SetupError::BufferUnavailable => "Failed to create buffer"@,
        SetupError::MissingUniform(_) => "Failed to get uniform location"@,
        SetupError::Layout(_) => "Inconsistent geometry"@,
    }
}

impl SetupError {
    /// The text that reports this failure.
    pub fn message(&self) -> (r: String)
        ensures
            r@ == message_of(*self),
    {
        match self {
            SetupError::ShaderUnavailable => "Failed to create shader object".to_owned(),
            SetupError::CompileFailed(Some(log)) => log.clone(),
            SetupError::CompileFailed(None) => "Failed to compile shader".to_owned(),
            SetupError::ProgramUnavailable => "Failed to create program object".to_owned(),
            SetupError::LinkFailed(Some(log)) => log.clone(),
            SetupError::LinkFailed(None) => "Failed to link program".to_owned(),
            SetupError::VertexArrayUnavailable => "Failed to create vertex array object".to_owned(),
            SetupError::BufferUnavailable => "Failed to create buffer".to_owned(),
            SetupError::MissingUniform(_) => "Failed to get uniform location".to_owned(),
            SetupError::Layout(_) => "Inconsistent geometry".to_owned(),
        }
    }
}

/// Which build step of the shading program an outcome belongs to.
#[derive(Clone, Copy, Debug, PartialEq, Eq, Structural)]
pub enum BuildStep {
    Compile,
    Link,
}

/// The outcome of a compile or link step, given the status the host reported
/// and the log it gave: success keeps the object; failure means the object
/// is released and the log is the error.
pub fn step_outcome(step: BuildStep, succeeded: bool, log: Option<String>) -> (r: Result<
    (),
    SetupError,
>)
    ensures
        succeeded ==> r is Ok,
        !succeeded && step == BuildStep::Compile ==> r == Err::<(), SetupError>(
            SetupError::CompileFailed(log),
        ),
        !succeeded && step == BuildStep::Link ==> r == Err::<(), SetupError>(
            SetupError::LinkFailed(log),
        ),
{
    if succeeded {
        Ok(())
    } else {
        match step {
            BuildStep::Compile => Err(SetupError::CompileFailed(log)),
            BuildStep::Link => Err(SetupError::LinkFailed(log)),
        }
    }
}

} // verus!
