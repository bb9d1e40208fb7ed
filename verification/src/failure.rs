//! What can go wrong while the program sets itself up.

use vstd::prelude::*;
use crate::shader::Stage;

verus! {

/// The step of the setup that failed.
#[derive(Clone, Copy, Debug, PartialEq, Eq)]
pub enum FailureKind {
    /// The window system could not be started or gave no window.
    Window,
    /// The window gave no rendering context.
    Context,
    /// The window system gave no event queue.
    EventPump,
    /// The entry points of the graphics API could not be resolved.
    ApiLoader,
    /// The source file of a shader stage could not be read.
    ShaderSource { stage: Stage },
    /// The source of a shader stage did not compile.
    ShaderCompile { stage: Stage },
    /// The compiled stages did not link into a program.
    ShaderLink,
}

/// A failed setup: which step failed, and what the failing party had to say
/// about it. Every such failure is final; there is nothing to retry.
#[derive(Debug, PartialEq, Eq)]
pub struct SetupFailure {
    pub kind: FailureKind,
    pub message: String,
}

} // verus!
