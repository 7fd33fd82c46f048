//! Setup-time failures. Every one is fatal: the loop declines to start when
//! any of them occurs, and there is no runtime recovery path.

use vstd::prelude::*;

verus! {

/// Which stage of a shader program a compile diagnostic belongs to.
#[derive(Debug, Clone, Copy, PartialEq, Eq, Structural)]
pub enum ShaderStage {
    Vertex,
    Fragment,
}

/// The aggregate initialization failure of the demo.
#[derive(Debug, PartialEq, Eq)]
pub enum LifeError {
    /// A shader stage failed to compile; carries the compiler's diagnostic
    /// text.
    ShaderCompile { stage: ShaderStage, diagnostic: String },
    /// Linking the compiled stages failed; carries the linker's diagnostic
    /// text.
    ShaderLink { diagnostic: String },
    /// No active uniform of the given name exists in the linked program.
    UnknownUniform { name: String },
    /// No graphics context could be obtained from the surface.
    ContextAcquisition,
    /// The host refused to register a frame callback.
    Scheduling,
}

} // verus!
