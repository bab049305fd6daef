//! The error taxonomy of the library, and the stage names it speaks of.

use vstd::prelude::*;
use vstd::string::StringExecFns;

verus! {

/// One half of the two-stage pipeline: the vertex-processing stage or the
/// fragment-processing stage.
#[derive(Clone, Copy, PartialEq, Eq, Structural, Debug)]
pub enum StageKind {
    Vertex,
    Fragment,
}

/// Everything that can go wrong while building a program or pushing a
/// uniform value into one.  Each failure is unrecoverable at the point of
/// detection; the taxonomy exists so that callers and tests can observe the
/// failure instead of having the process terminated for them.
#[derive(Debug)]
pub enum ShaderError {
    /// A shader source file could not be read: names the stage it was meant
    /// for and the exact path that failed.
    FileReadError { stage: StageKind, path: String },
    /// A stage did not compile: names the stage and carries the driver's
    /// diagnostic log verbatim.
    CompileError { stage: StageKind, log: String },
    /// The two compiled stages did not link: carries the driver's
    /// diagnostic log verbatim.
    LinkError { log: String },
    /// A uniform the caller declared required is absent from the program's
    /// reflection data.
    MissingRequiredUniform { name: String },
}

/// Mathematical model of a [`ShaderError`]: the same shape, with all text
/// as character sequences.
#[verifier::ext_equal]
pub enum ErrorModel {
    FileRead { stage: StageKind, path: Seq<char> },
    Compile { stage: StageKind, log: Seq<char> },
    Link { log: Seq<char> },
    MissingUniform { name: Seq<char> },
}

impl View for ShaderError {
    type V = ErrorModel;

    open spec fn view(&self) -> ErrorModel {
        match self {
            ShaderError::FileReadError { stage, path } => ErrorModel::FileRead {
                stage: *stage,
                path: path@,
            },
            ShaderError::CompileError { stage, log } => ErrorModel::Compile {
                stage: *stage,
                log: log@,
            },
            ShaderError::LinkError { log } => ErrorModel::Link { log: log@ },
            ShaderError::MissingRequiredUniform { name } => ErrorModel::MissingUniform {
                name: name@,
            },
        }
    }
}

impl ShaderError {
    /// The text of the diagnostic for this error, as the demos print it
    /// before exiting.
    pub open spec fn message_view(&self) -> Seq<char> {
        match self@ {
            ErrorModel::FileRead { stage, path } => match stage {
                StageKind::Vertex => "Could not open vertex shader: "@ + path,
                StageKind::Fragment => "Could not open fragment shader: "@ + path,
            },
            ErrorModel::Compile { stage, log } => match stage {
                StageKind::Vertex => "Vertex shader error: "@ + log,
                StageKind::Fragment => "Fragment shader error: "@ + log,
            },
            ErrorModel::Link { log } => "Shader program error: "@ + log,
            ErrorModel::MissingUniform { name } => "Required uniform not found: "@ + name,
        }
    }

    /// Builds the human-readable diagnostic for this error.
    pub fn message(&self) -> (r: String)
        ensures
            r@ == self.message_view(),
    {
        match self {
            ShaderError::FileReadError { stage, path } => {
                let prefix = match stage {
                    StageKind::Vertex => "Could not open vertex shader: ",
                    StageKind::Fragment => "Could not open fragment shader: ",
                };
                String::from_str(prefix).concat(path.as_str())
            },
            ShaderError::CompileError { stage, log } => {
                let prefix = match stage {
                    StageKind::Vertex => "Vertex shader error: ",
                    StageKind::Fragment => "Fragment shader error: ",
                };
                String::from_str(prefix).concat(log.as_str())
            },
            ShaderError::LinkError { log } => {
                String::from_str("Shader program error: ").concat(log.as_str())
            },
            ShaderError::MissingRequiredUniform { name } => {
                String::from_str("Required uniform not found: ").concat(name.as_str())
            },
        }
    }
}

} // verus!
