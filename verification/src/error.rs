use vstd::prelude::*;

verus! {

/// The failure modes of the pipeline. Every error is fatal: the caller of
/// the entry point receives it unchanged, and no later stage runs.
#[derive(Debug, Clone, PartialEq, Eq)]
pub enum PipelineError {
    /// The rendering-context capability could not be obtained from the surface.
    ContextUnavailable,
    /// An object-creation call (shader, program, buffer, or layout object)
    /// returned no handle.
    ResourceCreation,
    /// The driver reported a failed shader compilation; `log` carries its
    /// diagnostic text.
    ShaderCompile { log: String },
    /// The driver reported a failed program link; `log` carries its
    /// diagnostic text.
    ProgramLink { log: String },
}

impl PipelineError {
    /// Compile and link failures always carry a non-empty diagnostic.
    pub open spec fn diagnostic_nonempty(self) -> bool {
        match self {
            PipelineError::ShaderCompile { log } => log@.len() > 0,
            PipelineError::ProgramLink { log } => log@.len() > 0,
            _ => true,
        }
    }
}

/// The diagnostic kept for a failed compile or link: the driver's log when it
/// has one and it is non-empty, otherwise the given fallback text.
pub open spec fn spec_diagnostic(driver_log: Option<Seq<char>>, fallback: Seq<char>) -> Seq<char> {
    match driver_log {
        Option::Some(s) => if s.len() > 0 {
            s
        } else {
            fallback
        },
        Option::None => fallback,
    }
}

/// The view of an optional driver log.
pub open spec fn spec_log_view(driver_log: Option<String>) -> Option<Seq<char>> {
    match driver_log {
        Option::Some(s) => Option::Some(s@),
        Option::None => Option::None,
    }
}

} // verus!
