use vstd::prelude::*;
use vstd::string::*;
use crate::error::{PipelineError, spec_diagnostic, spec_log_view};
use crate::shader::CompiledShaderUnit;

verus! {

/// The fallback diagnostic when the driver gives no link log.
pub open spec fn spec_program_fallback_log() -> Seq<char> {
    "Unknown error creating program"@
}

fn program_fallback() -> (r: String)
    ensures
        r@ == spec_program_fallback_log(),
        r@.len() > 0,
{
    proof {
        reveal_strlit("Unknown error creating program");
    }
    String::from_str("Unknown error creating program")
}

/// Decides the outcome of one program-link request from what the driver
/// reported. Linking takes exactly one vertex-stage unit and one
/// fragment-stage unit, both from successful compiles. Success means the
/// program may be made active; a failed link yields the driver's diagnostic,
/// or a fallback message when the log is empty or unavailable.
pub fn link_outcome(
    vertex: &CompiledShaderUnit,
    fragment: &CompiledShaderUnit,
    created: bool,
    link_status: bool,
    driver_log: Option<String>,
) -> (r: Result<(), PipelineError>)
    requires
        vertex.stage is Vertex,
        fragment.stage is Fragment,
    ensures
        !created ==> (r matches Err(e) && e is ResourceCreation),
        created && link_status ==> r is Ok,
        created && !link_status ==> (r matches Err(e) && {
            &&& e matches PipelineError::ProgramLink { log }
            &&& log@ == spec_diagnostic(spec_log_view(driver_log), spec_program_fallback_log())
            &&& log@.len() > 0
        }),
{
    if !created {
        Err(PipelineError::ResourceCreation)
    } else if link_status {
        Ok(())
    } else {
        let log = match driver_log {
            Option::Some(s) => {
                if s.as_str().unicode_len() > 0 {
                    s
                } else {
                    program_fallback()
                }
            },
            Option::None => program_fallback(),
        };
        Err(PipelineError::ProgramLink { log })
    }
}

/// The location cache of a linked program: the `position` attribute index
/// and whether the `resolution` uniform slot resolved. Looked up once, right
/// after a successful link, and read for the rest of the pipeline.
#[derive(Clone, Copy, Debug, PartialEq, Eq, Structural)]
pub struct LinkedProgram {
    pub position_location: u32,
    pub resolution_present: bool,
}

impl LinkedProgram {
    /// Builds the location cache from the driver's lookups. The driver
    /// answers an attribute-location query with the index, or a negative
    /// value when the name did not resolve; only a resolved, non-negative
    /// index yields a program, and the cached location equals that index.
    pub fn resolve(position_index: i32, resolution_present: bool) -> (r: Option<LinkedProgram>)
        ensures
            position_index >= 0 ==> (r matches Some(p) && {
                &&& p.position_location == position_index as u32
                &&& p.resolution_present == resolution_present
            }),
            position_index < 0 ==> r is None,
    {
        if position_index >= 0 {
            Some(
                LinkedProgram {
                    position_location: position_index as u32,
                    resolution_present: resolution_present,
                },
            )
        } else {
            None
        }
    }
}

} // verus!
