use vstd::prelude::*;
use vstd::string::*;
use crate::error::{PipelineError, spec_diagnostic, spec_log_view};

verus! {

/// One phase of the shader pipeline: the per-vertex position transform or
/// the per-pixel color output.
#[derive(Clone, Copy, Debug, PartialEq, Eq, Structural)]
pub enum Stage {
    Vertex,
    Fragment,
}

/// Shader source text tagged with the stage it targets. Immutable once built.
#[derive(Clone, Debug)]
pub struct ShaderSource {
    pub stage: Stage,
    pub text: String,
}

impl ShaderSource {
    /// Compilation is only attempted on non-empty source text.
    pub open spec fn wf(self) -> bool {
        self.text@.len() > 0
    }
}

/// The model of a compiled shader unit: a GPU-side handle tagged with the
/// stage it was compiled for. `compile_outcome` produces one only on a
/// successful compile status, and the pipeline attaches only units obtained
/// that way.
#[derive(Clone, Copy, Debug, PartialEq, Eq, Structural)]
pub struct CompiledShaderUnit {
    pub stage: Stage,
}

/// The fallback diagnostic when the driver gives no compile log.
pub open spec fn spec_shader_fallback_log() -> Seq<char> {
    "Unknown error creating shader"@
}

fn shader_fallback() -> (r: String)
    ensures
        r@ == spec_shader_fallback_log(),
        r@.len() > 0,
{
    proof {
        reveal_strlit("Unknown error creating shader");
    }
    String::from_str("Unknown error creating shader")
}

/// Decides the outcome of one shader-compile request from what the driver
/// reported: whether a shader object was created, the compile-status flag,
/// and the info log. Success yields a unit tagged with the source's stage;
/// a failed compile yields the driver's diagnostic, or a fallback message
/// when the log is empty or unavailable.
pub fn compile_outcome(
    source: &ShaderSource,
    created: bool,
    compile_status: bool,
    driver_log: Option<String>,
) -> (r: Result<CompiledShaderUnit, PipelineError>)
    requires
        source.wf(),
    ensures
        !created ==> (r matches Err(e) && e is ResourceCreation),
        created && compile_status ==> (r matches Ok(u) && u.stage == source.stage),
        created && !compile_status ==> (r matches Err(e) && {
            &&& e matches PipelineError::ShaderCompile { log }
            &&& log@ == spec_diagnostic(spec_log_view(driver_log), spec_shader_fallback_log())
            &&& log@.len() > 0
        }),
{
    if !created {
        Err(PipelineError::ResourceCreation)
    } else if compile_status {
        Ok(CompiledShaderUnit { stage: source.stage })
    } else {
        let log = match driver_log {
            Option::Some(s) => {
                if s.as_str().unicode_len() > 0 {
                    s
                } else {
                    shader_fallback()
                }
            },
            Option::None => shader_fallback(),
        };
        Err(PipelineError::ShaderCompile { log })
    }
}

/// The exact vertex-stage source text the pipeline compiles.
pub open spec fn spec_vertex_shader_text() -> Seq<char> {
    "#version 300 es\nin vec2 position;\nuniform vec2 resolution;\n\nvoid main() {\n    vec2 zeroToOne = position / resolution;\n    vec2 zeroToTwo = zeroToOne * 2;\n    vec2 clipSpace = zeroToTwo - 1;\n\n    gl_Position = vec4(clipSpace, 0, 1);\n}\n"@
}

/// The exact fragment-stage source text the pipeline compiles.
pub open spec fn spec_fragment_shader_text() -> Seq<char> {
    "#version 300 es\nprecision highp float;\nout vec4 color;\n\nvoid main() {\n    color = vec4(0, 1, 1, 1);\n}\n"@
}

/// The vertex-stage source embedded in the entry point, exactly the text of
/// `spec_vertex_shader_text`. Its contract with the renderer: transform a
/// pixel-space `position` into clip space through
/// `clip = (position / resolution) * 2 - 1`, with `resolution` supplied as a
/// two-component uniform holding the viewport size in pixels.
pub fn vertex_shader_source() -> (r: ShaderSource)
    ensures
        r.stage is Vertex,
        r.text@ == spec_vertex_shader_text(),
        r.wf(),
{
    proof {
        reveal_strlit(
            "#version 300 es\nin vec2 position;\nuniform vec2 resolution;\n\nvoid main() {\n    vec2 zeroToOne = position / resolution;\n    vec2 zeroToTwo = zeroToOne * 2;\n    vec2 clipSpace = zeroToTwo - 1;\n\n    gl_Position = vec4(clipSpace, 0, 1);\n}\n",
        );
    }
    ShaderSource {
        stage: Stage::Vertex,
        text: String::from_str(
            "#version 300 es\nin vec2 position;\nuniform vec2 resolution;\n\nvoid main() {\n    vec2 zeroToOne = position / resolution;\n    vec2 zeroToTwo = zeroToOne * 2;\n    vec2 clipSpace = zeroToTwo - 1;\n\n    gl_Position = vec4(clipSpace, 0, 1);\n}\n",
        ),
    }
}

/// The fragment-stage source embedded in the entry point, exactly the text
/// of `spec_fragment_shader_text`. Its contract with the renderer: emit
/// constant opaque cyan for every covered pixel.
pub fn fragment_shader_source() -> (r: ShaderSource)
    ensures
        r.stage is Fragment,
        r.text@ == spec_fragment_shader_text(),
        r.wf(),
{
    proof {
        reveal_strlit(
            "#version 300 es\nprecision highp float;\nout vec4 color;\n\nvoid main() {\n    color = vec4(0, 1, 1, 1);\n}\n",
        );
    }
    ShaderSource {
        stage: Stage::Fragment,
        text: String::from_str(
            "#version 300 es\nprecision highp float;\nout vec4 color;\n\nvoid main() {\n    color = vec4(0, 1, 1, 1);\n}\n",
        ),
    }
}

} // verus!
