use vstd::prelude::*;
use crate::transform::Viewport;

verus! {

/// A normalized color; each channel is an intensity out of 255.
#[derive(Clone, Copy, Debug, PartialEq, Eq, Structural)]
pub struct Rgba {
    pub red: u8,
    pub green: u8,
    pub blue: u8,
    pub alpha: u8,
}

/// Opaque black, the color the frame is cleared to before the draw.
pub open spec fn spec_opaque_black() -> Rgba {
    Rgba { red: 0, green: 0, blue: 0, alpha: 255 }
}

pub fn opaque_black() -> (r: Rgba)
    ensures
        r == spec_opaque_black(),
{
    Rgba { red: 0, green: 0, blue: 0, alpha: 255 }
}

/// One command the renderer issues to the rendering context.
#[derive(Clone, Copy, Debug, PartialEq, Eq, Structural)]
pub enum GlCommand {
    /// Set the device viewport to the given origin and size in pixels.
    SetViewport { x: i32, y: i32, width: i32, height: i32 },
    /// Set the color the next clear writes.
    SetClearColor { color: Rgba },
    /// Clear the color buffer.
    ClearColorBuffer,
    /// Draw `count` vertices starting at `first`, three at a time as filled
    /// triangles.
    DrawTriangles { first: i32, count: i32 },
}

/// The exact command sequence of one frame, in issue order: viewport over
/// the whole surface, clear color opaque black, clear, then a single draw of
/// `vertex_count` vertices as triangles from offset 0.
pub open spec fn spec_render_commands(viewport: Viewport, vertex_count: i32) -> Seq<GlCommand> {
    seq![
        GlCommand::SetViewport {
            x: 0,
            y: 0,
            width: viewport.width as i32,
            height: viewport.height as i32,
        },
        GlCommand::SetClearColor { color: spec_opaque_black() },
        GlCommand::ClearColorBuffer,
        GlCommand::DrawTriangles { first: 0, count: vertex_count },
    ]
}

/// Plans one frame. The plan is a pure function of the viewport and the
/// vertex count, so re-planning with unchanged inputs yields the identical
/// command sequence.
pub fn render_frame(viewport: &Viewport, vertex_count: i32) -> (r: Vec<GlCommand>)
    requires
        viewport.wf(),
        vertex_count > 0,
    ensures
        r@ == spec_render_commands(*viewport, vertex_count),
{
    let mut commands: Vec<GlCommand> = Vec::new();
    commands.push(
        GlCommand::SetViewport {
            x: 0,
            y: 0,
            width: viewport.width as i32,
            height: viewport.height as i32,
        },
    );
    commands.push(GlCommand::SetClearColor { color: opaque_black() });
    commands.push(GlCommand::ClearColorBuffer);
    commands.push(GlCommand::DrawTriangles { first: 0, count: vertex_count });
    proof {
        assert(commands@ =~= spec_render_commands(*viewport, vertex_count));
    }
    commands
}

/// Law: a planned frame issues exactly one draw call — triangles, vertex
/// offset 0, the given count — and the clear to opaque black stands before
/// it in the sequence.
pub proof fn lemma_single_draw(viewport: Viewport, vertex_count: i32)
    ensures
        spec_render_commands(viewport, vertex_count).len() == 4,
        spec_render_commands(viewport, vertex_count)[3] == (GlCommand::DrawTriangles {
            first: 0,
            count: vertex_count,
        }),
        forall|i: int|
            0 <= i < 4 && i != 3 ==> !(#[trigger] spec_render_commands(viewport, vertex_count)[i]
                is DrawTriangles),
        spec_render_commands(viewport, vertex_count)[1] == (GlCommand::SetClearColor {
            color: spec_opaque_black(),
        }),
        spec_render_commands(viewport, vertex_count)[2] is ClearColorBuffer,
{
}

/// Law: frame planning is deterministic — two frames planned from unchanged
/// inputs carry identical command sequences, so issuing a frame twice issues
/// the same draw-call parameters both times.
pub proof fn lemma_render_idempotent(
    first: Seq<GlCommand>,
    second: Seq<GlCommand>,
    viewport: Viewport,
    vertex_count: i32,
)
    requires
        first == spec_render_commands(viewport, vertex_count),
        second == spec_render_commands(viewport, vertex_count),
    ensures
        first == second,
{
}

} // verus!
