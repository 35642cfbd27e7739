use vstd::prelude::*;

verus! {

/// The stations of the pipeline, in order. The run is strictly linear with
/// no cycles; `Drawn` is the one successful terminal and `Failed` absorbs
/// every failure.
#[derive(Clone, Copy, Debug, PartialEq, Eq, Structural)]
pub enum PipelineState {
    Uninitialized,
    ShadersCompiled,
    ProgramLinked,
    ProgramActive,
    GeometryUploaded,
    LayoutBound,
    FrameCleared,
    Drawn,
    Failed,
}

/// What the driver reported back for one station of the run.
#[derive(Clone, Copy, Debug, PartialEq, Eq, Structural)]
pub enum PipelineEvent {
    /// Both stages were submitted for compilation; `ok` is true only when
    /// both compiles succeeded.
    CompilesFinished { ok: bool },
    /// The program was submitted for linking.
    LinkFinished { ok: bool },
    /// The linked program was made the active one.
    ProgramActivated,
    /// The geometry was copied into a device buffer.
    GeometryStored { ok: bool },
    /// The vertex layout was bound and enabled and the resolution uniform
    /// was set.
    LayoutConfigured,
    /// The frame was cleared to the clear color.
    ColorCleared,
    /// The draw call was issued.
    DrawIssued,
}

/// An event that reports a driver failure.
pub open spec fn event_failed(e: PipelineEvent) -> bool {
    ||| e matches PipelineEvent::CompilesFinished { ok: false }
    ||| e matches PipelineEvent::LinkFinished { ok: false }
    ||| e matches PipelineEvent::GeometryStored { ok: false }
}

/// The transition relation: each station accepts exactly the report of its
/// own step and moves one station forward; a failure report, or a report
/// arriving out of order, aborts to `Failed`, and `Failed` accepts nothing
/// else.
pub open spec fn spec_advance(s: PipelineState, e: PipelineEvent) -> PipelineState {
    match (s, e) {
        (PipelineState::Uninitialized, PipelineEvent::CompilesFinished { ok }) => if ok {
            PipelineState::ShadersCompiled
        } else {
            PipelineState::Failed
        },
        (PipelineState::ShadersCompiled, PipelineEvent::LinkFinished { ok }) => if ok {
            PipelineState::ProgramLinked
        } else {
            PipelineState::Failed
        },
        (PipelineState::ProgramLinked, PipelineEvent::ProgramActivated) => PipelineState::ProgramActive,
        (PipelineState::ProgramActive, PipelineEvent::GeometryStored { ok }) => if ok {
            PipelineState::GeometryUploaded
        } else {
            PipelineState::Failed
        },
        (PipelineState::GeometryUploaded, PipelineEvent::LayoutConfigured) => PipelineState::LayoutBound,
        (PipelineState::LayoutBound, PipelineEvent::ColorCleared) => PipelineState::FrameCleared,
        (PipelineState::FrameCleared, PipelineEvent::DrawIssued) => PipelineState::Drawn,
        _ => PipelineState::Failed,
    }
}

/// Advances the pipeline by one driver report.
pub fn advance(s: PipelineState, e: PipelineEvent) -> (r: PipelineState)
    ensures
        r == spec_advance(s, e),
{
    match (s, e) {
        (PipelineState::Uninitialized, PipelineEvent::CompilesFinished { ok }) => if ok {
            PipelineState::ShadersCompiled
        } else {
            PipelineState::Failed
        },
        (PipelineState::ShadersCompiled, PipelineEvent::LinkFinished { ok }) => if ok {
            PipelineState::ProgramLinked
        } else {
            PipelineState::Failed
        },
        (PipelineState::ProgramLinked, PipelineEvent::ProgramActivated) => PipelineState::ProgramActive,
        (PipelineState::ProgramActive, PipelineEvent::GeometryStored { ok }) => if ok {
            PipelineState::GeometryUploaded
        } else {
            PipelineState::Failed
        },
        (PipelineState::GeometryUploaded, PipelineEvent::LayoutConfigured) => PipelineState::LayoutBound,
        (PipelineState::LayoutBound, PipelineEvent::ColorCleared) => PipelineState::FrameCleared,
        (PipelineState::FrameCleared, PipelineEvent::DrawIssued) => PipelineState::Drawn,
        _ => PipelineState::Failed,
    }
}

/// Runs the machine over a whole sequence of driver reports.
pub open spec fn spec_run(s: PipelineState, events: Seq<PipelineEvent>) -> PipelineState
    decreases events.len(),
{
    if events.len() == 0 {
        s
    } else {
        spec_run(spec_advance(s, events[0]), events.skip(1))
    }
}

/// Law: `Failed` is absorbing — no sequence of further reports leaves it.
pub proof fn lemma_failed_absorbing(events: Seq<PipelineEvent>)
    ensures
        spec_run(PipelineState::Failed, events) == PipelineState::Failed,
    decreases events.len(),
{
    if events.len() > 0 {
        assert(spec_advance(PipelineState::Failed, events[0]) == PipelineState::Failed);
        lemma_failed_absorbing(events.skip(1));
    }
}

/// Law: a failure report anywhere in the run aborts it — whatever station
/// the run is at, once any step fails it can never end in `Drawn`, so no
/// partial frame is ever drawn.
pub proof fn lemma_failure_aborts(s: PipelineState, events: Seq<PipelineEvent>, i: int)
    requires
        0 <= i < events.len(),
        event_failed(events[i]),
    ensures
        spec_run(s, events) != PipelineState::Drawn,
    decreases events.len(),
{
    if i == 0 {
        assert(spec_advance(s, events[0]) == PipelineState::Failed);
        lemma_failed_absorbing(events.skip(1));
    } else {
        assert(events.skip(1)[i - 1] == events[i]);
        lemma_failure_aborts(spec_advance(s, events[0]), events.skip(1), i - 1);
    }
}

} // verus!
