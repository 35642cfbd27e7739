use triangle_pipeline::state::{advance, PipelineEvent, PipelineState};

fn run(start: PipelineState, events: &[PipelineEvent]) -> PipelineState {
    let mut state = start;
    for event in events {
        state = advance(state, *event);
    }
    state
}

#[test]
fn full_run_ends_drawn() {
    let end = run(
        PipelineState::Uninitialized,
        &[
            PipelineEvent::CompilesFinished { ok: true },
            PipelineEvent::LinkFinished { ok: true },
            PipelineEvent::ProgramActivated,
            PipelineEvent::GeometryStored { ok: true },
            PipelineEvent::LayoutConfigured,
            PipelineEvent::ColorCleared,
            PipelineEvent::DrawIssued,
        ],
    );
    assert_eq!(end, PipelineState::Drawn);
}

#[test]
fn compile_failure_aborts_the_run() {
    // A failed compile drops straight to Failed, and no later report —
    // not even a draw — leaves it.
    let end = run(
        PipelineState::Uninitialized,
        &[
            PipelineEvent::CompilesFinished { ok: false },
            PipelineEvent::LinkFinished { ok: true },
            PipelineEvent::ProgramActivated,
            PipelineEvent::GeometryStored { ok: true },
            PipelineEvent::LayoutConfigured,
            PipelineEvent::ColorCleared,
            PipelineEvent::DrawIssued,
        ],
    );
    assert_eq!(end, PipelineState::Failed);
}

#[test]
fn link_failure_aborts_the_run() {
    let end = run(
        PipelineState::Uninitialized,
        &[
            PipelineEvent::CompilesFinished { ok: true },
            PipelineEvent::LinkFinished { ok: false },
            PipelineEvent::ProgramActivated,
        ],
    );
    assert_eq!(end, PipelineState::Failed);
}

#[test]
fn out_of_order_report_aborts_the_run() {
    let end = run(
        PipelineState::Uninitialized,
        &[PipelineEvent::DrawIssued],
    );
    assert_eq!(end, PipelineState::Failed);
}

#[test]
fn each_station_advances_one_step() {
    let mut state = PipelineState::Uninitialized;
    state = advance(state, PipelineEvent::CompilesFinished { ok: true });
    assert_eq!(state, PipelineState::ShadersCompiled);
    state = advance(state, PipelineEvent::LinkFinished { ok: true });
    assert_eq!(state, PipelineState::ProgramLinked);
    state = advance(state, PipelineEvent::ProgramActivated);
    assert_eq!(state, PipelineState::ProgramActive);
    state = advance(state, PipelineEvent::GeometryStored { ok: true });
    assert_eq!(state, PipelineState::GeometryUploaded);
    state = advance(state, PipelineEvent::LayoutConfigured);
    assert_eq!(state, PipelineState::LayoutBound);
    state = advance(state, PipelineEvent::ColorCleared);
    assert_eq!(state, PipelineState::FrameCleared);
    state = advance(state, PipelineEvent::DrawIssued);
    assert_eq!(state, PipelineState::Drawn);
}

#[test]
fn failed_absorbs_every_report() {
    for event in [
        PipelineEvent::CompilesFinished { ok: true },
        PipelineEvent::LinkFinished { ok: true },
        PipelineEvent::ProgramActivated,
        PipelineEvent::GeometryStored { ok: true },
        PipelineEvent::LayoutConfigured,
        PipelineEvent::ColorCleared,
        PipelineEvent::DrawIssued,
    ] {
        assert_eq!(advance(PipelineState::Failed, event), PipelineState::Failed);
    }
}
