//! Whole runs of the pipeline, and what holds of every run.

use vstd::prelude::*;

use crate::harvest::pipeline::{
    Analyzer,
    Extractor,
    HarvestPipeline,
    RunAction,
    RunEvent,
    RunState,
    StageOutcome,
};

verus! {

/// A run of the pipeline from its beginning: the states that the run went
/// through, the event that it took in each state but the last, and the
/// action that each step gave.
pub open spec fn is_run<E: Extractor, A: Analyzer>(
    pipeline: HarvestPipeline<E, A>,
    states: Seq<RunState>,
    events: Seq<RunEvent>,
    actions: Seq<RunAction>,
) -> bool {
    &&& states.len() == events.len() + 1
    &&& actions.len() == events.len()
    &&& states[0] is Idle
    &&& forall|i: int|
        0 <= i < events.len() ==> {
            &&& states[i].accepts(#[trigger] events[i])
            &&& pipeline.steps_to(states[i], events[i], states[i + 1], actions[i])
        }
}

/// No stage is tried twice. A run has at most three steps: the first asks
/// for the extraction and no other step does; the second, where the
/// extraction has succeeded, asks for the analysis and no other step does;
/// every other step finishes the run, and nothing follows it.
pub proof fn lemma_one_attempt_per_stage<E: Extractor, A: Analyzer>(
    pipeline: HarvestPipeline<E, A>,
    states: Seq<RunState>,
    events: Seq<RunEvent>,
    actions: Seq<RunAction>,
)
    requires
        is_run(pipeline, states, events, actions),
    ensures
        events.len() <= 3,
        forall|i: int| 0 <= i < actions.len() ==> (actions[i] is Extract <==> i == 0),
        forall|i: int| 0 <= i < actions.len() && actions[i] is Analyze ==> i == 1,
        forall|i: int| 0 <= i < actions.len() && actions[i] is Finish ==> i + 1 == actions.len(),
        forall|i: int|
            0 <= i < actions.len() ==> (actions[i] is Finish <==> states[i + 1].is_final()),
{
    // The steps of the run in turn: the state after each leaves one event
    // to take, and the state after the third leaves none.
    if events.len() > 0 {
        assert(states[0].accepts(events[0]));
    }
    if events.len() > 1 {
        assert(states[1].accepts(events[1]));
    }
    if events.len() > 2 {
        assert(states[2].accepts(events[2]));
    }
    if events.len() > 3 {
        assert(states[3].accepts(events[3]));
    }
}

/// What a successful run returns. The run had three steps; the result
/// holds the metadata that the analysis returned, statistics that count the
/// files of that metadata and sum their sizes, and the times that the run
/// was told. It names the directory of the extraction exactly where the
/// pipeline does not clean up, and the directory is then the one that the
/// extraction stage returned.
pub proof fn lemma_result_of_run<E: Extractor, A: Analyzer>(
    pipeline: HarvestPipeline<E, A>,
    states: Seq<RunState>,
    events: Seq<RunEvent>,
    actions: Seq<RunAction>,
    i: int,
)
    requires
        is_run(pipeline, states, events, actions),
        0 <= i < actions.len(),
        actions[i] matches RunAction::Finish(Ok(_)),
    ensures
        i == 2,
        events[1] matches RunEvent::ExtractionEnded {
            outcome: StageOutcome::Completed(extraction),
            elapsed_ms: extraction_ms,
        } && events[2] matches RunEvent::AnalysisEnded {
            outcome: StageOutcome::Completed(metadata),
            elapsed_ms: analysis_ms,
            total_elapsed_ms,
        } && actions[2] matches RunAction::Finish(Ok(result)) && {
            &&& result.metadata == metadata
            &&& result.stats_match_files()
            &&& result.stats.extraction_duration_ms == extraction_ms
            &&& result.stats.analysis_duration_ms == analysis_ms
            &&& result.stats.total_duration_ms == total_elapsed_ms
            &&& result.extraction_path is None <==> pipeline.cleans_up()
            &&& !pipeline.cleans_up() ==> result.extraction_path == Some(extraction.path)
        },
{
    lemma_one_attempt_per_stage(pipeline, states, events, actions);
    assert(states[0].accepts(events[0]));
}

/// A stage that does not end in time ends the run with the error of a
/// timeout, which names that stage, `extraction` or `analysis`, and gives
/// the whole seconds of the time limit of the pipeline.
pub proof fn lemma_timeout_is_reported<E: Extractor, A: Analyzer>(
    pipeline: HarvestPipeline<E, A>,
    state: RunState,
    event: RunEvent,
    next: RunState,
    action: RunAction,
)
    requires
        state.accepts(event),
        pipeline.steps_to(state, event, next, action),
        event matches RunEvent::ExtractionEnded { outcome: StageOutcome::TimedOut, .. }
            || event matches RunEvent::AnalysisEnded { outcome: StageOutcome::TimedOut, .. },
    ensures
        next is Failed,
        action matches RunAction::Finish(Err(error)) && error@ == pipeline.timeout_of(
            if state is Extracting {
                "extraction"@
            } else {
                "analysis"@
            },
        ),
{
}

} // verus!
