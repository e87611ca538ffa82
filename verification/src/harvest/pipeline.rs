//! The pipeline coordinator: what a run does next, given how its last stage
//! ended.
//!
//! A run goes from `Idle` through `Extracting` and `Analyzing` to `Completed`
//! or `Failed`. The coordinator decides; its caller acts. [`HarvestPipeline::step`]
//! takes the state of a run and what happened, and returns the next state
//! with what to do: run a stage on a worker within the time limit, or finish
//! with a result. No stage is ever tried twice.

use vstd::prelude::*;
use vstd::string::StringExecFns;

use crate::harvest::path::{escapes_root, is_escaping, join, joined};
use crate::harvest::traits::{
    total_size,
    AnalysisError,
    ExtractionError,
    HarvestMetadata,
};
use crate::text::{decimal, push_decimal};

verus! {

/// Where a package came from.
#[derive(Debug, Clone)]
pub struct SourceInfo {
    /// The path of the package file.
    pub original_path: String,
    /// The size of the package file in bytes.
    pub size_bytes: u64,
    /// The identifier of the format that was detected.
    pub detected_format: String,
}

/// An extraction on disk: the directory that holds the unpacked package.
///
/// The value has one owner at a time and cannot be cloned: who holds it is
/// the one to release the directory. To share the path, clone `path`.
#[derive(Debug)]
pub struct TempExtraction {
    /// The directory that holds the extracted files.
    pub path: String,
    /// Where the package came from.
    pub source_info: SourceInfo,
    /// Whether the directory is removed when the extraction is released.
    pub cleanup_on_drop: bool,
}

impl TempExtraction {
    /// Whether releasing an extraction is to remove its directory, given
    /// the cleanup flag of the extraction and whether the directory exists
    /// now: the directory is removed where removal was asked for and there
    /// is something to remove.
    ///
    /// An extraction is released when its last holder lets go of it: when
    /// the analysis returns, or when a stage returns an extraction that
    /// nobody waits for any more.
    pub fn removal_due(cleanup_on_drop: bool, directory_exists: bool) -> (due: bool)
        ensures
            due == (cleanup_on_drop && directory_exists),
    {
        cleanup_on_drop && directory_exists
    }

    /// The path `relative` inside the extraction.
    ///
    /// The check is on the text of `relative` alone, so it holds for files
    /// that are not there yet: a path with a root or with a `..` component is
    /// refused, and every other path is adjoined to the directory of the
    /// extraction.
    pub fn safe_child(&self, relative: &str) -> (child: Result<String, PipelineError>)
        ensures
            escapes_root(relative@) ==> child is Err && child->Err_0@
                == (PipelineFailure::PathTraversal { attempted: relative@ }),
            !escapes_root(relative@) ==> child is Ok && child->Ok_0@ == joined(
                self.path@,
                relative@,
            ),
    {
        if is_escaping(relative) {
            return Err(PipelineError::PathTraversal { attempted: String::from_str(relative) });
        }
        Ok(join(self.path.as_str(), relative))
    }
}

/// Why a run of the pipeline failed.
#[derive(Debug, Clone)]
pub enum PipelineError {
    /// A stage did not end within the time limit.
    StageTimeout { stage: String, timeout_secs: u64 },
    /// The extraction failed.
    ExtractionFailed(String),
    /// The analysis failed.
    AnalysisFailed(String),
    /// A path in the package points outside the extraction.
    PathTraversal { attempted: String },
    /// Reading or writing failed; the field is the text of the I/O error.
    Io(String),
}

/// A failure of the pipeline, with its texts as sequences of characters.
pub enum PipelineFailure {
    StageTimeout { stage: Seq<char>, timeout_secs: u64 },
    ExtractionFailed(Seq<char>),
    AnalysisFailed(Seq<char>),
    PathTraversal { attempted: Seq<char> },
    Io(Seq<char>),
}

impl View for PipelineError {
    type V = PipelineFailure;

    open spec fn view(&self) -> PipelineFailure {
        match *self {
            PipelineError::StageTimeout { stage, timeout_secs } => PipelineFailure::StageTimeout {
                stage: stage@,
                timeout_secs,
            },
            PipelineError::ExtractionFailed(detail) => PipelineFailure::ExtractionFailed(detail@),
            PipelineError::AnalysisFailed(detail) => PipelineFailure::AnalysisFailed(detail@),
            PipelineError::PathTraversal { attempted } => PipelineFailure::PathTraversal {
                attempted: attempted@,
            },
            PipelineError::Io(detail) => PipelineFailure::Io(detail@),
        }
    }
}

impl PipelineFailure {
    /// The message of the failure.
    pub open spec fn message_text(self) -> Seq<char> {
        match self {
            PipelineFailure::StageTimeout { stage, timeout_secs } => "Stage '"@ + stage
                + "' timed out after "@ + decimal(timeout_secs as nat) + "s"@,
            PipelineFailure::ExtractionFailed(detail) => "Extraction failed: "@ + detail,
            PipelineFailure::AnalysisFailed(detail) => "Analysis failed: "@ + detail,
            PipelineFailure::PathTraversal { attempted } => "Path traversal attempt rejected: '"@
                + attempted + "'"@,
            PipelineFailure::Io(detail) => "I/O error: "@ + detail,
        }
    }
}

impl PipelineError {
    /// The message of the error.
    pub fn message(&self) -> (text: String)
        ensures
            text@ == self@.message_text(),
    {
        match self {
            PipelineError::StageTimeout { stage, timeout_secs } => {
                let mut text = String::from_str("Stage '");
                text.append(stage.as_str());
                text.append("' timed out after ");
                push_decimal(&mut text, *timeout_secs);
                text.append("s");
                text
            },
            PipelineError::ExtractionFailed(detail) => String::from_str(
                "Extraction failed: ",
            ).concat(detail.as_str()),
            PipelineError::AnalysisFailed(detail) => String::from_str("Analysis failed: ").concat(
                detail.as_str(),
            ),
            PipelineError::PathTraversal { attempted } => {
                let mut text = String::from_str("Path traversal attempt rejected: '");
                text.append(attempted.as_str());
                text.append("'");
                text
            },
            PipelineError::Io(detail) => String::from_str("I/O error: ").concat(detail.as_str()),
        }
    }
}

/// The result of a run that succeeded.
#[derive(Debug)]
pub struct HarvestResult {
    /// What the analysis found.
    pub metadata: HarvestMetadata,
    /// The directory of the extraction, where the run leaves it on disk.
    /// It is absent where the pipeline cleans up after itself: the
    /// directory is then gone by the time the result is seen.
    pub extraction_path: Option<String>,
    /// How long the run took and how much it read.
    pub stats: HarvestStats,
}

impl HarvestResult {
    /// The statistics count the files of the metadata and sum their sizes.
    pub open spec fn stats_match_files(&self) -> bool {
        &&& self.stats.files_processed == self.metadata.files@.len()
        &&& self.stats.total_size_bytes == total_size(self.metadata.files@)
    }
}

/// How long a run took and how much it read.
#[derive(Debug, Clone, Copy)]
pub struct HarvestStats {
    /// The time of the whole run, in milliseconds.
    pub total_duration_ms: u64,
    /// The time of the extraction, in milliseconds.
    pub extraction_duration_ms: u64,
    /// The time of the analysis, in milliseconds.
    pub analysis_duration_ms: u64,
    /// The number of files that the analysis found.
    pub files_processed: usize,
    /// The sum of the sizes of those files, in bytes.
    pub total_size_bytes: u64,
}

impl Default for HarvestStats {
    /// Statistics of a run that has done nothing yet.
    fn default() -> (stats: Self)
        ensures
            stats.total_duration_ms == 0,
            stats.extraction_duration_ms == 0,
            stats.analysis_duration_ms == 0,
            stats.files_processed == 0,
            stats.total_size_bytes == 0,
    {
        HarvestStats {
            total_duration_ms: 0,
            extraction_duration_ms: 0,
            analysis_duration_ms: 0,
            files_processed: 0,
            total_size_bytes: 0,
        }
    }
}

/// How long a stage may take: whole seconds and the nanoseconds beyond
/// them, which are fewer than a second.
#[derive(Debug, Clone, Copy, PartialEq, Eq, Structural)]
pub struct TimeLimit {
    secs: u64,
    subsec_nanos: u32,
}

impl TimeLimit {
    #[verifier::type_invariant]
    spec fn within_second(self) -> bool {
        self.subsec_nanos < 1_000_000_000
    }

    /// The whole seconds of the limit.
    pub closed spec fn whole_secs(self) -> u64 {
        self.secs
    }

    /// The nanoseconds of the limit beyond its whole seconds.
    pub closed spec fn nanos(self) -> u32 {
        self.subsec_nanos
    }

    /// A limit of `secs` seconds.
    pub fn from_secs(secs: u64) -> (limit: Self)
        ensures
            limit.whole_secs() == secs,
            limit.nanos() == 0,
    {
        TimeLimit { secs, subsec_nanos: 0 }
    }

    /// A limit of `secs` seconds and `subsec_nanos` nanoseconds, where the
    /// nanoseconds are fewer than a second.
    pub fn new(secs: u64, subsec_nanos: u32) -> (limit: Option<Self>)
        ensures
            subsec_nanos < 1_000_000_000 ==> limit is Some && limit->Some_0.whole_secs() == secs
                && limit->Some_0.nanos() == subsec_nanos,
            subsec_nanos >= 1_000_000_000 ==> limit is None,
    {
        if subsec_nanos < 1_000_000_000 {
            Some(TimeLimit { secs, subsec_nanos })
        } else {
            None
        }
    }

    /// The whole seconds of the limit.
    pub fn as_secs(&self) -> (secs: u64)
        ensures
            secs == self.whole_secs(),
    {
        self.secs
    }

    /// The nanoseconds of the limit beyond its whole seconds.
    pub fn subsec_nanos(&self) -> (nanos: u32)
        ensures
            nanos == self.nanos(),
            nanos < 1_000_000_000,
    {
        proof {
            use_type_invariant(self);
        }
        self.subsec_nanos
    }
}

/// The extraction stage: it unpacks a package into a directory.
pub trait Extractor: Send + Sync {
    /// Unpacks the package at `input` into a fresh directory. The second
    /// argument says whether the directory is to be removed when the
    /// extraction is released.
    fn execute(&self, input: String, cleanup_on_drop: bool) -> Result<
        TempExtraction,
        ExtractionError,
    >;

    /// A name for the stage, for messages.
    fn stage_name(&self) -> &'static str;
}

/// The analysis stage: it reads an extraction into metadata.
///
/// The stage takes the extraction for its own: when it returns, whether
/// with metadata or with an error, the extraction is released.
pub trait Analyzer: Send + Sync {
    /// Reads the extraction into metadata.
    fn execute(&self, input: TempExtraction) -> Result<HarvestMetadata, AnalysisError>;

    /// A name for the stage, for messages.
    fn stage_name(&self) -> &'static str;
}

/// How a stage ended.
#[derive(Debug)]
pub enum StageOutcome<T, E> {
    /// The time limit passed before the stage ended.
    TimedOut,
    /// The worker that ran the stage broke down; the field says how.
    WorkerFault(String),
    /// The stage reported an error.
    StageError(E),
    /// The stage succeeded.
    Completed(T),
}

/// Where a run stands.
#[derive(Debug)]
pub enum RunState {
    /// Nothing has been asked for yet.
    Idle,
    /// The extraction is under way.
    Extracting,
    /// The extraction is done and the analysis is under way.
    Analyzing {
        /// The directory of the extraction, where the run will leave it on
        /// disk.
        extraction_path: Option<String>,
        /// The time that the extraction took, in milliseconds.
        extraction_duration_ms: u64,
    },
    /// The run has ended with a result.
    Completed,
    /// The run has ended with an error.
    Failed,
}

/// What happened to a run.
#[derive(Debug)]
#[allow(inconsistent_fields)]
pub enum RunEvent {
    /// The run was asked to harvest the package at `source`.
    Start { source: String },
    /// The extraction ended after `elapsed_ms` milliseconds.
    ExtractionEnded { outcome: StageOutcome<TempExtraction, ExtractionError>, elapsed_ms: u64 },
    /// The analysis ended after `elapsed_ms` milliseconds, `total_elapsed_ms`
    /// milliseconds after the run started.
    AnalysisEnded {
        outcome: StageOutcome<HarvestMetadata, AnalysisError>,
        elapsed_ms: u64,
        total_elapsed_ms: u64,
    },
}

/// What a run is to do next.
#[derive(Debug)]
pub enum RunAction {
    /// Run the extraction stage on `source` with this cleanup flag, on a
    /// worker, and wait for it no longer than `timeout`.
    Extract { source: String, cleanup_on_release: bool, timeout: TimeLimit },
    /// Run the analysis stage on `extraction`, which it takes for its own,
    /// on a worker, and wait for it no longer than `timeout`.
    Analyze { extraction: TempExtraction, timeout: TimeLimit },
    /// Return this result.
    Finish(Result<HarvestResult, PipelineError>),
}

/// The coordinator of the pipeline: an extraction stage, an analysis stage,
/// and how to run them.
pub struct HarvestPipeline<E: Extractor, A: Analyzer> {
    extractor: E,
    analyzer: A,
    stage_timeout: TimeLimit,
    auto_cleanup: bool,
}

impl<E: Extractor, A: Analyzer> HarvestPipeline<E, A> {
    /// The extraction stage.
    pub closed spec fn extraction_stage(&self) -> E {
        self.extractor
    }

    /// The analysis stage.
    pub closed spec fn analysis_stage(&self) -> A {
        self.analyzer
    }

    /// How long each stage may take.
    pub closed spec fn time_limit(&self) -> TimeLimit {
        self.stage_timeout
    }

    /// Whether extractions are removed from disk when they are released.
    pub closed spec fn cleans_up(&self) -> bool {
        self.auto_cleanup
    }

    /// A pipeline of the two stages that gives each stage five minutes and
    /// cleans up after itself.
    pub fn new(extractor: E, analyzer: A) -> (pipeline: Self)
        ensures
            pipeline.extraction_stage() == extractor,
            pipeline.analysis_stage() == analyzer,
            pipeline.time_limit().whole_secs() == 300,
            pipeline.time_limit().nanos() == 0,
            pipeline.cleans_up(),
    {
        HarvestPipeline {
            extractor,
            analyzer,
            stage_timeout: TimeLimit::from_secs(300),
            auto_cleanup: true,
        }
    }

    /// The pipeline with `timeout` as the time limit of each stage.
    pub fn with_timeout(self, timeout: TimeLimit) -> (pipeline: Self)
        ensures
            pipeline.time_limit() == timeout,
            pipeline.extraction_stage() == self.extraction_stage(),
            pipeline.analysis_stage() == self.analysis_stage(),
            pipeline.cleans_up() == self.cleans_up(),
    {
        let mut pipeline = self;
        pipeline.stage_timeout = timeout;
        pipeline
    }

    /// The pipeline that removes extractions from disk if `cleanup` says so.
    pub fn with_cleanup(self, cleanup: bool) -> (pipeline: Self)
        ensures
            pipeline.cleans_up() == cleanup,
            pipeline.extraction_stage() == self.extraction_stage(),
            pipeline.analysis_stage() == self.analysis_stage(),
            pipeline.time_limit() == self.time_limit(),
    {
        let mut pipeline = self;
        pipeline.auto_cleanup = cleanup;
        pipeline
    }

    /// The extraction stage.
    pub fn extractor(&self) -> (stage: &E)
        ensures
            *stage == self.extraction_stage(),
    {
        &self.extractor
    }

    /// The analysis stage.
    pub fn analyzer(&self) -> (stage: &A)
        ensures
            *stage == self.analysis_stage(),
    {
        &self.analyzer
    }

    /// How long each stage may take.
    pub fn stage_timeout(&self) -> (limit: TimeLimit)
        ensures
            limit == self.time_limit(),
    {
        self.stage_timeout
    }

    /// Whether extractions are removed from disk when they are released.
    pub fn auto_cleanup(&self) -> (cleanup: bool)
        ensures
            cleanup == self.cleans_up(),
    {
        self.auto_cleanup
    }
}

impl RunState {
    /// Whether a run in this state can take `event`: a run that has not
    /// begun can start, and a run that waits for a stage can take the end
    /// of that stage. The sizes of the files that an analysis found must sum
    /// to a number of 64 bits.
    pub open spec fn accepts(self, event: RunEvent) -> bool {
        match (self, event) {
            (RunState::Idle, RunEvent::Start { .. }) => true,
            (RunState::Extracting, RunEvent::ExtractionEnded { .. }) => true,
            (RunState::Analyzing { .. }, RunEvent::AnalysisEnded { outcome, .. }) => {
                outcome matches StageOutcome::Completed(metadata) ==> total_size(metadata.files@)
                    <= u64::MAX
            },
            _ => false,
        }
    }

    /// Whether a run in this state can take `event`.
    pub fn can_take(&self, event: &RunEvent) -> (accepted: bool)
        ensures
            accepted == self.accepts(*event),
    {
        match self {
            RunState::Idle => match event {
                RunEvent::Start { .. } => true,
                _ => false,
            },
            RunState::Extracting => match event {
                RunEvent::ExtractionEnded { .. } => true,
                _ => false,
            },
            RunState::Analyzing { .. } => match event {
                RunEvent::AnalysisEnded { outcome, .. } => match outcome {
                    StageOutcome::Completed(metadata) => metadata.total_size_bytes().is_some(),
                    _ => true,
                },
                _ => false,
            },
            _ => false,
        }
    }

    /// The run has ended.
    pub open spec fn is_final(self) -> bool {
        self is Completed || self is Failed
    }
}

impl<E: Extractor, A: Analyzer> HarvestPipeline<E, A> {
    /// The error of the stage `stage` that did not end within the time
    /// limit: it names the stage and gives the whole seconds of the limit.
    pub open spec fn timeout_of(&self, stage: Seq<char>) -> PipelineFailure {
        PipelineFailure::StageTimeout { stage, timeout_secs: self.time_limit().whole_secs() }
    }

    /// The error of a run whose extraction ended with `outcome`, which is
    /// not a success.
    pub open spec fn extraction_failure(
        &self,
        outcome: StageOutcome<TempExtraction, ExtractionError>,
    ) -> PipelineFailure
        recommends
            !(outcome is Completed),
    {
        match outcome {
            StageOutcome::WorkerFault(detail) => PipelineFailure::ExtractionFailed(
                "Task join error: "@ + detail@,
            ),
            StageOutcome::StageError(error) => PipelineFailure::ExtractionFailed(
                error.message_text(),
            ),
            _ => self.timeout_of("extraction"@),
        }
    }

    /// The error of a run whose analysis ended with `outcome`, which is not
    /// a success.
    pub open spec fn analysis_failure(
        &self,
        outcome: StageOutcome<HarvestMetadata, AnalysisError>,
    ) -> PipelineFailure
        recommends
            !(outcome is Completed),
    {
        match outcome {
            StageOutcome::WorkerFault(detail) => PipelineFailure::AnalysisFailed(
                "Task join error: "@ + detail@,
            ),
            StageOutcome::StageError(error) => PipelineFailure::AnalysisFailed(
                error.message_text(),
            ),
            _ => self.timeout_of("analysis"@),
        }
    }

    /// The extraction as the analysis gets it: the one that the extraction
    /// stage made, with the cleanup flag of the pipeline in place of its own.
    pub open spec fn adopted(&self, extraction: TempExtraction) -> TempExtraction {
        TempExtraction {
            path: extraction.path,
            source_info: extraction.source_info,
            cleanup_on_drop: self.cleans_up(),
        }
    }

    /// The directory that the result of a run names: that of the
    /// extraction where the pipeline leaves it on disk, none where the
    /// pipeline cleans up.
    pub open spec fn reported_path(&self, extraction: TempExtraction) -> Option<String> {
        if self.cleans_up() {
            None
        } else {
            Some(extraction.path)
        }
    }

    /// The step of a run: in `state`, on `event`, the run goes to `next` and
    /// is to do `action`.
    pub open spec fn steps_to(
        &self,
        state: RunState,
        event: RunEvent,
        next: RunState,
        action: RunAction,
    ) -> bool {
        match (state, event) {
            (RunState::Idle, RunEvent::Start { source }) => {
                &&& next == RunState::Extracting
                &&& action == RunAction::Extract {
                    source,
                    cleanup_on_release: self.cleans_up(),
                    timeout: self.time_limit(),
                }
            },
            (RunState::Extracting, RunEvent::ExtractionEnded { outcome, elapsed_ms }) => {
                match outcome {
                    StageOutcome::Completed(extraction) => {
                        &&& next == RunState::Analyzing {
                            extraction_path: self.reported_path(extraction),
                            extraction_duration_ms: elapsed_ms,
                        }
                        &&& action == RunAction::Analyze {
                            extraction: self.adopted(extraction),
                            timeout: self.time_limit(),
                        }
                    },
                    _ => {
                        &&& next == RunState::Failed
                        &&& action matches RunAction::Finish(Err(error))
                        &&& error@ == self.extraction_failure(outcome)
                    },
                }
            },
            (
                RunState::Analyzing { extraction_path, extraction_duration_ms },
                RunEvent::AnalysisEnded { outcome, elapsed_ms, total_elapsed_ms },
            ) => {
                match outcome {
                    StageOutcome::Completed(metadata) => {
                        &&& next == RunState::Completed
                        &&& action == RunAction::Finish(
                            Ok(
                                HarvestResult {
                                    metadata,
                                    extraction_path,
                                    stats: HarvestStats {
                                        total_duration_ms: total_elapsed_ms,
                                        extraction_duration_ms,
                                        analysis_duration_ms: elapsed_ms,
                                        files_processed: metadata.files.len(),
                                        total_size_bytes: total_size(metadata.files@) as u64,
                                    },
                                },
                            ),
                        )
                    },
                    _ => {
                        &&& next == RunState::Failed
                        &&& action matches RunAction::Finish(Err(error))
                        &&& error@ == self.analysis_failure(outcome)
                    },
                }
            },
            _ => false,
        }
    }

    /// The error of a stage that did not end within the time limit.
    fn stage_timeout_error(&self, stage: &str) -> (error: PipelineError)
        ensures
            error@ == self.timeout_of(stage@),
    {
        PipelineError::StageTimeout {
            stage: String::from_str(stage),
            timeout_secs: self.stage_timeout.as_secs(),
        }
    }

    /// What a run does when its extraction has ended.
    fn extraction_ended(
        &self,
        outcome: StageOutcome<TempExtraction, ExtractionError>,
        elapsed_ms: u64,
    ) -> (next: (RunState, RunAction))
        ensures
            self.steps_to(
                RunState::Extracting,
                RunEvent::ExtractionEnded { outcome, elapsed_ms },
                next.0,
                next.1,
            ),
    {
        match outcome {
            StageOutcome::Completed(extraction) => {
                let extraction_path = if self.auto_cleanup {
                    None
                } else {
                    Some(extraction.path.clone())
                };
                let mut extraction = extraction;
                extraction.cleanup_on_drop = self.auto_cleanup;
                (
                    RunState::Analyzing { extraction_path, extraction_duration_ms: elapsed_ms },
                    RunAction::Analyze { extraction, timeout: self.stage_timeout },
                )
            },
            StageOutcome::TimedOut => {
                let error = self.stage_timeout_error("extraction");
                (RunState::Failed, RunAction::Finish(Err(error)))
            },
            StageOutcome::WorkerFault(detail) => {
                let text = String::from_str("Task join error: ").concat(detail.as_str());
                (RunState::Failed, RunAction::Finish(Err(PipelineError::ExtractionFailed(text))))
            },
            StageOutcome::StageError(error) => {
                let text = error.message();
                (RunState::Failed, RunAction::Finish(Err(PipelineError::ExtractionFailed(text))))
            },
        }
    }

    /// What a run does when its analysis has ended.
    fn analysis_ended(
        &self,
        extraction_path: Option<String>,
        extraction_duration_ms: u64,
        outcome: StageOutcome<HarvestMetadata, AnalysisError>,
        elapsed_ms: u64,
        total_elapsed_ms: u64,
    ) -> (next: (RunState, RunAction))
        requires
            outcome matches StageOutcome::Completed(metadata) ==> total_size(metadata.files@)
                <= u64::MAX,
        ensures
            self.steps_to(
                RunState::Analyzing { extraction_path, extraction_duration_ms },
                RunEvent::AnalysisEnded { outcome, elapsed_ms, total_elapsed_ms },
                next.0,
                next.1,
            ),
    {
        match outcome {
            StageOutcome::Completed(metadata) => {
                let files_processed: usize = metadata.files.len();
                let total_size_bytes: u64 = match metadata.total_size_bytes() {
                    Some(total) => total,
                    None => 0,
                };
                let stats = HarvestStats {
                    total_duration_ms: total_elapsed_ms,
                    extraction_duration_ms,
                    analysis_duration_ms: elapsed_ms,
                    files_processed,
                    total_size_bytes,
                };
                (
                    RunState::Completed,
                    RunAction::Finish(Ok(HarvestResult { metadata, extraction_path, stats })),
                )
            },
            StageOutcome::TimedOut => {
                let error = self.stage_timeout_error("analysis");
                (RunState::Failed, RunAction::Finish(Err(error)))
            },
            StageOutcome::WorkerFault(detail) => {
                let text = String::from_str("Task join error: ").concat(detail.as_str());
                (RunState::Failed, RunAction::Finish(Err(PipelineError::AnalysisFailed(text))))
            },
            StageOutcome::StageError(error) => {
                let text = error.message();
                (RunState::Failed, RunAction::Finish(Err(PipelineError::AnalysisFailed(text))))
            },
        }
    }

    /// The next step of a run: where the run goes from `state` on `event`,
    /// and what it is to do.
    ///
    /// A run starts by asking for the extraction. When the extraction has
    /// succeeded, the run takes the extraction, puts the cleanup flag of the
    /// pipeline in it, notes the directory for the result where the
    /// directory will stay, and asks for the analysis. When the analysis has
    /// succeeded, the run finishes with the metadata, the directory and the
    /// statistics. A stage that timed out, broke down or failed finishes the
    /// run with the error of that stage; nothing is tried again.
    pub fn step(&self, state: RunState, event: RunEvent) -> (next: (RunState, RunAction))
        requires
            state.accepts(event),
        ensures
            self.steps_to(state, event, next.0, next.1),
            next.1 matches RunAction::Finish(Ok(result)) ==> result.stats_match_files(),
    {
        match state {
            RunState::Idle => match event {
                RunEvent::Start { source } => (
                    RunState::Extracting,
                    RunAction::Extract {
                        source,
                        cleanup_on_release: self.auto_cleanup,
                        timeout: self.stage_timeout,
                    },
                ),
                _ => vstd::pervasive::unreached(),
            },
            RunState::Extracting => match event {
                RunEvent::ExtractionEnded { outcome, elapsed_ms } => self.extraction_ended(
                    outcome,
                    elapsed_ms,
                ),
                _ => vstd::pervasive::unreached(),
            },
            RunState::Analyzing { extraction_path, extraction_duration_ms } => match event {
                RunEvent::AnalysisEnded {
                    outcome,
                    elapsed_ms,
                    total_elapsed_ms,
                } => self.analysis_ended(
                    extraction_path,
                    extraction_duration_ms,
                    outcome,
                    elapsed_ms,
                    total_elapsed_ms,
                ),
                _ => vstd::pervasive::unreached(),
            },
            _ => vstd::pervasive::unreached(),
        }
    }
}

} // verus!
