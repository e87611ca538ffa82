use std::sync::atomic::{AtomicUsize, Ordering};

use package_harvester::harvest::pipeline::{
    Analyzer, Extractor, HarvestPipeline, HarvestResult, HarvestStats, PipelineError, RunAction,
    RunEvent, RunState, SourceInfo, StageOutcome, TempExtraction, TimeLimit,
};
use package_harvester::harvest::traits::{
    AnalysisError, ExtractionError, FileDescriptor, HarvestMetadata,
};
use package_harvester::harvest::ExtraFields;

const EXTRACTION_MS: u64 = 7;
const ANALYSIS_MS: u64 = 5;
const TOTAL_MS: u64 = 12;

fn source_info(input: String) -> SourceInfo {
    SourceInfo { original_path: input, size_bytes: 1024, detected_format: "test".to_string() }
}

fn metadata_with(sizes: &[u64]) -> HarvestMetadata {
    HarvestMetadata {
        source_format: "test".to_string(),
        package_name: "test-package".to_string(),
        version: "1.0.0".to_string(),
        dependencies: vec![],
        files: sizes
            .iter()
            .map(|size| FileDescriptor {
                path: "test.txt".into(),
                hash: None,
                size: *size,
                permissions: 0o644,
                symlink_target: None,
            })
            .collect(),
        capabilities: vec![],
        harvest_timestamp: 1234567890,
        harvester_version: "0.1.0".to_string(),
        extra: ExtraFields::new(),
    }
}

/// An extractor that unpacks nothing and counts how often it is asked.
struct MockExtractor {
    calls: AtomicUsize,
}

impl MockExtractor {
    fn new() -> Self {
        MockExtractor { calls: AtomicUsize::new(0) }
    }
}

impl Extractor for MockExtractor {
    fn execute(
        &self,
        input: String,
        cleanup_on_drop: bool,
    ) -> Result<TempExtraction, ExtractionError> {
        self.calls.fetch_add(1, Ordering::SeqCst);
        Ok(TempExtraction {
            path: "/tmp/test_extract_1".to_string(),
            source_info: source_info(input),
            cleanup_on_drop,
        })
    }

    fn stage_name(&self) -> &'static str {
        "mock_extractor"
    }
}

/// An analyzer that finds one file of 12 bytes and counts how often it is
/// asked.
struct MockAnalyzer {
    calls: AtomicUsize,
}

impl MockAnalyzer {
    fn new() -> Self {
        MockAnalyzer { calls: AtomicUsize::new(0) }
    }
}

impl Analyzer for MockAnalyzer {
    fn execute(&self, _input: TempExtraction) -> Result<HarvestMetadata, AnalysisError> {
        self.calls.fetch_add(1, Ordering::SeqCst);
        Ok(metadata_with(&[12]))
    }

    fn stage_name(&self) -> &'static str {
        "mock_analyzer"
    }
}

struct FailingExtractor;

impl Extractor for FailingExtractor {
    fn execute(
        &self,
        _input: String,
        _cleanup_on_drop: bool,
    ) -> Result<TempExtraction, ExtractionError> {
        Err(ExtractionError::UnsupportedFormat("zip".to_string()))
    }

    fn stage_name(&self) -> &'static str {
        "failing_extractor"
    }
}

struct FailingAnalyzer;

impl Analyzer for FailingAnalyzer {
    fn execute(&self, _input: TempExtraction) -> Result<HarvestMetadata, AnalysisError> {
        Err(AnalysisError::MissingMetadata("app.desktop".to_string()))
    }

    fn stage_name(&self) -> &'static str {
        "failing_analyzer"
    }
}

/// Runs the pipeline on the calling thread: every stage ends in time.
fn run<E: Extractor, A: Analyzer>(
    pipeline: &HarvestPipeline<E, A>,
    source: &str,
) -> Result<HarvestResult, PipelineError> {
    let mut state = RunState::Idle;
    let mut event = RunEvent::Start { source: source.to_string() };
    loop {
        assert!(state.can_take(&event));
        let (next, action) = pipeline.step(state, event);
        state = next;
        event = match action {
            RunAction::Extract { source, cleanup_on_release, timeout } => {
                assert_eq!(timeout, pipeline.stage_timeout());
                let outcome = match pipeline.extractor().execute(source, cleanup_on_release) {
                    Ok(extraction) => StageOutcome::Completed(extraction),
                    Err(error) => StageOutcome::StageError(error),
                };
                RunEvent::ExtractionEnded { outcome, elapsed_ms: EXTRACTION_MS }
            }
            RunAction::Analyze { extraction, timeout } => {
                assert_eq!(timeout, pipeline.stage_timeout());
                let outcome = match pipeline.analyzer().execute(extraction) {
                    Ok(metadata) => StageOutcome::Completed(metadata),
                    Err(error) => StageOutcome::StageError(error),
                };
                RunEvent::AnalysisEnded {
                    outcome,
                    elapsed_ms: ANALYSIS_MS,
                    total_elapsed_ms: TOTAL_MS,
                }
            }
            RunAction::Finish(result) => {
                assert!(matches!(state, RunState::Completed | RunState::Failed));
                return result;
            }
        };
    }
}

fn extraction(path: &str, cleanup_on_drop: bool) -> TempExtraction {
    TempExtraction {
        path: path.to_string(),
        source_info: source_info("/pkg.appimage".to_string()),
        cleanup_on_drop,
    }
}

fn analyzing(extraction_path: Option<&str>) -> RunState {
    RunState::Analyzing {
        extraction_path: extraction_path.map(|path| path.to_string()),
        extraction_duration_ms: EXTRACTION_MS,
    }
}

#[test]
fn test_pipeline_execution() {
    let pipeline = HarvestPipeline::new(MockExtractor::new(), MockAnalyzer::new());

    let result = run(&pipeline, "/tmp/test.appimage");

    assert!(result.is_ok());
    let harvest = result.unwrap();
    assert_eq!(harvest.metadata.package_name, "test-package");
    assert_eq!(harvest.metadata.version, "1.0.0");
    assert_eq!(harvest.stats.files_processed, 1);
    // auto_cleanup=true → extraction_path is None
    assert!(harvest.extraction_path.is_none());
}

#[test]
fn test_pipeline_with_custom_timeout() {
    let pipeline = HarvestPipeline::new(MockExtractor::new(), MockAnalyzer::new())
        .with_timeout(TimeLimit::from_secs(10));

    let result = run(&pipeline, "/tmp/test2.appimage");

    assert!(result.is_ok());
}

#[test]
fn test_pipeline_stats() {
    let pipeline = HarvestPipeline::new(MockExtractor::new(), MockAnalyzer::new());

    let result = run(&pipeline, "/tmp/test_stats.appimage").unwrap();

    assert!(result.stats.total_duration_ms > 0);
    assert!(result.stats.extraction_duration_ms > 0);
    assert!(result.stats.analysis_duration_ms > 0);
    assert_eq!(result.stats.files_processed, 1);
    assert_eq!(result.stats.total_size_bytes, 12);
}

#[test]
fn run_without_cleanup_reports_the_directory() {
    let pipeline =
        HarvestPipeline::new(MockExtractor::new(), MockAnalyzer::new()).with_cleanup(false);

    let harvest = run(&pipeline, "/tmp/test3.appimage").unwrap();

    assert_eq!(harvest.extraction_path, Some("/tmp/test_extract_1".to_string()));
}

#[test]
fn run_reports_the_times_it_was_told() {
    let pipeline = HarvestPipeline::new(MockExtractor::new(), MockAnalyzer::new());

    let stats = run(&pipeline, "/tmp/test.appimage").unwrap().stats;

    assert_eq!(stats.extraction_duration_ms, EXTRACTION_MS);
    assert_eq!(stats.analysis_duration_ms, ANALYSIS_MS);
    assert_eq!(stats.total_duration_ms, TOTAL_MS);
}

#[test]
fn new_pipeline_has_the_defaults() {
    let pipeline = HarvestPipeline::new(MockExtractor::new(), MockAnalyzer::new());

    assert_eq!(pipeline.stage_timeout().as_secs(), 300);
    assert_eq!(pipeline.stage_timeout().subsec_nanos(), 0);
    assert!(pipeline.auto_cleanup());
}

#[test]
fn builders_change_one_setting_each() {
    let limit = TimeLimit::new(2, 500_000_000).unwrap();
    let pipeline = HarvestPipeline::new(MockExtractor::new(), MockAnalyzer::new())
        .with_timeout(limit)
        .with_cleanup(false);

    assert_eq!(pipeline.stage_timeout(), limit);
    assert!(!pipeline.auto_cleanup());

    let pipeline = pipeline.with_cleanup(true);
    assert_eq!(pipeline.stage_timeout().as_secs(), 2);
    assert_eq!(pipeline.stage_timeout().subsec_nanos(), 500_000_000);
    assert!(pipeline.auto_cleanup());
}

#[test]
fn time_limit_holds_less_than_a_second_of_nanoseconds() {
    assert!(TimeLimit::new(1, 999_999_999).is_some());
    assert!(TimeLimit::new(1, 1_000_000_000).is_none());
    assert!(TimeLimit::new(0, u32::MAX).is_none());
    assert_eq!(TimeLimit::new(7, 0), Some(TimeLimit::from_secs(7)));
}

#[test]
fn each_stage_is_tried_once() {
    let pipeline = HarvestPipeline::new(MockExtractor::new(), MockAnalyzer::new());

    run(&pipeline, "/tmp/test.appimage").unwrap();

    assert_eq!(pipeline.extractor().calls.load(Ordering::SeqCst), 1);
    assert_eq!(pipeline.analyzer().calls.load(Ordering::SeqCst), 1);
}

#[test]
fn failed_extraction_ends_the_run_without_analysis() {
    let pipeline = HarvestPipeline::new(FailingExtractor, MockAnalyzer::new());

    let error = run(&pipeline, "/tmp/test.zip").unwrap_err();

    match error {
        PipelineError::ExtractionFailed(detail) => assert_eq!(detail, "Unsupported format: zip"),
        other => panic!("expected a failed extraction, got {:?}", other),
    }
    assert_eq!(pipeline.analyzer().calls.load(Ordering::SeqCst), 0);
}

#[test]
fn failed_analysis_ends_the_run() {
    let pipeline = HarvestPipeline::new(MockExtractor::new(), FailingAnalyzer);

    let error = run(&pipeline, "/tmp/test.appimage").unwrap_err();

    match error {
        PipelineError::AnalysisFailed(detail) => {
            assert_eq!(detail, "Missing required metadata: app.desktop")
        }
        other => panic!("expected a failed analysis, got {:?}", other),
    }
    assert_eq!(pipeline.extractor().calls.load(Ordering::SeqCst), 1);
}

#[test]
fn start_asks_for_the_extraction() {
    let pipeline = HarvestPipeline::new(MockExtractor::new(), MockAnalyzer::new())
        .with_timeout(TimeLimit::from_secs(10))
        .with_cleanup(false);

    let (state, action) =
        pipeline.step(RunState::Idle, RunEvent::Start { source: "/tmp/a.snap".to_string() });

    assert!(matches!(state, RunState::Extracting));
    match action {
        RunAction::Extract { source, cleanup_on_release, timeout } => {
            assert_eq!(source, "/tmp/a.snap");
            assert!(!cleanup_on_release);
            assert_eq!(timeout, TimeLimit::from_secs(10));
        }
        other => panic!("expected the extraction, got {:?}", other),
    }
}

#[test]
fn extraction_gets_the_cleanup_flag_of_the_pipeline() {
    for (of_stage, of_pipeline) in [(false, true), (true, false), (true, true), (false, false)] {
        let pipeline = HarvestPipeline::new(MockExtractor::new(), MockAnalyzer::new())
            .with_cleanup(of_pipeline);
        let outcome = StageOutcome::Completed(extraction("/tmp/x", of_stage));

        let (state, action) = pipeline
            .step(RunState::Extracting, RunEvent::ExtractionEnded { outcome, elapsed_ms: 40 });

        match state {
            RunState::Analyzing { extraction_path, extraction_duration_ms } => {
                let expected = if of_pipeline { None } else { Some("/tmp/x".to_string()) };
                assert_eq!(extraction_path, expected);
                assert_eq!(extraction_duration_ms, 40);
            }
            other => panic!("expected the analysis to be under way, got {:?}", other),
        }
        match action {
            RunAction::Analyze { extraction, timeout } => {
                assert_eq!(extraction.path, "/tmp/x");
                assert_eq!(extraction.source_info.original_path, "/pkg.appimage");
                assert_eq!(extraction.source_info.size_bytes, 1024);
                assert_eq!(extraction.cleanup_on_drop, of_pipeline);
                assert_eq!(timeout, TimeLimit::from_secs(300));
            }
            other => panic!("expected the analysis, got {:?}", other),
        }
    }
}

#[test]
fn extraction_timeout_names_the_stage_and_the_limit() {
    let pipeline = HarvestPipeline::new(MockExtractor::new(), MockAnalyzer::new())
        .with_timeout(TimeLimit::new(10, 900_000_000).unwrap());

    let (state, action) = pipeline.step(
        RunState::Extracting,
        RunEvent::ExtractionEnded { outcome: StageOutcome::TimedOut, elapsed_ms: 10_900 },
    );

    assert!(matches!(state, RunState::Failed));
    match action {
        RunAction::Finish(Err(PipelineError::StageTimeout { stage, timeout_secs })) => {
            assert_eq!(stage, "extraction");
            assert_eq!(timeout_secs, 10);
        }
        other => panic!("expected a timeout, got {:?}", other),
    }
}

#[test]
fn analysis_timeout_names_the_stage_and_the_limit() {
    let pipeline = HarvestPipeline::new(MockExtractor::new(), MockAnalyzer::new());

    let (state, action) = pipeline.step(
        analyzing(None),
        RunEvent::AnalysisEnded {
            outcome: StageOutcome::TimedOut,
            elapsed_ms: 300_000,
            total_elapsed_ms: 300_007,
        },
    );

    assert!(matches!(state, RunState::Failed));
    match action {
        RunAction::Finish(Err(PipelineError::StageTimeout { stage, timeout_secs })) => {
            assert_eq!(stage, "analysis");
            assert_eq!(timeout_secs, 300);
        }
        other => panic!("expected a timeout, got {:?}", other),
    }
}

#[test]
fn worker_fault_fails_the_stage_it_ran() {
    let pipeline = HarvestPipeline::new(MockExtractor::new(), MockAnalyzer::new());

    let (state, action) = pipeline.step(
        RunState::Extracting,
        RunEvent::ExtractionEnded {
            outcome: StageOutcome::WorkerFault("task 4 panicked".to_string()),
            elapsed_ms: 1,
        },
    );
    assert!(matches!(state, RunState::Failed));
    match action {
        RunAction::Finish(Err(PipelineError::ExtractionFailed(detail))) => {
            assert_eq!(detail, "Task join error: task 4 panicked")
        }
        other => panic!("expected a failed extraction, got {:?}", other),
    }

    let (state, action) = pipeline.step(
        analyzing(None),
        RunEvent::AnalysisEnded {
            outcome: StageOutcome::WorkerFault("task 5 was cancelled".to_string()),
            elapsed_ms: 1,
            total_elapsed_ms: 2,
        },
    );
    assert!(matches!(state, RunState::Failed));
    match action {
        RunAction::Finish(Err(PipelineError::AnalysisFailed(detail))) => {
            assert_eq!(detail, "Task join error: task 5 was cancelled")
        }
        other => panic!("expected a failed analysis, got {:?}", other),
    }
}

#[test]
fn stage_error_is_reported_with_its_message() {
    let pipeline = HarvestPipeline::new(MockExtractor::new(), MockAnalyzer::new());

    let (_, action) = pipeline.step(
        RunState::Extracting,
        RunEvent::ExtractionEnded {
            outcome: StageOutcome::StageError(ExtractionError::Timeout(45)),
            elapsed_ms: 45_000,
        },
    );
    match action {
        RunAction::Finish(Err(PipelineError::ExtractionFailed(detail))) => {
            assert_eq!(detail, "Extraction timeout after 45s")
        }
        other => panic!("expected a failed extraction, got {:?}", other),
    }

    let (_, action) = pipeline.step(
        analyzing(Some("/tmp/x")),
        RunEvent::AnalysisEnded {
            outcome: StageOutcome::StageError(AnalysisError::ElfAnalysis("bad header".to_string())),
            elapsed_ms: 3,
            total_elapsed_ms: 9,
        },
    );
    match action {
        RunAction::Finish(Err(PipelineError::AnalysisFailed(detail))) => {
            assert_eq!(detail, "ELF dependency analysis failed: bad header")
        }
        other => panic!("expected a failed analysis, got {:?}", other),
    }
}

#[test]
fn result_counts_files_and_sums_sizes() {
    let pipeline = HarvestPipeline::new(MockExtractor::new(), MockAnalyzer::new());

    let (state, action) = pipeline.step(
        analyzing(Some("/tmp/kept")),
        RunEvent::AnalysisEnded {
            outcome: StageOutcome::Completed(metadata_with(&[12, 0, 4096, 7])),
            elapsed_ms: 30,
            total_elapsed_ms: 41,
        },
    );

    assert!(matches!(state, RunState::Completed));
    match action {
        RunAction::Finish(Ok(result)) => {
            assert_eq!(result.stats.files_processed, 4);
            assert_eq!(result.stats.total_size_bytes, 4115);
            assert_eq!(result.stats.extraction_duration_ms, EXTRACTION_MS);
            assert_eq!(result.stats.analysis_duration_ms, 30);
            assert_eq!(result.stats.total_duration_ms, 41);
            assert_eq!(result.extraction_path, Some("/tmp/kept".to_string()));
            assert_eq!(result.metadata.files.len(), 4);
            assert_eq!(result.metadata.package_name, "test-package");
        }
        other => panic!("expected a result, got {:?}", other),
    }
}

#[test]
fn result_of_no_files_has_empty_statistics() {
    let pipeline = HarvestPipeline::new(MockExtractor::new(), MockAnalyzer::new());

    let (_, action) = pipeline.step(
        analyzing(None),
        RunEvent::AnalysisEnded {
            outcome: StageOutcome::Completed(metadata_with(&[])),
            elapsed_ms: 0,
            total_elapsed_ms: 0,
        },
    );

    match action {
        RunAction::Finish(Ok(result)) => {
            assert_eq!(result.stats.files_processed, 0);
            assert_eq!(result.stats.total_size_bytes, 0);
            assert!(result.extraction_path.is_none());
        }
        other => panic!("expected a result, got {:?}", other),
    }
}

#[test]
fn events_are_taken_only_in_their_state() {
    let start = RunEvent::Start { source: "/tmp/a".to_string() };
    let extracted = RunEvent::ExtractionEnded { outcome: StageOutcome::TimedOut, elapsed_ms: 1 };
    let analyzed = RunEvent::AnalysisEnded {
        outcome: StageOutcome::Completed(metadata_with(&[1, 2])),
        elapsed_ms: 1,
        total_elapsed_ms: 2,
    };

    assert!(RunState::Idle.can_take(&start));
    assert!(!RunState::Idle.can_take(&extracted));
    assert!(!RunState::Idle.can_take(&analyzed));

    assert!(!RunState::Extracting.can_take(&start));
    assert!(RunState::Extracting.can_take(&extracted));
    assert!(!RunState::Extracting.can_take(&analyzed));

    assert!(!analyzing(None).can_take(&start));
    assert!(!analyzing(None).can_take(&extracted));
    assert!(analyzing(None).can_take(&analyzed));

    for ended in [RunState::Completed, RunState::Failed] {
        assert!(!ended.can_take(&start));
        assert!(!ended.can_take(&extracted));
        assert!(!ended.can_take(&analyzed));
    }
}

#[test]
fn sizes_beyond_64_bits_are_not_taken() {
    let analyzed = RunEvent::AnalysisEnded {
        outcome: StageOutcome::Completed(metadata_with(&[u64::MAX, 1])),
        elapsed_ms: 1,
        total_elapsed_ms: 2,
    };
    assert!(!analyzing(None).can_take(&analyzed));

    let analyzed = RunEvent::AnalysisEnded {
        outcome: StageOutcome::Completed(metadata_with(&[u64::MAX - 1, 1])),
        elapsed_ms: 1,
        total_elapsed_ms: 2,
    };
    assert!(analyzing(None).can_take(&analyzed));
}

#[test]
fn total_size_is_the_sum_or_nothing() {
    assert_eq!(metadata_with(&[]).total_size_bytes(), Some(0));
    assert_eq!(metadata_with(&[12]).total_size_bytes(), Some(12));
    assert_eq!(metadata_with(&[1, 2, 3, 4]).total_size_bytes(), Some(10));
    assert_eq!(metadata_with(&[u64::MAX]).total_size_bytes(), Some(u64::MAX));
    assert_eq!(metadata_with(&[u64::MAX, 0, 0]).total_size_bytes(), Some(u64::MAX));
    assert_eq!(metadata_with(&[u64::MAX, 1]).total_size_bytes(), None);
    assert_eq!(metadata_with(&[1 << 63, 1 << 63, 5]).total_size_bytes(), None);
}

#[test]
fn directory_is_removed_where_asked_and_there() {
    assert!(TempExtraction::removal_due(true, true));
    assert!(!TempExtraction::removal_due(true, false));
    assert!(!TempExtraction::removal_due(false, true));
    assert!(!TempExtraction::removal_due(false, false));
}

#[test]
fn default_statistics_are_zero() {
    let stats = HarvestStats::default();
    assert_eq!(stats.total_duration_ms, 0);
    assert_eq!(stats.extraction_duration_ms, 0);
    assert_eq!(stats.analysis_duration_ms, 0);
    assert_eq!(stats.files_processed, 0);
    assert_eq!(stats.total_size_bytes, 0);
}

#[test]
fn stage_names_are_those_of_the_stages() {
    let pipeline = HarvestPipeline::new(MockExtractor::new(), MockAnalyzer::new());
    assert_eq!(pipeline.extractor().stage_name(), "mock_extractor");
    assert_eq!(pipeline.analyzer().stage_name(), "mock_analyzer");
}
