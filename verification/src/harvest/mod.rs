//! The harvest pipeline: extraction, then analysis.

pub mod extra;
pub mod path;
pub mod pipeline;
pub mod run;
pub mod traits;

pub use extra::ExtraFields;
pub use pipeline::{
    Analyzer, Extractor, HarvestPipeline, HarvestResult, HarvestStats, PipelineError, SourceInfo,
    TempExtraction,
};
pub use traits::{
    AnalysisError, Dependency, DependencyKind, ExtractionError, FileDescriptor, HarvestMetadata,
    HarvestStage, PackageFormat, ValidationError, ValidationReport,
};
