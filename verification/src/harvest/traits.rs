//! The interfaces of package formats and stages, the normalized metadata
//! they produce, and the errors of each stage.

use vstd::prelude::*;
use vstd::string::StringExecFns;

use crate::harvest::extra::ExtraFields;
use crate::clock::unix_timestamp;
use crate::text::{decimal, push_decimal};

verus! {

/// One stage of a pipeline: it turns an input into an output, or fails.
pub trait HarvestStage: Send + Sync {
    /// What the stage consumes.
    type Input;

    /// What the stage produces.
    type Output;

    /// How the stage fails.
    type Error;

    /// Runs the stage on `input`.
    fn execute(&self, input: Self::Input) -> Result<Self::Output, Self::Error>;

    /// A name for the stage, for messages.
    fn stage_name(&self) -> &'static str;
}

/// A package format: how to recognize, unpack and read packages of one kind.
pub trait PackageFormat: Send + Sync {
    /// The identifier of the format, such as `appimage`.
    fn name(&self) -> &str;

    /// Whether the file at `path` is a package of this format.
    fn can_handle(&self, path: &str) -> bool;

    /// Unpacks the package at `source` into the directory `dest`.
    fn extract(&self, source: &str, dest: &str) -> Result<(), ExtractionError>;

    /// Reads the unpacked package under `extracted_path` into metadata.
    fn analyze(&self, extracted_path: &str) -> Result<HarvestMetadata, AnalysisError>;

    /// Checks the integrity of the package at `path`. A format without a
    /// validator of its own reports every package as valid, in a report
    /// that says that no validator ran.
    fn validate(&self, _path: &str) -> (checked: Result<ValidationReport, ValidationError>)
        default_ensures
            checked matches Ok(report) && {
                &&& report.valid
                &&& report.messages@.len() == 1
                &&& report.messages@[0]@ == "No validation performed (default implementation)"@
                &&& report.timestamp >= 0
            },
    {
        Ok(ValidationReport::valid())
    }
}

/// What a package is, whatever its format.
#[derive(Debug, Clone)]
pub struct HarvestMetadata {
    /// The identifier of the format the package came in.
    pub source_format: String,
    /// The name of the package.
    pub package_name: String,
    /// The version of the package.
    pub version: String,
    /// What the package depends on.
    pub dependencies: Vec<Dependency>,
    /// The files of the package.
    pub files: Vec<FileDescriptor>,
    /// What the package provides: MIME types, services, commands.
    pub capabilities: Vec<String>,
    /// When the metadata was harvested, in seconds since the Unix epoch.
    pub harvest_timestamp: i64,
    /// The version of the harvester that produced the metadata.
    pub harvester_version: String,
    /// Fields that only this format has. None of them has the name of a
    /// field above.
    pub extra: ExtraFields,
}

/// The sum of the sizes of the files.
pub open spec fn total_size(files: Seq<FileDescriptor>) -> nat
    decreases files.len(),
{
    if files.len() == 0 {
        0
    } else {
        total_size(files.drop_last()) + files.last().size as nat
    }
}

/// The sizes of the first files sum to no more than the sizes of all.
pub proof fn lemma_total_size_prefix(files: Seq<FileDescriptor>, n: int)
    requires
        0 <= n <= files.len(),
    ensures
        total_size(files.take(n)) <= total_size(files),
    decreases files.len(),
{
    if n == files.len() {
        assert(files.take(n) == files);
    } else {
        lemma_total_size_prefix(files.drop_last(), n);
        assert(files.drop_last().take(n) == files.take(n));
    }
}

impl HarvestMetadata {
    /// The sum of the sizes of the files, if it fits in 64 bits.
    pub fn total_size_bytes(&self) -> (total: Option<u64>)
        ensures
            total_size(self.files@) <= u64::MAX ==> total == Some(total_size(self.files@) as u64),
            total_size(self.files@) > u64::MAX ==> total.is_none(),
    {
        let n: usize = self.files.len();
        let mut sum: u64 = 0;
        let mut i: usize = 0;
        while i < n
            invariant
                i <= n,
                n == self.files.len(),
                sum == total_size(self.files@.take(i as int)),
            decreases n - i,
        {
            proof {
                assert(self.files@.take(i + 1).drop_last() == self.files@.take(i as int));
                lemma_total_size_prefix(self.files@, i + 1);
            }
            match sum.checked_add(self.files[i].size) {
                Some(next) => {
                    sum = next;
                },
                None => {
                    return None;
                },
            }
            i += 1;
        }
        proof {
            assert(self.files@.take(n as int) == self.files@);
        }
        Some(sum)
    }
}

/// Something a package depends on.
#[derive(Debug, Clone)]
pub struct Dependency {
    /// The name of what is needed.
    pub name: String,
    /// The versions that will do, where the package says.
    pub version_constraint: Option<String>,
    /// When it is needed.
    pub kind: DependencyKind,
}

/// When a dependency is needed.
#[derive(Debug, Clone, Copy, PartialEq, Eq, Structural)]
pub enum DependencyKind {
    /// To run the package.
    Runtime,
    /// To build the package.
    Build,
    /// For a feature that can be left out.
    Optional,
}

/// A file of a package.
#[derive(Debug, Clone)]
pub struct FileDescriptor {
    /// Where the file is, relative to the root of the package.
    pub path: String,
    /// The hash of the contents, where it was computed.
    pub hash: Option<String>,
    /// The size of the file in bytes.
    pub size: u64,
    /// The Unix permission bits of the file.
    pub permissions: u32,
    /// Where the file points, if it is a symbolic link.
    pub symlink_target: Option<String>,
}

/// What a validation found.
#[derive(Debug, Clone)]
pub struct ValidationReport {
    /// Whether the package passed.
    pub valid: bool,
    /// What the validator has to say.
    pub messages: Vec<String>,
    /// When the validation ran, in seconds since the Unix epoch.
    pub timestamp: i64,
}

impl ValidationReport {
    /// The report of a package that passed, dated `timestamp`: it says that
    /// no validator ran.
    pub fn valid_at(timestamp: i64) -> (report: Self)
        ensures
            report.valid,
            report.messages@.len() == 1,
            report.messages@[0]@ == "No validation performed (default implementation)"@,
            report.timestamp == timestamp,
    {
        let mut messages: Vec<String> = Vec::new();
        messages.push(String::from_str("No validation performed (default implementation)"));
        ValidationReport { valid: true, messages, timestamp }
    }

    /// The report of a package that failed for the reasons in `messages`,
    /// dated `timestamp`.
    pub fn invalid_at(messages: Vec<String>, timestamp: i64) -> (report: Self)
        ensures
            !report.valid,
            report.messages == messages,
            report.timestamp == timestamp,
    {
        ValidationReport { valid: false, messages, timestamp }
    }

    /// The report of a package that passed, dated now: it says that no
    /// validator ran.
    pub fn valid() -> (report: Self)
        ensures
            report.valid,
            report.messages@.len() == 1,
            report.messages@[0]@ == "No validation performed (default implementation)"@,
            report.timestamp >= 0,
    {
        Self::valid_at(unix_timestamp())
    }

    /// The report of a package that failed for the reasons in `messages`,
    /// dated now.
    pub fn invalid(messages: Vec<String>) -> (report: Self)
        ensures
            !report.valid,
            report.messages == messages,
            report.timestamp >= 0,
    {
        Self::invalid_at(messages, unix_timestamp())
    }
}

/// Why an extraction failed.
#[derive(Debug, Clone)]
pub enum ExtractionError {
    /// The directory to extract into could not be made or reached; the
    /// field is the text of the I/O error.
    DirectoryCreation(String),
    /// The package could not be mounted.
    FuseMount(String),
    /// The extractor does not handle packages of this format.
    UnsupportedFormat(String),
    /// The extraction ran longer than this many seconds.
    Timeout(u64),
    /// The package is damaged or malformed.
    CorruptedPackage(String),
}

impl ExtractionError {
    /// The message of the error.
    pub open spec fn message_text(self) -> Seq<char> {
        match self {
            ExtractionError::DirectoryCreation(detail) => "Failed to create extraction directory: "@
                + detail@,
            ExtractionError::FuseMount(detail) => "FUSE mount failed: "@ + detail@,
            ExtractionError::UnsupportedFormat(detail) => "Unsupported format: "@ + detail@,
            ExtractionError::Timeout(secs) => "Extraction timeout after "@ + decimal(secs as nat)
                + "s"@,
            ExtractionError::CorruptedPackage(detail) => "Corrupted package: "@ + detail@,
        }
    }

    /// The message of the error.
    pub fn message(&self) -> (text: String)
        ensures
            text@ == self.message_text(),
    {
        match self {
            ExtractionError::DirectoryCreation(detail) => String::from_str(
                "Failed to create extraction directory: ",
            ).concat(detail.as_str()),
            ExtractionError::FuseMount(detail) => String::from_str("FUSE mount failed: ").concat(
                detail.as_str(),
            ),
            ExtractionError::UnsupportedFormat(detail) => String::from_str(
                "Unsupported format: ",
            ).concat(detail.as_str()),
            ExtractionError::Timeout(secs) => {
                let mut text = String::from_str("Extraction timeout after ");
                push_decimal(&mut text, *secs);
                text.append("s");
                text
            },
            ExtractionError::CorruptedPackage(detail) => String::from_str(
                "Corrupted package: ",
            ).concat(detail.as_str()),
        }
    }
}

/// Why an analysis failed.
#[derive(Debug, Clone)]
pub enum AnalysisError {
    /// A file or a field that the metadata needs is not there.
    MissingMetadata(String),
    /// The desktop file could not be read.
    DesktopFileParsing(String),
    /// The dependencies of a binary could not be worked out.
    ElfAnalysis(String),
    /// Reading the package failed; the field is the text of the I/O error.
    Io(String),
    /// A JSON document could not be read.
    JsonParsing(String),
}

impl AnalysisError {
    /// The message of the error.
    pub open spec fn message_text(self) -> Seq<char> {
        match self {
            AnalysisError::MissingMetadata(detail) => "Missing required metadata: "@ + detail@,
            AnalysisError::DesktopFileParsing(detail) => "Failed to parse desktop file: "@
                + detail@,
            AnalysisError::ElfAnalysis(detail) => "ELF dependency analysis failed: "@ + detail@,
            AnalysisError::Io(detail) => "I/O error during analysis: "@ + detail@,
            AnalysisError::JsonParsing(detail) => "JSON parsing failed: "@ + detail@,
        }
    }

    /// The message of the error.
    pub fn message(&self) -> (text: String)
        ensures
            text@ == self.message_text(),
    {
        match self {
            AnalysisError::MissingMetadata(detail) => String::from_str(
                "Missing required metadata: ",
            ).concat(detail.as_str()),
            AnalysisError::DesktopFileParsing(detail) => String::from_str(
                "Failed to parse desktop file: ",
            ).concat(detail.as_str()),
            AnalysisError::ElfAnalysis(detail) => String::from_str(
                "ELF dependency analysis failed: ",
            ).concat(detail.as_str()),
            AnalysisError::Io(detail) => String::from_str("I/O error during analysis: ").concat(
                detail.as_str(),
            ),
            AnalysisError::JsonParsing(detail) => String::from_str("JSON parsing failed: ").concat(
                detail.as_str(),
            ),
        }
    }
}

/// Why a validation failed.
#[derive(Debug, Clone)]
pub enum ValidationError {
    /// The checksum of the file is not the one expected.
    ChecksumMismatch { expected: String, actual: String },
    /// The signature does not verify.
    InvalidSignature(String),
    /// The package is damaged.
    CorruptedPackage(String),
    /// Reading the package failed; the field is the text of the I/O error.
    Io(String),
}

impl ValidationError {
    /// The message of the error.
    pub open spec fn message_text(self) -> Seq<char> {
        match self {
            ValidationError::ChecksumMismatch { expected, actual } => "Checksum mismatch: expected "@
                + expected@ + ", got "@ + actual@,
            ValidationError::InvalidSignature(detail) => "Invalid signature: "@ + detail@,
            ValidationError::CorruptedPackage(detail) => "Corrupted package: "@ + detail@,
            ValidationError::Io(detail) => "I/O error during validation: "@ + detail@,
        }
    }

    /// The message of the error.
    pub fn message(&self) -> (text: String)
        ensures
            text@ == self.message_text(),
    {
        match self {
            ValidationError::ChecksumMismatch { expected, actual } => {
                let mut text = String::from_str("Checksum mismatch: expected ");
                text.append(expected.as_str());
                text.append(", got ");
                text.append(actual.as_str());
                text
            },
            ValidationError::InvalidSignature(detail) => String::from_str(
                "Invalid signature: ",
            ).concat(detail.as_str()),
            ValidationError::CorruptedPackage(detail) => String::from_str(
                "Corrupted package: ",
            ).concat(detail.as_str()),
            ValidationError::Io(detail) => String::from_str(
                "I/O error during validation: ",
            ).concat(detail.as_str()),
        }
    }
}

} // verus!
