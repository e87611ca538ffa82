//! Harvesting of application packages: a two-stage pipeline that turns a
//! package archive into normalized metadata, and a bounded executor for
//! ecosystem parsers.

pub mod clock;
pub mod executor;
pub mod harvest;
pub mod model;
pub mod text;
pub mod traits;

pub use executor::HarvesterExecutor;
pub use model::{HarvesterBatch, LocalPackageNode, LocalVcsRef, LocalVulnerability};
pub use traits::{EcosystemParser, ParseError};
