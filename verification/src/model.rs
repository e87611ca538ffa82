//! What an ecosystem parser finds in a manifest.

use vstd::prelude::*;

verus! {

/// A fragment of a dependency graph: the packages that a manifest names,
/// the vulnerabilities known of them, and where the source is kept.
#[derive(Debug, Clone)]
pub struct HarvesterBatch {
    /// The packages.
    pub nodes: Vec<LocalPackageNode>,
    /// The vulnerabilities.
    pub vulnerabilities: Vec<LocalVulnerability>,
    /// The repository that the manifest came from, where it is known.
    pub source_vcs: Option<LocalVcsRef>,
}

/// A package of some ecosystem.
#[derive(Debug, Clone)]
pub struct LocalPackageNode {
    /// The name of the package.
    pub name: String,
    /// The version of the package.
    pub version: String,
    /// The ecosystem of the package, such as `npm` or `cargo`.
    pub ecosystem: String,
    /// What the package is.
    pub description: Option<String>,
    /// The license of the package.
    pub license: Option<String>,
    /// The names or version ranges of what the package depends on.
    pub dependencies: Vec<String>,
}

/// A known vulnerability.
#[derive(Debug, Clone)]
pub struct LocalVulnerability {
    /// The identifier of the vulnerability, such as a CVE number.
    pub id: String,
    /// How severe it is.
    pub severity: String,
    /// What it is.
    pub description: String,
    /// The versions that have it.
    pub affected_versions: String,
}

/// A place in a version control system.
#[derive(Debug, Clone)]
pub struct LocalVcsRef {
    /// The address of the repository.
    pub url: String,
    /// The commit, where it is known.
    pub commit: Option<String>,
    /// The tag, where there is one.
    pub tag: Option<String>,
}

} // verus!
