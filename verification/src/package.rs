use vstd::prelude::*;

verus! {

/// A request to install one package: the bare name, which picks the
/// per-package install directory, and the full specification string
/// (name, optionally with a version or tag) that is both handed to the
/// package manager as its positional argument and attached to every
/// failure reported for this request.
#[derive(Debug, Clone)]
pub struct Package {
    pub name: String,
    pub spec: String,
}

/// The platform the resolver reports as currently active: the runtime
/// version the session is pinned to, with the package-manager version
/// where one is pinned too. The installer never looks inside it; it only
/// hands it on to be checked out.
#[derive(Debug, Clone)]
pub struct PlatformSpec {
    pub node: String,
    pub npm: Option<String>,
}

/// A checked-out platform: the directory of binaries that must be put at
/// the front of the child process's executable search path, so that the
/// package manager invoked is the active platform's and not whatever the
/// ambient system path offers first.
#[derive(Debug, Clone)]
pub struct ToolchainImage {
    pub bin_path: String,
}

/// The outcome of one install request, the only value exposed to callers.
/// Every failure carries enough context to report which request failed.
#[derive(Debug, Clone, PartialEq, Eq)]
pub enum InstallResult {
    /// The package manager exited successfully.
    Success,
    /// No toolchain platform is configured, so there is no package manager
    /// to delegate to. Fatal for the request, not retryable here.
    NoActivePlatform,
    /// The active platform could not be materialized into a usable image;
    /// the collaborator's message is passed through unchanged.
    CheckoutError { message: String },
    /// The package manager reported that the package does not exist.
    PackageNotFound { package: String },
    /// The package manager exited with a failure that is not classified
    /// further: the catch-all for any other nonzero exit.
    InstallFailed { package: String },
    /// The child process could not be started at all.
    InstallLaunchFailed { package: String },
}

} // verus!
