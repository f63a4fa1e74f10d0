//! The kinds of failure the engine reports.

use vstd::prelude::*;
use crate::input_version::InputVersion;
use crate::version::PythonVersion;

verus! {

/// A failure of one of the engine's operations.
#[derive(Clone, Debug)]
pub enum MamimiError {
    /// The text is neither a version nor a specifier.
    MalformedVersion,
    /// No candidate matches the specifier, or the version is not installed.
    VersionNotFound { version: InputVersion },
    /// The version is already installed at `path`.
    VersionAlreadyInstalled { path: String },
    /// The system interpreter cannot be installed or removed.
    NotInstallableVersion { version: PythonVersion },
    /// The mirror could not be reached or answered with a failure status.
    NetworkError { status: u16 },
    /// The mirror's index lists no version.
    EmptyIndex,
    /// The archive could not be unpacked.
    ExtractError { message: String },
    /// The archive holds nothing.
    TarIsEmpty,
    /// A build step exited with a failure.
    CannotBuildPython { stderr: String },
    /// An entry of the aliases directory is not a symbolic link.
    CorruptAlias { name: String },
    /// No version was given, found in a version file, or set as default.
    CannotInferVersion,
    /// No shell was given and none could be inferred.
    CantInferShell,
    /// No per-shell link is configured for the session.
    MamimiPathNotFound,
    /// The version has no installation directory.
    InstallationNotFound { version: PythonVersion },
}

} // verus!
