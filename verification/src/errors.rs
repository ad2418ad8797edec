//! Errors produced while reading and combining config

use vstd::prelude::*;

use crate::config::GenerateMode;

verus! {

/// An error from parsing or validating configuration
#[derive(Debug)]
pub enum DistError {
    /// The install path doesn't start with `CARGO_HOME`, `~/` or `$`
    InstallPathInvalid {
        /// The invalid value
        path: String,
    },
    /// A `$ENV_VAR` install path without a `/` after the variable name
    InstallPathEnvSlash {
        /// The invalid value
        path: String,
    },
    /// A `~/` install path with nothing after it
    InstallPathHomeSubdir {
        /// The invalid value
        path: String,
    },
    /// Not a recognized job (custom jobs need a `./` prefix)
    UnrecognizedJobStyle {
        /// The value given
        style: String,
    },
    /// Not a recognized release host
    UnrecognizedHostingStyle {
        /// The value given
        style: String,
    },
    /// Not a recognized ci provider
    UnrecognizedCiStyle {
        /// The value given
        style: String,
    },
    /// Not a recognized type of library
    UnrecognizedLibraryStyle {
        /// The value given
        style: String,
    },
    /// An environment line without `=`
    EnvParseError {
        /// The line that could not be split
        line: String,
    },
    /// `CARGO_HOME` combined with other install paths
    IncompatibleInstallPathConfiguration {},
    /// A github repo that isn't of the form `owner/repo`
    GithubRepoPairParse {
        /// The value given
        pair: String,
    },
    /// An archive extension that isn't one of the known ones
    UnknownArchiveFormat {
        /// The extension given
        ext: String,
    },
    /// Workspace isn't init
    NeedsInit,
    /// Running different version from config
    MismatchedDistVersion {
        /// config version
        config_version: String,
        /// running version
        running_version: String,
    },
    /// User declined to update dist, refuse to make progress
    NoUpdateVersion {
        /// Version the config had
        project_version: semver::Version,
        /// Version they're running
        running_version: semver::Version,
    },
    /// An npm scope with an uppercase letter
    NpmScopeNotLowercase,
    /// An npm scope that is `@` alone
    NpmScopeEmptyName,
    /// An npm scope that does not start with `@`
    NpmScopeMissingAt,
    /// `dist generate` was passed an explicit mode that the config marks as
    /// allow-dirty, a contradiction
    ContradictoryGenerateModes {
        /// The problematic mode
        generate_mode: GenerateMode,
    },
}

impl DistError {
    /// The message this error reports to the user
    pub open spec fn message_spec(self) -> Seq<char> {
        match self {
            DistError::InstallPathInvalid { path } => "install-path = \""@ + path@ + "\" has an unknown format (it can either be \"CARGO_HOME\", \"~/subdir/\", or \"$ENV_VAR/subdir/\")"@,
            DistError::InstallPathEnvSlash { path } => "install-path = \""@ + path@ + "\" is missing a subdirectory (add a trailing slash if you want no subdirectory)"@,
            DistError::InstallPathHomeSubdir { path } => "install-path = \""@ + path@ + "\" is missing a subdirectory (installing directly to home isn't allowed)"@,
            DistError::UnrecognizedJobStyle { style } => style@ + " is not a recognized job value"@,
            DistError::UnrecognizedHostingStyle { style } => style@ + " is not a recognized release host"@,
            DistError::UnrecognizedCiStyle { style } => style@ + " is not a recognized ci provider"@,
            DistError::UnrecognizedLibraryStyle { style } => style@ + " is not a recognized type of library"@,
            DistError::EnvParseError { line } => "Unable to parse environment variable as a key/value pair: "@ + line@,
            DistError::IncompatibleInstallPathConfiguration {  } => "Incompatible install paths configured in Cargo.toml"@,
            DistError::GithubRepoPairParse { pair } => "Failed to parse github repo: "@ + pair@,
            DistError::UnknownArchiveFormat { ext } => "unknown archive format "@ + ext@ + ", expected one of: .zip, .tar.gz, .tar.xz, .tar.zstd, .tar.zst"@,
            DistError::NeedsInit => "please run 'dist init' before running any other commands!"@,
            DistError::MismatchedDistVersion { config_version, running_version } => "You're running dist "@
                + running_version@ + ", but 'cargo-dist-version = "@ + config_version@
                + "' is set in your Cargo.toml"@,
            DistError::NoUpdateVersion { .. } => "to update your dist config you must use the version your project is configured for"@,
            DistError::NpmScopeNotLowercase => "npm scopes must be lowercase"@,
            DistError::NpmScopeEmptyName => "@ must be followed by something"@,
            DistError::NpmScopeMissingAt => "npm scopes must start with @"@,
            DistError::ContradictoryGenerateModes { generate_mode } => "'"@ + generate_mode.display_spec()
                + "' is marked as allow-dirty in your dist config, refusing to run"@,
        }
    }

    /// The message this error reports to the user
    pub fn to_string(&self) -> (r: String)
        ensures
            r@ == self.message_spec(),
    {
        match self {
            DistError::InstallPathInvalid { path } => crate::strings::concat3(
                "install-path = \"",
                path.as_str(),
                "\" has an unknown format (it can either be \"CARGO_HOME\", \"~/subdir/\", or \"$ENV_VAR/subdir/\")",
            ),
            DistError::InstallPathEnvSlash { path } => crate::strings::concat3(
                "install-path = \"",
                path.as_str(),
                "\" is missing a subdirectory (add a trailing slash if you want no subdirectory)",
            ),
            DistError::InstallPathHomeSubdir { path } => crate::strings::concat3(
                "install-path = \"",
                path.as_str(),
                "\" is missing a subdirectory (installing directly to home isn't allowed)",
            ),
            DistError::UnrecognizedJobStyle { style } => crate::strings::concat2(
                style.as_str(),
                " is not a recognized job value",
            ),
            DistError::UnrecognizedHostingStyle { style } => crate::strings::concat2(
                style.as_str(),
                " is not a recognized release host",
            ),
            DistError::UnrecognizedCiStyle { style } => crate::strings::concat2(
                style.as_str(),
                " is not a recognized ci provider",
            ),
            DistError::UnrecognizedLibraryStyle { style } => crate::strings::concat2(
                style.as_str(),
                " is not a recognized type of library",
            ),
            DistError::EnvParseError { line } => crate::strings::concat2(
                "Unable to parse environment variable as a key/value pair: ",
                line.as_str(),
            ),
            DistError::IncompatibleInstallPathConfiguration {  } => crate::strings::owned(
                "Incompatible install paths configured in Cargo.toml",
            ),
            DistError::GithubRepoPairParse { pair } => crate::strings::concat2(
                "Failed to parse github repo: ",
                pair.as_str(),
            ),
            DistError::UnknownArchiveFormat { ext } => crate::strings::concat3(
                "unknown archive format ",
                ext.as_str(),
                ", expected one of: .zip, .tar.gz, .tar.xz, .tar.zstd, .tar.zst",
            ),
            DistError::NeedsInit => crate::strings::owned(
                "please run 'dist init' before running any other commands!",
            ),
            DistError::MismatchedDistVersion { config_version, running_version } => {
                let head = crate::strings::concat3(
                    "You're running dist ",
                    running_version.as_str(),
                    ", but 'cargo-dist-version = ",
                );
                crate::strings::string_concat(
                    crate::strings::string_concat(head, config_version.as_str()),
                    "' is set in your Cargo.toml",
                )
            },
            DistError::NoUpdateVersion { .. } => crate::strings::owned(
                "to update your dist config you must use the version your project is configured for",
            ),
            DistError::NpmScopeNotLowercase => crate::strings::owned("npm scopes must be lowercase"),
            DistError::NpmScopeEmptyName => crate::strings::owned("@ must be followed by something"),
            DistError::NpmScopeMissingAt => crate::strings::owned("npm scopes must start with @"),
            DistError::ContradictoryGenerateModes { generate_mode } => {
                let name = generate_mode.to_string();
                crate::strings::concat3(
                    "'",
                    name.as_str(),
                    "' is marked as allow-dirty in your dist config, refusing to run",
                )
            },
        }
    }
}

/// Result alias for config operations
pub type DistResult<T> = Result<T, DistError>;

} // verus!
