//! Config types (for the `[dist]` table)

use std::collections::BTreeMap;
use vstd::prelude::*;

use crate::errors::{DistError, DistResult};
use crate::strings::{concat2, owned, str_eq, str_strip_prefix, str_strip_suffix, str_split_once, concat3, concat4, clone_opt_string, clone_strings};

pub mod v0;
pub mod v0_to_v1;
pub mod v1;
pub mod version;

pub use version::ConfigVersion;

verus! {

/// A semver version (`semver::Version`), carried through the config as given
#[verifier::external_type_specification]
#[verifier::external_body]
pub struct ExternalSemverVersion(semver::Version);

/// `semver::Version::clone`: its derived `Clone` copies each part of the
/// version, so the copy is the same version.
#[verifier::external_body]
pub(crate) fn clone_version(v: &semver::Version) -> (r: semver::Version)
    ensures
        r == *v,
{
    v.clone()
}

/// values of the form `permission-name: read`
pub type GithubPermissionMap = BTreeMap<String, GithubPermission>;

/// Possible values for a github ci permission
///
/// These are assumed to be strictly increasing in power, so admin includes write includes read.
#[derive(Debug, Copy, Clone, PartialEq, Eq, Structural)]
pub enum GithubPermission {
    /// Read (min)
    Read,
    /// Write
    Write,
    /// Admin (max)
    Admin,
}

/// How we should select the artifacts to build
#[derive(Clone, Copy, Debug, PartialEq, Eq, Structural)]
pub enum ArtifactMode {
    /// Build target-specific artifacts like archives, symbols, msi installers
    Local,
    /// Build globally unique artifacts like curl-sh installers, npm packages, metadata...
    Global,
    /// Fuzzily build "as much as possible" for the host system
    Host,
    /// Build all the artifacts; only really appropriate for `dist manifest`
    All,
    /// Fake all the artifacts; useful for testing/mocking/staging
    Lies,
}

impl ArtifactMode {
    /// The name of this mode
    pub open spec fn display_spec(self) -> Seq<char> {
        match self {
            ArtifactMode::Local => "local"@,
            ArtifactMode::Global => "global"@,
            ArtifactMode::Host => "host"@,
            ArtifactMode::All => "all"@,
            ArtifactMode::Lies => "lies"@,
        }
    }

    /// The name of this mode
    pub fn to_string(&self) -> (r: String)
        ensures
            r@ == self.display_spec(),
    {
        match self {
            ArtifactMode::Local => owned("local"),
            ArtifactMode::Global => owned("global"),
            ArtifactMode::Host => owned("host"),
            ArtifactMode::All => owned("all"),
            ArtifactMode::Lies => owned("lies"),
        }
    }
}

/// The style of CI we should generate
#[derive(Clone, Copy, Debug, PartialEq, Eq, Structural)]
pub enum CiStyle {
    /// Generate Github CI
    Github,
}

impl CiStyle {
    /// If the CI provider provides a native release hosting system, get it
    pub fn native_hosting(&self) -> (r: Option<HostingStyle>)
        ensures
            *self == CiStyle::Github ==> r == Some(HostingStyle::Github),
    {
        match self {
            CiStyle::Github => Some(HostingStyle::Github),
        }
    }

    /// The name of this provider
    pub open spec fn display_spec(self) -> Seq<char> {
        match self {
            CiStyle::Github => "github"@,
        }
    }

    /// The provider a name refers to, if any
    pub open spec fn parse_spec(s: Seq<char>) -> Option<CiStyle> {
        if s == "github"@ {
            Some(CiStyle::Github)
        } else {
            None
        }
    }

    /// The name of this provider
    pub fn to_string(&self) -> (r: String)
        ensures
            r@ == self.display_spec(),
    {
        match self {
            CiStyle::Github => owned("github"),
        }
    }

    /// Parse a ci provider name
    pub fn from_str(val: &str) -> (r: DistResult<Self>)
        ensures
            match r {
                Ok(v) => Self::parse_spec(val@) == Some(v),
                Err(e) => Self::parse_spec(val@) is None && (e matches DistError::UnrecognizedCiStyle {
                    style,
                } && style@ == val@),
            },
    {
        if str_eq(val, "github") {
            Ok(CiStyle::Github)
        } else {
            Err(DistError::UnrecognizedCiStyle { style: owned(val) })
        }
    }
}

/// Type of library to install
#[derive(Clone, Copy, Debug, PartialEq, Eq, Structural)]
pub enum LibraryStyle {
    /// cdylib
    CDynamic,
    /// cstaticlib
    CStatic,
}

impl LibraryStyle {
    /// The name of this library type
    pub open spec fn display_spec(self) -> Seq<char> {
        match self {
            LibraryStyle::CDynamic => "cdylib"@,
            LibraryStyle::CStatic => "cstaticlib"@,
        }
    }

    /// The library type a name refers to, if any
    pub open spec fn parse_spec(s: Seq<char>) -> Option<LibraryStyle> {
        if s == "cdylib"@ {
            Some(LibraryStyle::CDynamic)
        } else if s == "cstaticlib"@ {
            Some(LibraryStyle::CStatic)
        } else {
            None
        }
    }

    /// The name of this library type
    pub fn to_string(&self) -> (r: String)
        ensures
            r@ == self.display_spec(),
    {
        match self {
            LibraryStyle::CDynamic => owned("cdylib"),
            LibraryStyle::CStatic => owned("cstaticlib"),
        }
    }

    /// Parse a library type name
    pub fn from_str(val: &str) -> (r: DistResult<Self>)
        ensures
            match r {
                Ok(v) => Self::parse_spec(val@) == Some(v),
                Err(e) => Self::parse_spec(val@) is None && (e matches DistError::UnrecognizedLibraryStyle {
                    style,
                } && style@ == val@),
            },
    {
        if str_eq(val, "cdylib") {
            Ok(LibraryStyle::CDynamic)
        } else if str_eq(val, "cstaticlib") {
            Ok(LibraryStyle::CStatic)
        } else {
            Err(DistError::UnrecognizedLibraryStyle { style: owned(val) })
        }
    }
}

/// The style of Installer we should generate
#[derive(Clone, Copy, Debug, PartialEq, Eq, Structural)]
pub enum InstallerStyle {
    /// Generate a shell script
    Shell,
    /// Generate a powershell script
    Powershell,
    /// Generate an npm project
    Npm,
    /// Generate a Homebrew formula
    Homebrew,
    /// Generate an msi installer that embeds the binary
    Msi,
    /// Generate an Apple pkg installer that embeds the binary
    Pkg,
}

impl InstallerStyle {
    /// The name of this installer
    pub open spec fn display_spec(self) -> Seq<char> {
        match self {
            InstallerStyle::Shell => "shell"@,
            InstallerStyle::Powershell => "powershell"@,
            InstallerStyle::Npm => "npm"@,
            InstallerStyle::Homebrew => "homebrew"@,
            InstallerStyle::Msi => "msi"@,
            InstallerStyle::Pkg => "pkg"@,
        }
    }

    /// The name of this installer
    pub fn to_string(&self) -> (r: String)
        ensures
            r@ == self.display_spec(),
    {
        match self {
            InstallerStyle::Shell => owned("shell"),
            InstallerStyle::Powershell => owned("powershell"),
            InstallerStyle::Npm => owned("npm"),
            InstallerStyle::Homebrew => owned("homebrew"),
            InstallerStyle::Msi => owned("msi"),
            InstallerStyle::Pkg => owned("pkg"),
        }
    }
}

/// When to create GitHub releases
#[derive(Clone, Copy, Debug, PartialEq, Eq, Structural)]
pub enum GithubReleasePhase {
    /// Release position depends on whether axo releases is enabled
    Auto,
    /// Create release during the "host" stage, before npm and Homebrew
    Host,
    /// Create release during the "announce" stage, after all publish jobs
    Announce,
}

impl Default for GithubReleasePhase {
    fn default() -> (r: Self)
        ensures
            r == GithubReleasePhase::Auto,
    {
        GithubReleasePhase::Auto
    }
}

impl GithubReleasePhase {
    /// The name of this phase
    pub open spec fn display_spec(self) -> Seq<char> {
        match self {
            GithubReleasePhase::Auto => "auto"@,
            GithubReleasePhase::Host => "host"@,
            GithubReleasePhase::Announce => "announce"@,
        }
    }

    /// The name of this phase
    pub fn to_string(&self) -> (r: String)
        ensures
            r@ == self.display_spec(),
    {
        match self {
            GithubReleasePhase::Auto => owned("auto"),
            GithubReleasePhase::Host => owned("host"),
            GithubReleasePhase::Announce => owned("announce"),
        }
    }
}

/// The style of hosting we should use for artifacts
#[derive(Clone, Copy, Debug, PartialEq, Eq, Structural)]
pub enum HostingStyle {
    /// Host on Github Releases
    Github,
    /// Host on Axo Releases ("Abyss")
    Axodotdev,
}

impl HostingStyle {
    /// The name of this host
    pub open spec fn display_spec(self) -> Seq<char> {
        match self {
            HostingStyle::Github => "github"@,
            HostingStyle::Axodotdev => "axodotdev"@,
        }
    }

    /// The host a name refers to, if any
    pub open spec fn parse_spec(s: Seq<char>) -> Option<HostingStyle> {
        if s == "github"@ {
            Some(HostingStyle::Github)
        } else if s == "axodotdev"@ {
            Some(HostingStyle::Axodotdev)
        } else {
            None
        }
    }

    /// The name of this host
    pub fn to_string(&self) -> (r: String)
        ensures
            r@ == self.display_spec(),
    {
        match self {
            HostingStyle::Github => owned("github"),
            HostingStyle::Axodotdev => owned("axodotdev"),
        }
    }

    /// Parse a host name
    pub fn from_str(val: &str) -> (r: DistResult<Self>)
        ensures
            match r {
                Ok(v) => Self::parse_spec(val@) == Some(v),
                Err(e) => Self::parse_spec(val@) is None && (e matches DistError::UnrecognizedHostingStyle {
                    style,
                } && style@ == val@),
            },
    {
        if str_eq(val, "github") {
            Ok(HostingStyle::Github)
        } else if str_eq(val, "axodotdev") {
            Ok(HostingStyle::Axodotdev)
        } else {
            Err(DistError::UnrecognizedHostingStyle { style: owned(val) })
        }
    }
}

/// Character-sequence form of [`PublishStyle`][]
pub enum PublishStyleView {
    /// homebrew
    Homebrew,
    /// npm
    Npm,
    /// a user job
    User(Seq<char>),
}

/// The publish jobs we should run
#[derive(Debug)]
pub enum PublishStyle {
    /// Publish a Homebrew formula to a tap repository
    Homebrew,
    /// Publish an npm pkg to the global npm registry
    Npm,
    /// User-supplied value
    User(String),
}

impl View for PublishStyle {
    type V = PublishStyleView;

    open spec fn view(&self) -> PublishStyleView {
        match self {
            PublishStyle::Homebrew => PublishStyleView::Homebrew,
            PublishStyle::Npm => PublishStyleView::Npm,
            PublishStyle::User(s) => PublishStyleView::User(s@),
        }
    }
}

impl Clone for PublishStyle {
    fn clone(&self) -> (r: Self)
        ensures
            r == *self,
    {
        match self {
            PublishStyle::Homebrew => PublishStyle::Homebrew,
            PublishStyle::Npm => PublishStyle::Npm,
            PublishStyle::User(s) => PublishStyle::User(s.clone()),
        }
    }
}

impl PublishStyleView {
    /// The text form of a publish job
    pub open spec fn display_spec(self) -> Seq<char> {
        match self {
            PublishStyleView::Homebrew => "homebrew"@,
            PublishStyleView::Npm => "npm"@,
            PublishStyleView::User(s) => "./"@ + s,
        }
    }

    /// The publish job a text refers to, if any
    pub open spec fn parse_spec(s: Seq<char>) -> Option<PublishStyleView> {
        if "./"@.is_prefix_of(s) {
            Some(PublishStyleView::User(s.skip(2)))
        } else if s == "homebrew"@ {
            Some(PublishStyleView::Homebrew)
        } else if s == "npm"@ {
            Some(PublishStyleView::Npm)
        } else {
            None
        }
    }
}

impl PublishStyle {
    /// The text form of this publish job
    pub fn to_string(&self) -> (r: String)
        ensures
            r@ == self@.display_spec(),
    {
        match self {
            PublishStyle::Homebrew => owned("homebrew"),
            PublishStyle::Npm => owned("npm"),
            PublishStyle::User(s) => concat2("./", s.as_str()),
        }
    }

    /// Parse a publish job
    pub fn from_str(s: &str) -> (r: DistResult<Self>)
        ensures
            match r {
                Ok(v) => PublishStyleView::parse_spec(s@) == Some(v@),
                Err(e) => PublishStyleView::parse_spec(s@) is None && (e matches DistError::UnrecognizedJobStyle {
                    style,
                } && style@ == s@),
            },
    {
        proof {
            reveal_strlit("./");
        }
        if let Some(slug) = str_strip_prefix(s, "./") {
            assert(s@.skip(2) == slug@);
            Ok(PublishStyle::User(owned(slug)))
        } else if str_eq(s, "homebrew") {
            Ok(PublishStyle::Homebrew)
        } else if str_eq(s, "npm") {
            Ok(PublishStyle::Npm)
        } else {
            Err(DistError::UnrecognizedJobStyle { style: owned(s) })
        }
    }
}

/// Extra CI jobs we should run
#[derive(Debug)]
pub enum JobStyle {
    /// User-supplied value
    User(String),
}

impl View for JobStyle {
    type V = Seq<char>;

    /// The user job's name
    open spec fn view(&self) -> Seq<char> {
        match self {
            JobStyle::User(s) => s@,
        }
    }
}

impl Clone for JobStyle {
    fn clone(&self) -> (r: Self)
        ensures
            r == *self,
    {
        match self {
            JobStyle::User(s) => JobStyle::User(s.clone()),
        }
    }
}

impl JobStyle {
    /// The text form of a user job with this name
    pub open spec fn display_spec(name: Seq<char>) -> Seq<char> {
        "./"@ + name
    }

    /// The user job name a text refers to, if any
    pub open spec fn parse_spec(s: Seq<char>) -> Option<Seq<char>> {
        if "./"@.is_prefix_of(s) {
            Some(s.skip(2))
        } else {
            None
        }
    }

    /// The text form of this job
    pub fn to_string(&self) -> (r: String)
        ensures
            r@ == Self::display_spec(self@),
    {
        match self {
            JobStyle::User(s) => concat2("./", s.as_str()),
        }
    }

    /// Parse a job
    pub fn from_str(s: &str) -> (r: DistResult<Self>)
        ensures
            match r {
                Ok(v) => Self::parse_spec(s@) == Some(v@),
                Err(e) => Self::parse_spec(s@) is None && (e matches DistError::UnrecognizedJobStyle {
                    style,
                } && style@ == s@),
            },
    {
        proof {
            reveal_strlit("./");
        }
        if let Some(slug) = str_strip_prefix(s, "./") {
            assert(s@.skip(2) == slug@);
            Ok(JobStyle::User(owned(slug)))
        } else {
            Err(DistError::UnrecognizedJobStyle { style: owned(s) })
        }
    }
}

/// A copy of a list of jobs
pub fn clone_jobs(v: &Vec<JobStyle>) -> (r: Vec<JobStyle>)
    ensures
        r@ == v@,
{
    let mut out: Vec<JobStyle> = Vec::new();
    let mut i: usize = 0;
    while i < v.len()
        invariant
            i <= v.len(),
            out@ == v@.take(i as int),
        decreases v.len() - i,
    {
        out.push(v[i].clone());
        i = i + 1;
    }
    assert(v@.take(v.len() as int) == v@);
    out
}

/// The style of zip/tarball to make
#[derive(Debug, Clone, Copy, PartialEq, Eq, Structural)]
pub enum ZipStyle {
    /// `.zip`
    Zip,
    /// `.tar.<compression>`
    Tar(CompressionImpl),
    /// Don't bundle/compress this, it's just a temp dir
    TempDir,
}

/// Compression impls (used by [`ZipStyle::Tar`][])
#[derive(Debug, Copy, Clone, PartialEq, Eq, Structural)]
pub enum CompressionImpl {
    /// `.gz`
    Gzip,
    /// `.xz`
    Xzip,
    /// `.zst`
    Zstd,
}

impl ZipStyle {
    /// The extension used for this kind of zip
    pub open spec fn ext_spec(self) -> Seq<char> {
        match self {
            ZipStyle::TempDir => ""@,
            ZipStyle::Zip => ".zip"@,
            ZipStyle::Tar(compression) => match compression {
                CompressionImpl::Gzip => ".tar.gz"@,
                CompressionImpl::Xzip => ".tar.xz"@,
                CompressionImpl::Zstd => ".tar.zst"@,
            },
        }
    }

    /// The zip style an extension names in config, if any
    pub open spec fn from_ext_spec(ext: Seq<char>) -> Option<ZipStyle> {
        if ext == ".zip"@ {
            Some(ZipStyle::Zip)
        } else if ext == ".tar.gz"@ {
            Some(ZipStyle::Tar(CompressionImpl::Gzip))
        } else if ext == ".tar.xz"@ {
            Some(ZipStyle::Tar(CompressionImpl::Xzip))
        } else if ext == ".tar.zstd"@ || ext == ".tar.zst"@ {
            Some(ZipStyle::Tar(CompressionImpl::Zstd))
        } else {
            None
        }
    }

    /// Get the extension used for this kind of zip
    pub fn ext(&self) -> (r: &'static str)
        ensures
            r@ == self.ext_spec(),
    {
        match self {
            ZipStyle::TempDir => "",
            ZipStyle::Zip => ".zip",
            ZipStyle::Tar(compression) => match compression {
                CompressionImpl::Gzip => ".tar.gz",
                CompressionImpl::Xzip => ".tar.xz",
                CompressionImpl::Zstd => ".tar.zst",
            },
        }
    }

    /// Read the zip style from the extension written in config
    pub fn from_ext(ext: &str) -> (r: DistResult<Self>)
        ensures
            match r {
                Ok(v) => Self::from_ext_spec(ext@) == Some(v),
                Err(e) => Self::from_ext_spec(ext@) is None && (e matches DistError::UnknownArchiveFormat {
                    ext: e_ext,
                } && e_ext@ == ext@),
            },
    {
        if str_eq(ext, ".zip") {
            Ok(ZipStyle::Zip)
        } else if str_eq(ext, ".tar.gz") {
            Ok(ZipStyle::Tar(CompressionImpl::Gzip))
        } else if str_eq(ext, ".tar.xz") {
            Ok(ZipStyle::Tar(CompressionImpl::Xzip))
        } else if str_eq(ext, ".tar.zstd") || str_eq(ext, ".tar.zst") {
            Ok(ZipStyle::Tar(CompressionImpl::Zstd))
        } else {
            Err(DistError::UnknownArchiveFormat { ext: owned(ext) })
        }
    }
}

/// Split `s` at the first occurrence of `c`
pub open spec fn split_first(s: Seq<char>, c: char) -> Option<(Seq<char>, Seq<char>)>
    decreases s.len(),
{
    if s.len() == 0 {
        None
    } else if s[0] == c {
        Some((Seq::empty(), s.skip(1)))
    } else {
        match split_first(s.skip(1), c) {
            Some((before, after)) => Some((seq![s[0]] + before, after)),
            None => None,
        }
    }
}

/// `split_first` finds exactly the split that `str::split_once` describes
pub proof fn lemma_split_first(s: Seq<char>, c: char, before: Seq<char>, after: Seq<char>)
    requires
        s == before + seq![c] + after,
        !before.contains(c),
    ensures
        split_first(s, c) == Some((before, after)),
    decreases s.len(),
{
    if before.len() == 0 {
        assert(s[0] == c);
        assert(s.skip(1) =~= after);
    } else {
        assert(s[0] == before[0]);
        assert(before[0] != c);
        let rest = before.skip(1);
        assert(s.skip(1) =~= rest + seq![c] + after);
        assert forall|i: int| 0 <= i < rest.len() implies rest[i] != c by {
            assert(rest[i] == before[i + 1]);
        }
        lemma_split_first(s.skip(1), c, rest, after);
        assert(seq![s[0]] + rest =~= before);
    }
}

/// `split_first` finds nothing when `c` does not occur
pub proof fn lemma_split_first_none(s: Seq<char>, c: char)
    requires
        !s.contains(c),
    ensures
        split_first(s, c) is None,
    decreases s.len(),
{
    if s.len() > 0 {
        assert(s[0] != c);
        assert forall|i: int| 0 <= i < s.skip(1).len() implies s.skip(1)[i] != c by {
            assert(s.skip(1)[i] == s[i + 1]);
        }
        lemma_split_first_none(s.skip(1), c);
    }
}

/// Drop one trailing `/`, if there is one
pub open spec fn strip_trailing_slash(s: Seq<char>) -> Seq<char> {
    if s.len() > 0 && s.last() == '/' {
        s.drop_last()
    } else {
        s
    }
}

/// Exec form of [`strip_trailing_slash`][]
fn strip_trailing_slash_str(s: &str) -> (r: &str)
    ensures
        r@ == strip_trailing_slash(s@),
{
    proof {
        reveal_strlit("/");
    }
    match str_strip_suffix(s, "/") {
        Some(rest) => {
            assert(s@.drop_last() =~= rest@);
            rest
        },
        None => {
            assert(!(s@.len() > 0 && s@.last() == '/')) by {
                if s@.len() > 0 && s@.last() == '/' {
                    assert("/"@ =~= s@.subrange(s@.len() - 1, s@.len() as int));
                }
            }
            s
        },
    }
}

/// Character-sequence form of [`InstallPathStrategy`][]
pub enum InstallPathView {
    /// `CARGO_HOME`
    CargoHome,
    /// `~/subdir`
    HomeSubdir(Seq<char>),
    /// `$ENV_VAR/subdir`
    EnvSubdir(Seq<char>, Seq<char>),
}

/// Why an install path fails to parse
pub enum InstallPathErrorKind {
    /// `~/` with nothing after it
    HomeSubdir,
    /// `$VAR` without `/`
    EnvSlash,
    /// any other form
    Invalid,
}

/// Strategy for install binaries
#[derive(Debug, PartialEq, Eq)]
pub enum InstallPathStrategy {
    /// install to $CARGO_HOME, falling back to ~/.cargo/
    CargoHome,
    /// install to this subdir of the user's home
    ///
    /// syntax: `~/subdir`
    HomeSubdir {
        /// The subdir of home to install to
        subdir: String,
    },
    /// install to this subdir of this env var
    ///
    /// syntax: `$ENV_VAR/subdir`
    EnvSubdir {
        /// The env var to get the base of the path from
        env_key: String,
        /// The subdir to install to
        subdir: String,
    },
}

impl View for InstallPathStrategy {
    type V = InstallPathView;

    open spec fn view(&self) -> InstallPathView {
        match self {
            InstallPathStrategy::CargoHome => InstallPathView::CargoHome,
            InstallPathStrategy::HomeSubdir { subdir } => InstallPathView::HomeSubdir(subdir@),
            InstallPathStrategy::EnvSubdir { env_key, subdir } => InstallPathView::EnvSubdir(
                env_key@,
                subdir@,
            ),
        }
    }
}

impl Clone for InstallPathStrategy {
    fn clone(&self) -> (r: Self)
        ensures
            r == *self,
    {
        match self {
            InstallPathStrategy::CargoHome => InstallPathStrategy::CargoHome,
            InstallPathStrategy::HomeSubdir { subdir } => InstallPathStrategy::HomeSubdir {
                subdir: subdir.clone(),
            },
            InstallPathStrategy::EnvSubdir { env_key, subdir } => InstallPathStrategy::EnvSubdir {
                env_key: env_key.clone(),
                subdir: subdir.clone(),
            },
        }
    }
}

impl InstallPathView {
    /// The config text of this strategy
    pub open spec fn display_spec(self) -> Seq<char> {
        match self {
            InstallPathView::CargoHome => "CARGO_HOME"@,
            InstallPathView::HomeSubdir(subdir) => "~/"@ + subdir,
            InstallPathView::EnvSubdir(env_key, subdir) => "$"@ + env_key + "/"@ + subdir,
        }
    }

    /// The strategy a config text describes, or why it describes none
    pub open spec fn parse_spec(path: Seq<char>) -> Result<InstallPathView, InstallPathErrorKind> {
        if path == "CARGO_HOME"@ {
            Ok(InstallPathView::CargoHome)
        } else if "~/"@.is_prefix_of(path) {
            let subdir = path.skip(2);
            if subdir.len() == 0 {
                Err(InstallPathErrorKind::HomeSubdir)
            } else {
                Ok(InstallPathView::HomeSubdir(strip_trailing_slash(subdir)))
            }
        } else if "$"@.is_prefix_of(path) {
            match split_first(path.skip(1), '/') {
                Some((env_key, subdir)) => Ok(
                    InstallPathView::EnvSubdir(env_key, strip_trailing_slash(subdir)),
                ),
                None => Err(InstallPathErrorKind::EnvSlash),
            }
        } else {
            Err(InstallPathErrorKind::Invalid)
        }
    }
}

/// The error `InstallPathStrategy::from_str` reports for `path` and `kind`
pub open spec fn install_path_error_matches(e: DistError, kind: InstallPathErrorKind, path: Seq<char>) -> bool {
    match kind {
        InstallPathErrorKind::HomeSubdir => e matches DistError::InstallPathHomeSubdir { path: p } && p@ == path,
        InstallPathErrorKind::EnvSlash => e matches DistError::InstallPathEnvSlash { path: p } && p@ == path,
        InstallPathErrorKind::Invalid => e matches DistError::InstallPathInvalid { path: p } && p@ == path,
    }
}

impl InstallPathStrategy {
    /// Returns the default set of install paths
    pub fn default_list() -> (r: Vec<Self>)
        ensures
            r@ == seq![InstallPathStrategy::CargoHome],
    {
        let mut v = Vec::new();
        v.push(InstallPathStrategy::CargoHome);
        v
    }

    /// Parse the config text of an install path
    pub fn from_str(path: &str) -> (r: DistResult<Self>)
        ensures
            match (r, InstallPathView::parse_spec(path@)) {
                (Ok(v), Ok(w)) => v@ == w,
                (Err(e), Err(kind)) => install_path_error_matches(e, kind, path@),
                _ => false,
            },
    {
        proof {
            reveal_strlit("~/");
            reveal_strlit("$");
            reveal_strlit("CARGO_HOME");
        }
        if str_eq(path, "CARGO_HOME") {
            Ok(InstallPathStrategy::CargoHome)
        } else if let Some(subdir) = str_strip_prefix(path, "~/") {
            assert(path@.skip(2) =~= subdir@);
            if subdir.is_empty() {
                Err(DistError::InstallPathHomeSubdir { path: owned(path) })
            } else {
                // If there's a trailing slash, strip it to be uniform
                Ok(InstallPathStrategy::HomeSubdir { subdir: owned(strip_trailing_slash_str(subdir)) })
            }
        } else if let Some(val) = str_strip_prefix(path, "$") {
            assert(path@.skip(1) =~= val@);
            if let Some((env_key, subdir)) = str_split_once(val, '/') {
                proof {
                    lemma_split_first(val@, '/', env_key@, subdir@);
                }
                Ok(InstallPathStrategy::EnvSubdir {
                    env_key: owned(env_key),
                    // If there's a trailing slash, strip it to be uniform
                    subdir: owned(strip_trailing_slash_str(subdir)),
                })
            } else {
                proof {
                    lemma_split_first_none(val@, '/');
                }
                Err(DistError::InstallPathEnvSlash { path: owned(path) })
            }
        } else {
            Err(DistError::InstallPathInvalid { path: owned(path) })
        }
    }

    /// The config text of this install path
    pub fn to_string(&self) -> (r: String)
        ensures
            r@ == self@.display_spec(),
    {
        match self {
            InstallPathStrategy::CargoHome => owned("CARGO_HOME"),
            InstallPathStrategy::HomeSubdir { subdir } => concat2("~/", subdir.as_str()),
            InstallPathStrategy::EnvSubdir { env_key, subdir } => concat4(
                "$",
                env_key.as_str(),
                "/",
                subdir.as_str(),
            ),
        }
    }

    /// Convert this into a jinja-friendly form
    pub fn into_jinja(self) -> (r: JinjaInstallPathStrategy)
        ensures
            match (self, r) {
                (InstallPathStrategy::CargoHome, JinjaInstallPathStrategy::CargoHome) => true,
                (
                    InstallPathStrategy::HomeSubdir { subdir: a },
                    JinjaInstallPathStrategy::HomeSubdir { subdir: b },
                ) => a == b,
                (
                    InstallPathStrategy::EnvSubdir { env_key: k1, subdir: a },
                    JinjaInstallPathStrategy::EnvSubdir { env_key: k2, subdir: b },
                ) => k1 == k2 && a == b,
                _ => false,
            },
    {
        match self {
            InstallPathStrategy::CargoHome => JinjaInstallPathStrategy::CargoHome,
            InstallPathStrategy::HomeSubdir { subdir } => {
                JinjaInstallPathStrategy::HomeSubdir { subdir }
            },
            InstallPathStrategy::EnvSubdir { env_key, subdir } => {
                JinjaInstallPathStrategy::EnvSubdir { env_key, subdir }
            },
        }
    }
}


/// A GitHub repo like 'axodotdev/axolotlsay'
#[derive(Debug, PartialEq, Eq)]
pub struct GithubRepoPair {
    /// owner (axodotdev)
    pub owner: String,
    /// repo (axolotlsay)
    pub repo: String,
}

impl Clone for GithubRepoPair {
    fn clone(&self) -> (r: Self)
        ensures
            r == *self,
    {
        GithubRepoPair { owner: self.owner.clone(), repo: self.repo.clone() }
    }
}

impl GithubRepoPair {
    /// The `owner/repo` text of a pair
    pub open spec fn display_spec(owner: Seq<char>, repo: Seq<char>) -> Seq<char> {
        owner + "/"@ + repo
    }

    /// Parse `owner/repo`, splitting at the first `/`
    pub fn from_str(pair: &str) -> (r: DistResult<Self>)
        ensures
            match (r, split_first(pair@, '/')) {
                (Ok(v), Some((owner, repo))) => v.owner@ == owner && v.repo@ == repo,
                (Err(e), None) => e matches DistError::GithubRepoPairParse { pair: p } && p@ == pair@,
                _ => false,
            },
    {
        let Some((owner, repo)) = str_split_once(pair, '/') else {
            proof {
                lemma_split_first_none(pair@, '/');
            }
            return Err(DistError::GithubRepoPairParse { pair: owned(pair) });
        };
        proof {
            lemma_split_first(pair@, '/', owner@, repo@);
        }
        Ok(GithubRepoPair { owner: owned(owner), repo: owned(repo) })
    }

    /// The `owner/repo` text of this pair
    pub fn to_string(&self) -> (r: String)
        ensures
            r@ == Self::display_spec(self.owner@, self.repo@),
    {
        concat3(self.owner.as_str(), "/", self.repo.as_str())
    }

    /// Convert this into a jinja-friendly form
    pub fn into_jinja(self) -> (r: JinjaGithubRepoPair)
        ensures
            r.owner == self.owner,
            r.repo == self.repo,
    {
        JinjaGithubRepoPair { owner: self.owner, repo: self.repo }
    }
}


/// Jinja-friendly version of [`GithubRepoPair`][]
#[derive(Debug, Clone)]
pub struct JinjaGithubRepoPair {
    /// owner
    pub owner: String,
    /// repo
    pub repo: String,
}

/// Strategy for install binaries (replica to have different Serialize for jinja)
#[derive(Debug, Clone)]
pub enum JinjaInstallPathStrategy {
    /// install to $CARGO_HOME, falling back to ~/.cargo/
    CargoHome,
    /// install to this subdir of the user's home
    HomeSubdir {
        /// The subdir of home to install to
        subdir: String,
    },
    /// install to this subdir of this env var
    EnvSubdir {
        /// The env var to get the base of the path from
        env_key: String,
        /// The subdir to install to
        subdir: String,
    },
}

/// A checksumming algorithm
#[derive(Debug, Copy, Clone, PartialEq, Eq, Structural)]
pub enum ChecksumStyle {
    /// sha256sum (using the sha2 crate)
    Sha256,
    /// sha512sum (using the sha2 crate)
    Sha512,
    /// sha3-256sum (using the sha3 crate)
    Sha3_256,
    /// sha3-512sum (using the sha3 crate)
    Sha3_512,
    /// b2sum (using the blake2 crate)
    Blake2s,
    /// b2sum (using the blake2 crate)
    Blake2b,
    /// Do not checksum
    False,
}

impl ChecksumStyle {
    /// The extension of this kind of checksum
    pub open spec fn ext_spec(self) -> Seq<char> {
        match self {
            ChecksumStyle::Sha256 => "sha256"@,
            ChecksumStyle::Sha512 => "sha512"@,
            ChecksumStyle::Sha3_256 => "sha3-256"@,
            ChecksumStyle::Sha3_512 => "sha3-512"@,
            ChecksumStyle::Blake2s => "blake2s"@,
            ChecksumStyle::Blake2b => "blake2b"@,
            ChecksumStyle::False => "false"@,
        }
    }

    /// Get the extension of a checksum
    pub fn ext(self) -> (r: &'static str)
        ensures
            r@ == self.ext_spec(),
    {
        match self {
            ChecksumStyle::Sha256 => "sha256",
            ChecksumStyle::Sha512 => "sha512",
            ChecksumStyle::Sha3_256 => "sha3-256",
            ChecksumStyle::Sha3_512 => "sha3-512",
            ChecksumStyle::Blake2s => "blake2s",
            ChecksumStyle::Blake2b => "blake2b",
            ChecksumStyle::False => "false",
        }
    }

    /// The name of this checksum (its extension)
    pub fn to_string(&self) -> (r: String)
        ensures
            r@ == self.ext_spec(),
    {
        owned(self.ext())
    }
}

/// Which style(s) of configuration to generate
#[derive(Copy, Clone, Debug, PartialEq, Eq, Structural)]
pub enum GenerateMode {
    /// Generate CI scripts for orchestrating dist
    Ci,
    /// Generate wsx (WiX) templates for msi installers
    Msi,
}

impl GenerateMode {
    /// The name of this mode
    pub open spec fn display_spec(self) -> Seq<char> {
        match self {
            GenerateMode::Ci => "ci"@,
            GenerateMode::Msi => "msi"@,
        }
    }

    /// The name of this mode
    pub fn to_string(&self) -> (r: String)
        ensures
            r@ == self.display_spec(),
    {
        match self {
            GenerateMode::Ci => owned("ci"),
            GenerateMode::Msi => owned("msi"),
        }
    }
}

/// Arguments to `dist host`
#[derive(Clone, Debug)]
pub struct HostArgs {
    /// Which hosting steps to run
    pub steps: Vec<HostStyle>,
}

/// What parts of hosting to perform
#[derive(Copy, Clone, Debug, PartialEq, Eq, Structural)]
pub enum HostStyle {
    /// Check that hosting API keys are working
    Check,
    /// Create a location to host artifacts
    Create,
    /// Upload artifacts
    Upload,
    /// Release artifacts
    Release,
    /// Announce artifacts
    Announce,
}

impl HostStyle {
    /// The name of this step
    pub open spec fn display_spec(self) -> Seq<char> {
        match self {
            HostStyle::Check => "check"@,
            HostStyle::Create => "create"@,
            HostStyle::Upload => "upload"@,
            HostStyle::Release => "release"@,
            HostStyle::Announce => "announce"@,
        }
    }

    /// The name of this step
    pub fn to_string(&self) -> (r: String)
        ensures
            r@ == self.display_spec(),
    {
        match self {
            HostStyle::Check => owned("check"),
            HostStyle::Create => owned("create"),
            HostStyle::Upload => owned("upload"),
            HostStyle::Release => owned("release"),
            HostStyle::Announce => owned("announce"),
        }
    }
}

/// Configuration for Mac .pkg installers
#[derive(Debug)]
pub struct MacPkgConfig {
    /// A unique identifier, in tld.domain.package format
    pub identifier: Option<String>,
    /// The location to which the software should be installed.
    /// If not specified, /usr/local will be used.
    pub install_location: Option<String>,
}

impl Clone for MacPkgConfig {
    fn clone(&self) -> (r: Self)
        ensures
            r == *self,
    {
        MacPkgConfig {
            identifier: clone_opt_string(&self.identifier),
            install_location: clone_opt_string(&self.install_location),
        }
    }
}

/// System packages by name
pub type DependencyMap = BTreeMap<String, SystemDependency>;

/// Packages to install before build from the system package manager
#[derive(Debug)]
pub struct SystemDependencies {
    /// Packages to install in Homebrew
    pub homebrew: BTreeMap<String, SystemDependency>,
    /// Packages to install in apt
    pub apt: BTreeMap<String, SystemDependency>,
    /// Package to install in Chocolatey
    pub chocolatey: BTreeMap<String, SystemDependency>,
}

impl Default for SystemDependencies {
    fn default() -> (r: Self)
        ensures
            r.homebrew@ == Map::<String, SystemDependency>::empty(),
            r.apt@ == Map::<String, SystemDependency>::empty(),
            r.chocolatey@ == Map::<String, SystemDependency>::empty(),
    {
        SystemDependencies {
            homebrew: BTreeMap::new(),
            apt: BTreeMap::new(),
            chocolatey: BTreeMap::new(),
        }
    }
}

/// `BTreeMap::append`: move every entry of `other` into `map`, the entries
/// of `other` replacing those of `map` with the same key, leaving `other` empty.
#[verifier::external_body]
fn btree_append(dest: &mut DependencyMap, source: &mut DependencyMap)
    ensures
        final(dest)@ == old(dest)@.union_prefer_right(old(source)@),
        final(source)@ =~= Map::empty(),
{
    dest.append(source)
}

impl Clone for SystemDependencies {
    fn clone(&self) -> (r: Self)
        ensures
            r.same_as(*self),
    {
        SystemDependencies {
            homebrew: self.homebrew.clone(),
            apt: self.apt.clone(),
            chocolatey: self.chocolatey.clone(),
        }
    }
}

impl SystemDependencies {
    /// Both list the same packages
    pub open spec fn same_as(self, other: SystemDependencies) -> bool {
        &&& self.homebrew@ == other.homebrew@
        &&& self.apt@ == other.apt@
        &&& self.chocolatey@ == other.chocolatey@
    }

    /// Extends `self` with the elements of `other`.
    pub fn append(&mut self, other: &mut Self)
        ensures
            final(self).homebrew@ == old(self).homebrew@.union_prefer_right(old(other).homebrew@),
            final(self).apt@ == old(self).apt@.union_prefer_right(old(other).apt@),
            final(self).chocolatey@ == old(self).chocolatey@.union_prefer_right(
                old(other).chocolatey@,
            ),
            final(other).homebrew@ == Map::<String, SystemDependency>::empty(),
            final(other).apt@ == Map::<String, SystemDependency>::empty(),
            final(other).chocolatey@ == Map::<String, SystemDependency>::empty(),
    {
        btree_append(&mut self.homebrew, &mut other.homebrew);
        btree_append(&mut self.apt, &mut other.apt);
        btree_append(&mut self.chocolatey, &mut other.chocolatey);
    }
}

/// Represents a package from a system package manager
#[derive(Clone, Debug)]
pub struct SystemDependency(pub SystemDependencyComplex);

/// Backing type for SystemDependency
#[derive(Clone, Debug)]
pub struct SystemDependencyComplex {
    /// The version to install, as expected by the underlying package manager
    pub version: Option<String>,
    /// Stages at which the dependency is required
    pub stage: Vec<DependencyKind>,
    /// One or more targets this package should be installed on; defaults to all targets if not specified
    pub targets: Vec<String>,
}

impl SystemDependencyComplex {
    /// Checks if this dependency should be installed on the specified target.
    pub fn wanted_for_target(&self, target: &str) -> (r: bool)
        ensures
            r == (self.targets@.len() == 0 || exists|i: int|
                0 <= i < self.targets@.len() && #[trigger] self.targets@[i]@ == target@),
    {
        if self.targets.len() == 0 {
            true
        } else {
            let mut i: usize = 0;
            while i < self.targets.len()
                invariant
                    i <= self.targets@.len(),
                    forall|j: int| 0 <= j < i ==> #[trigger] self.targets@[j]@ != target@,
                decreases self.targets.len() - i,
            {
                if str_eq(self.targets[i].as_str(), target) {
                    return true;
                }
                i = i + 1;
            }
            false
        }
    }

    /// Checks if this dependency should used in the specified stage.
    pub fn stage_wanted(&self, stage: &DependencyKind) -> (r: bool)
        ensures
            r == if self.stage@.len() == 0 {
                *stage == DependencyKind::Build
            } else {
                self.stage@.contains(*stage)
            },
    {
        if self.stage.len() == 0 {
            match stage {
                DependencyKind::Build => true,
                DependencyKind::Run => false,
            }
        } else {
            let mut i: usize = 0;
            while i < self.stage.len()
                invariant
                    i <= self.stage@.len(),
                    forall|j: int| 0 <= j < i ==> self.stage@[j] != *stage,
                decreases self.stage.len() - i,
            {
                if self.stage[i] == *stage {
                    assert(self.stage@[i as int] == *stage);
                    return true;
                }
                i = i + 1;
            }
            false
        }
    }
}

/// Definition for a single package
#[derive(Clone, Debug)]
pub enum SystemDependencyKind {
    /// Simple specification format, parsed as cmake = 'version'
    /// The special string "*" is parsed as a None version
    Untagged(String),
    /// Complex specification format
    Tagged(SystemDependencyComplex),
}

impl SystemDependency {
    /// Read a dependency from either of its two config forms
    pub fn from_kind(kind: SystemDependencyKind) -> (r: Self)
        ensures
            match kind {
                SystemDependencyKind::Untagged(version) => {
                    &&& (version@ == "*"@ ==> r.0.version is None)
                    &&& (version@ != "*"@ ==> r.0.version == Some(version))
                    &&& r.0.stage@.len() == 0
                    &&& r.0.targets@.len() == 0
                },
                SystemDependencyKind::Tagged(dep) => r.0 == dep,
            },
    {
        let res = match kind {
            SystemDependencyKind::Untagged(version) => {
                let v = if str_eq(version.as_str(), "*") {
                    None
                } else {
                    Some(version)
                };
                SystemDependencyComplex { version: v, stage: Vec::new(), targets: Vec::new() }
            },
            SystemDependencyKind::Tagged(dep) => dep,
        };
        SystemDependency(res)
    }
}

/// Provides detail on when a specific dependency is required
#[derive(Clone, Copy, Debug, PartialEq, Eq, Structural)]
pub enum DependencyKind {
    /// A dependency that must be present when the software is being built
    Build,
    /// A dependency that must be present when the software is being used
    Run,
}

impl DependencyKind {
    /// The name of this stage
    pub open spec fn display_spec(self) -> Seq<char> {
        match self {
            DependencyKind::Build => "build"@,
            DependencyKind::Run => "run"@,
        }
    }

    /// The name of this stage
    pub fn to_string(&self) -> (r: String)
        ensures
            r@ == self.display_spec(),
    {
        match self {
            DependencyKind::Build => owned("build"),
            DependencyKind::Run => owned("run"),
        }
    }
}

/// Settings for which Generate targets can be dirty
#[derive(Debug, Clone)]
pub enum DirtyMode {
    /// Allow only these targets
    AllowList(Vec<GenerateMode>),
    /// Allow all targets
    AllowAll,
}

impl DirtyMode {
    /// Whether a generate mode must be checked for dirtiness
    pub open spec fn should_run_spec(self, mode: GenerateMode) -> bool {
        match self {
            DirtyMode::AllowAll => false,
            DirtyMode::AllowList(list) => !list@.contains(mode),
        }
    }

    /// Do we need to run this Generate Mode
    pub fn should_run(&self, mode: GenerateMode) -> (r: bool)
        ensures
            r == self.should_run_spec(mode),
    {
        match self {
            DirtyMode::AllowAll => false,
            DirtyMode::AllowList(list) => {
                let mut i: usize = 0;
                while i < list.len()
                    invariant
                        i <= list@.len(),
                        self.should_run_spec(mode) == !list@.contains(mode),
                        forall|j: int| 0 <= j < i ==> list@[j] != mode,
                    decreases list.len() - i,
                {
                    if list[i] == mode {
                        assert(list@[i as int] == mode);
                        assert(list@.contains(mode));
                        return false;
                    }
                    i = i + 1;
                }
                true
            },
        }
    }
}

/// For features that can be generated in "test" or "production" mode
#[derive(Debug, Clone, Copy, PartialEq, Eq, Structural)]
pub enum ProductionMode {
    /// test mode
    Test,
    /// production mode
    Prod,
}

impl ProductionMode {
    /// The name of this mode
    pub open spec fn display_spec(self) -> Seq<char> {
        match self {
            ProductionMode::Test => "test"@,
            ProductionMode::Prod => "prod"@,
        }
    }

    /// The name of this mode
    pub fn to_string(&self) -> (r: String)
        ensures
            r@ == self.display_spec(),
    {
        match self {
            ProductionMode::Test => owned("test"),
            ProductionMode::Prod => owned("prod"),
        }
    }
}

/// Which actions to run on pull requests
#[derive(Debug, Copy, Clone, PartialEq, Eq, Structural)]
pub enum PrRunMode {
    /// Do not run on pull requests at all
    Skip,
    /// Only run the plan step
    Plan,
    /// Build and upload artifacts
    Upload,
}

impl PrRunMode {
    /// The name of this mode
    pub open spec fn display_spec(self) -> Seq<char> {
        match self {
            PrRunMode::Skip => "skip"@,
            PrRunMode::Plan => "plan"@,
            PrRunMode::Upload => "upload"@,
        }
    }

    /// The name of this mode
    pub fn to_string(&self) -> (r: String)
        ensures
            r@ == self.display_spec(),
    {
        match self {
            PrRunMode::Skip => owned("skip"),
            PrRunMode::Plan => owned("plan"),
            PrRunMode::Upload => owned("upload"),
        }
    }
}

impl Default for PrRunMode {
    fn default() -> (r: Self)
        ensures
            r == PrRunMode::Plan,
    {
        PrRunMode::Plan
    }
}

/// An extra artifact to upload alongside the release tarballs,
/// and the build command which produces it.
#[derive(Debug)]
pub struct ExtraArtifact {
    /// The working dir to run the command in
    ///
    /// If blank, the directory of the manifest that defines this is used.
    pub working_dir: String,
    /// The build command to invoke in the working_dir
    pub command: Vec<String>,
    /// Relative paths (from the working_dir) to artifacts that should be included
    pub artifact_relpaths: Vec<String>,
}

impl ExtraArtifact {
    /// Both describe the same artifact
    pub open spec fn same_as(self, other: ExtraArtifact) -> bool {
        &&& self.working_dir == other.working_dir
        &&& self.command@ == other.command@
        &&& self.artifact_relpaths@ == other.artifact_relpaths@
    }
}

impl Clone for ExtraArtifact {
    fn clone(&self) -> (r: Self)
        ensures
            r.same_as(*self),
    {
        ExtraArtifact {
            working_dir: self.working_dir.clone(),
            command: clone_strings(&self.command),
            artifact_relpaths: clone_strings(&self.artifact_relpaths),
        }
    }
}

/// Both lists describe the same artifacts, in the same order
pub open spec fn same_extras(a: Seq<ExtraArtifact>, b: Seq<ExtraArtifact>) -> bool {
    &&& a.len() == b.len()
    &&& forall|i: int| 0 <= i < a.len() ==> (#[trigger] a[i]).same_as(b[i])
}

/// A copy of a list of extra artifacts
pub fn clone_extras(v: &Vec<ExtraArtifact>) -> (r: Vec<ExtraArtifact>)
    ensures
        same_extras(r@, v@),
{
    let mut out: Vec<ExtraArtifact> = Vec::new();
    let mut i: usize = 0;
    while i < v.len()
        invariant
            i <= v.len(),
            same_extras(out@, v@.take(i as int)),
        decreases v.len() - i,
    {
        out.push(v[i].clone());
        i = i + 1;
    }
    assert(v@.take(v.len() as int) == v@);
    out
}

/// A copy of a list of plain values
pub fn copy_list<T: Copy>(v: &Vec<T>) -> (r: Vec<T>)
    ensures
        r@ == v@,
{
    let mut out: Vec<T> = Vec::new();
    let mut i: usize = 0;
    while i < v.len()
        invariant
            i <= v.len(),
            out@ == v@.take(i as int),
        decreases v.len() - i,
    {
        out.push(v[i]);
        i = i + 1;
    }
    assert(v@.take(v.len() as int) == v@);
    out
}

/// A copy of a list of publish jobs
pub fn clone_publish_styles(v: &Vec<PublishStyle>) -> (r: Vec<PublishStyle>)
    ensures
        r@ == v@,
{
    let mut out: Vec<PublishStyle> = Vec::new();
    let mut i: usize = 0;
    while i < v.len()
        invariant
            i <= v.len(),
            out@ == v@.take(i as int),
        decreases v.len() - i,
    {
        out.push(v[i].clone());
        i = i + 1;
    }
    assert(v@.take(v.len() as int) == v@);
    out
}

/// Whether a path is the empty path (and so is left out when written back)
pub fn path_is_empty(p: &String) -> (r: bool)
    ensures
        r == (p@.len() == 0),
{
    p.as_str().is_empty()
}

} // verus!
