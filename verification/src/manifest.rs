//! The artifact entries of the machine-readable dist manifest: what each
//! artifact contains (its assets, ordered by name), how it is installed, and
//! which release lists it.

use vstd::prelude::*;

use crate::platform::strings_view;
use crate::strings::{clone_opt_string, clone_string, clone_strings, owned, str_eq, str_lt, text_lt};

verus! {

/// The kind of a binary that a build produces
#[derive(Debug, Clone, Copy, PartialEq, Eq, Structural)]
pub enum BinaryKind {
    /// An executable
    Executable,
    /// A C dynamic library
    DynamicLibrary,
    /// A C static library
    StaticLibrary,
}

/// What the manifest needs to know of a binary that an artifact contains
#[derive(Debug)]
pub struct BinaryFacts {
    /// The binary's unique id
    pub id: String,
    /// The binary's name
    pub name: String,
    /// What kind of binary it is
    pub kind: BinaryKind,
    /// The id of the artifact holding its debug symbols, if any
    pub symbols_artifact: Option<String>,
}

/// The kind of a file that is copied into an archive from the project
#[derive(Debug, Clone, Copy, PartialEq, Eq, Structural)]
pub enum StaticAssetKind {
    /// A changelog
    Changelog,
    /// A license
    License,
    /// A readme
    Readme,
    /// Anything else
    Other,
}

/// The kind of an installer, with what the manifest says of it
#[derive(Debug)]
pub enum InstallerFacts {
    /// A PowerShell script
    Powershell {
        /// The command that runs it
        hint: String,
        /// What it is
        desc: String,
    },
    /// A shell script
    Shell {
        /// The command that runs it
        hint: String,
        /// What it is
        desc: String,
    },
    /// A Homebrew formula
    Homebrew {
        /// The command that runs it
        hint: String,
        /// What it is
        desc: String,
    },
    /// An npm package
    Npm {
        /// The command that runs it
        hint: String,
        /// What it is
        desc: String,
    },
    /// A Windows msi
    Msi,
    /// A macOS pkg
    Pkg,
}

/// The kind of an artifact that a build produces
#[derive(Debug)]
pub enum ArtifactKindFacts {
    /// An archive of executables
    ExecutableZip,
    /// Debug symbols
    Symbols,
    /// An installer
    Installer(InstallerFacts),
    /// A checksum of another artifact
    Checksum,
    /// A source tarball
    SourceTarball,
    /// An extra artifact that the user's build makes
    ExtraArtifact,
    /// An updater executable
    Updater,
}

/// What the manifest needs to know of an artifact
#[derive(Debug)]
pub struct ArtifactFacts {
    /// The artifact's unique id
    pub id: String,
    /// Where the artifact is written on this machine
    pub file_path: String,
    /// The target triples the artifact is for
    pub target_triples: Vec<String>,
    /// What kind of artifact it is
    pub kind: ArtifactKindFacts,
    /// The binaries it contains: an index into the binaries, and the file
    /// name of the binary inside the artifact
    pub required_binaries: Vec<(usize, String)>,
    /// The files of the project that its archive contains, by kind and file
    /// name (none where it is no archive)
    pub static_assets: Vec<(StaticAssetKind, String)>,
    /// The id of the artifact that holds its checksum, if any
    pub checksum: Option<String>,
}

/// The kind of an asset inside an artifact
#[derive(Debug)]
pub enum AssetKind {
    /// An executable, with the id of its symbols artifact if any
    Executable {
        /// The artifact holding its debug symbols
        symbols_artifact: Option<String>,
    },
    /// A C dynamic library, with the id of its symbols artifact if any
    CDynamicLibrary {
        /// The artifact holding its debug symbols
        symbols_artifact: Option<String>,
    },
    /// A C static library, with the id of its symbols artifact if any
    CStaticLibrary {
        /// The artifact holding its debug symbols
        symbols_artifact: Option<String>,
    },
    /// A changelog
    Changelog,
    /// A license
    License,
    /// A readme
    Readme,
    /// Anything else
    Unknown,
}

/// An asset inside an artifact, as the manifest lists it
#[derive(Debug)]
pub struct ManifestAsset {
    /// The id of the binary it is, if it is one
    pub id: Option<String>,
    /// Its name
    pub name: Option<String>,
    /// Its path inside the artifact
    pub path: Option<String>,
    /// What kind of asset it is
    pub kind: AssetKind,
}

/// The kind of an artifact, as the manifest lists it
#[derive(Debug, Clone, Copy, PartialEq, Eq, Structural)]
pub enum ManifestArtifactKind {
    /// An archive of executables
    ExecutableZip,
    /// Debug symbols
    Symbols,
    /// An installer
    Installer,
    /// A checksum
    Checksum,
    /// A source tarball
    SourceTarball,
    /// An extra artifact
    ExtraArtifact,
    /// An updater
    Updater,
}

/// An artifact entry of the manifest
#[derive(Debug)]
pub struct ManifestArtifact {
    /// The artifact's id
    pub name: Option<String>,
    /// Where it is on this machine (left out where local paths are not
    /// recorded)
    pub path: Option<String>,
    /// The target triples it is for
    pub target_triples: Vec<String>,
    /// The command that installs it
    pub install_hint: Option<String>,
    /// What it is
    pub description: Option<String>,
    /// What it contains, ordered by name
    pub assets: Vec<ManifestAsset>,
    /// What kind of artifact it is
    pub kind: ManifestArtifactKind,
    /// The id of the artifact that holds its checksum
    pub checksum: Option<String>,
}

/// A manifest artifact entry, with its lists as sequences and its
/// description as text
pub struct ManifestArtifactView {
    pub name: Option<String>,
    pub path: Option<String>,
    pub target_triples: Seq<String>,
    pub install_hint: Option<String>,
    pub description: Option<Seq<char>>,
    pub assets: Seq<ManifestAsset>,
    pub kind: ManifestArtifactKind,
    pub checksum: Option<String>,
}

impl View for ManifestArtifact {
    type V = ManifestArtifactView;

    open spec fn view(&self) -> ManifestArtifactView {
        ManifestArtifactView {
            name: self.name,
            path: self.path,
            target_triples: self.target_triples@,
            install_hint: self.install_hint,
            description: match self.description {
                Some(d) => Some(d@),
                None => None,
            },
            assets: self.assets@,
            kind: self.kind,
            checksum: self.checksum,
        }
    }
}

// ---------------------------------------------------------------------------
// What the entry holds

/// The asset for a binary, copied to the root of the artifact as `file_name`
pub open spec fn built_asset(b: BinaryFacts, file_name: String) -> ManifestAsset {
    ManifestAsset {
        id: Some(b.id),
        name: Some(b.name),
        path: Some(file_name),
        kind: match b.kind {
            BinaryKind::Executable => AssetKind::Executable { symbols_artifact: b.symbols_artifact },
            BinaryKind::DynamicLibrary => AssetKind::CDynamicLibrary {
                symbols_artifact: b.symbols_artifact,
            },
            BinaryKind::StaticLibrary => AssetKind::CStaticLibrary {
                symbols_artifact: b.symbols_artifact,
            },
        },
    }
}

/// The asset for a file of the project, named and placed by its file name
pub open spec fn static_asset(kind: StaticAssetKind, file_name: String) -> ManifestAsset {
    ManifestAsset {
        id: None,
        name: Some(file_name),
        path: Some(file_name),
        kind: match kind {
            StaticAssetKind::Changelog => AssetKind::Changelog,
            StaticAssetKind::License => AssetKind::License,
            StaticAssetKind::Readme => AssetKind::Readme,
            StaticAssetKind::Other => AssetKind::Unknown,
        },
    }
}

/// The asset for a file that the npm package template generates, given by
/// its name and its path inside the package
pub open spec fn template_asset(file: (String, String)) -> ManifestAsset {
    ManifestAsset { id: None, name: Some(file.0), path: Some(file.1), kind: AssetKind::Unknown }
}

/// The assets for the binaries an artifact contains
pub open spec fn built_assets(required: Seq<(usize, String)>, binaries: Seq<BinaryFacts>) -> Seq<
    ManifestAsset,
> {
    required.map_values(|r: (usize, String)| built_asset(binaries[r.0 as int], r.1))
}

/// The assets for the files of the project an archive contains
pub open spec fn static_assets(files: Seq<(StaticAssetKind, String)>) -> Seq<ManifestAsset> {
    files.map_values(|f: (StaticAssetKind, String)| static_asset(f.0, f.1))
}

/// The assets for the files the npm package template generates
pub open spec fn template_assets(files: Seq<(String, String)>) -> Seq<ManifestAsset> {
    files.map_values(|f: (String, String)| template_asset(f))
}

/// Whether the artifact is an npm package
pub open spec fn is_npm_installer(kind: ArtifactKindFacts) -> bool {
    kind matches ArtifactKindFacts::Installer(InstallerFacts::Npm { .. })
}

/// The assets of an artifact before ordering: its binaries, then the files
/// of its archive, then (for an npm package) the template's files
pub open spec fn gathered_assets(
    artifact: ArtifactFacts,
    binaries: Seq<BinaryFacts>,
    template_files: Seq<(String, String)>,
) -> Seq<ManifestAsset> {
    built_assets(artifact.required_binaries@, binaries) + static_assets(artifact.static_assets@) + (
    if is_npm_installer(artifact.kind) {
        template_assets(template_files)
    } else {
        Seq::empty()
    })
}

/// Names in order: no name first, then names in the order of text
pub open spec fn name_before(a: Option<String>, b: Option<String>) -> bool {
    match (a, b) {
        (None, Some(_)) => true,
        (Some(x), Some(y)) => text_lt(x@, y@),
        _ => false,
    }
}

/// Where asset `e` goes in a list ordered by name: after every asset whose
/// name does not come after its own
pub open spec fn asset_pos(sorted: Seq<ManifestAsset>, e: ManifestAsset) -> int
    decreases sorted.len(),
{
    if sorted.len() == 0 {
        0
    } else if name_before(e.name, sorted[0].name) {
        0
    } else {
        1 + asset_pos(sorted.skip(1), e)
    }
}

/// The assets ordered by name, assets of the same name keeping their order
pub open spec fn assets_by_name(s: Seq<ManifestAsset>) -> Seq<ManifestAsset>
    decreases s.len(),
{
    if s.len() == 0 {
        Seq::empty()
    } else {
        let sorted = assets_by_name(s.drop_last());
        sorted.insert(asset_pos(sorted, s.last()), s.last())
    }
}

/// The command that installs an artifact: that of a script, formula or npm
/// package installer
pub open spec fn install_hint_of(kind: ArtifactKindFacts) -> Option<String> {
    match kind {
        ArtifactKindFacts::Installer(InstallerFacts::Powershell { hint, .. }) => Some(hint),
        ArtifactKindFacts::Installer(InstallerFacts::Shell { hint, .. }) => Some(hint),
        ArtifactKindFacts::Installer(InstallerFacts::Homebrew { hint, .. }) => Some(hint),
        ArtifactKindFacts::Installer(InstallerFacts::Npm { hint, .. }) => Some(hint),
        _ => None,
    }
}

/// What an artifact is: said by each installer, none for the others
pub open spec fn description_of(kind: ArtifactKindFacts) -> Option<Seq<char>> {
    match kind {
        ArtifactKindFacts::Installer(InstallerFacts::Powershell { desc, .. }) => Some(desc@),
        ArtifactKindFacts::Installer(InstallerFacts::Shell { desc, .. }) => Some(desc@),
        ArtifactKindFacts::Installer(InstallerFacts::Homebrew { desc, .. }) => Some(desc@),
        ArtifactKindFacts::Installer(InstallerFacts::Npm { desc, .. }) => Some(desc@),
        ArtifactKindFacts::Installer(InstallerFacts::Msi) => Some("install via msi"@),
        ArtifactKindFacts::Installer(InstallerFacts::Pkg) => Some("install via pkg"@),
        _ => None,
    }
}

/// The kind the manifest lists an artifact under
pub open spec fn listed_kind(kind: ArtifactKindFacts) -> ManifestArtifactKind {
    match kind {
        ArtifactKindFacts::ExecutableZip => ManifestArtifactKind::ExecutableZip,
        ArtifactKindFacts::Symbols => ManifestArtifactKind::Symbols,
        ArtifactKindFacts::Installer(_) => ManifestArtifactKind::Installer,
        ArtifactKindFacts::Checksum => ManifestArtifactKind::Checksum,
        ArtifactKindFacts::SourceTarball => ManifestArtifactKind::SourceTarball,
        ArtifactKindFacts::ExtraArtifact => ManifestArtifactKind::ExtraArtifact,
        ArtifactKindFacts::Updater => ManifestArtifactKind::Updater,
    }
}

/// The manifest entry of an artifact
pub open spec fn manifest_artifact_spec(
    artifact: ArtifactFacts,
    binaries: Seq<BinaryFacts>,
    template_files: Seq<(String, String)>,
    no_local_paths: bool,
) -> ManifestArtifactView {
    ManifestArtifactView {
        name: Some(artifact.id),
        path: if no_local_paths {
            None
        } else {
            Some(artifact.file_path)
        },
        target_triples: artifact.target_triples@,
        install_hint: install_hint_of(artifact.kind),
        description: description_of(artifact.kind),
        assets: assets_by_name(gathered_assets(artifact, binaries, template_files)),
        kind: listed_kind(artifact.kind),
        checksum: artifact.checksum,
    }
}

/// Every binary an artifact contains is one of the binaries
pub open spec fn binaries_known(artifact: ArtifactFacts, binaries: Seq<BinaryFacts>) -> bool {
    forall|k: int|
        0 <= k < artifact.required_binaries@.len() ==> (#[trigger] artifact.required_binaries@[k]).0
            < binaries.len()
}

// ---------------------------------------------------------------------------
// Computing it

/// The position of an asset is the first asset whose name comes after its own
proof fn lemma_asset_pos_first(s: Seq<ManifestAsset>, e: ManifestAsset, j: int)
    requires
        0 <= j <= s.len(),
        forall|k: int| 0 <= k < j ==> !name_before(e.name, (#[trigger] s[k]).name),
        j == s.len() || name_before(e.name, s[j].name),
    ensures
        asset_pos(s, e) == j,
    decreases s.len(),
{
    if s.len() > 0 && j > 0 {
        assert(!name_before(e.name, s[0].name));
        let rest = s.skip(1);
        assert forall|k: int| 0 <= k < j - 1 implies !name_before(e.name, (#[trigger] rest[k]).name) by {
            assert(rest[k] == s[k + 1]);
        }
        if j < s.len() {
            assert(rest[j - 1] == s[j]);
        }
        lemma_asset_pos_first(rest, e, j - 1);
    }
}

fn name_comes_before(a: &Option<String>, b: &Option<String>) -> (r: bool)
    ensures
        r == name_before(*a, *b),
{
    match a {
        None => b.is_some(),
        Some(x) => match b {
            None => false,
            Some(y) => str_lt(x.as_str(), y.as_str()),
        },
    }
}

fn clone_asset_kind(k: &AssetKind) -> (r: AssetKind)
    ensures
        r == *k,
{
    match k {
        AssetKind::Executable { symbols_artifact } => AssetKind::Executable {
            symbols_artifact: clone_opt_string(symbols_artifact),
        },
        AssetKind::CDynamicLibrary { symbols_artifact } => AssetKind::CDynamicLibrary {
            symbols_artifact: clone_opt_string(symbols_artifact),
        },
        AssetKind::CStaticLibrary { symbols_artifact } => AssetKind::CStaticLibrary {
            symbols_artifact: clone_opt_string(symbols_artifact),
        },
        AssetKind::Changelog => AssetKind::Changelog,
        AssetKind::License => AssetKind::License,
        AssetKind::Readme => AssetKind::Readme,
        AssetKind::Unknown => AssetKind::Unknown,
    }
}

fn clone_asset(a: &ManifestAsset) -> (r: ManifestAsset)
    ensures
        r == *a,
{
    ManifestAsset {
        id: clone_opt_string(&a.id),
        name: clone_opt_string(&a.name),
        path: clone_opt_string(&a.path),
        kind: clone_asset_kind(&a.kind),
    }
}

/// The assets ordered by name; assets of the same name keep their order
pub fn sort_assets_by_name(assets: &Vec<ManifestAsset>) -> (r: Vec<ManifestAsset>)
    ensures
        r@ == assets_by_name(assets@),
{
    let mut out: Vec<ManifestAsset> = Vec::new();
    let mut i: usize = 0;
    while i < assets.len()
        invariant
            i <= assets@.len(),
            out@ == assets_by_name(assets@.take(i as int)),
        decreases assets.len() - i,
    {
        let e = clone_asset(&assets[i]);
        let ghost before = out@;
        proof {
            assert(assets@.take(i + 1).drop_last() == assets@.take(i as int));
            assert(assets@.take(i + 1).last() == e);
        }
        let mut j: usize = 0;
        loop
            invariant_except_break
                j <= out@.len(),
                forall|k: int| 0 <= k < j ==> !name_before(e.name, (#[trigger] before[k]).name),
            invariant
                out@ == before,
            ensures
                j <= before.len(),
                forall|k: int| 0 <= k < j ==> !name_before(e.name, (#[trigger] before[k]).name),
                j == before.len() || name_before(e.name, before[j as int].name),
            decreases out.len() - j,
        {
            if j >= out.len() {
                break ;
            }
            if name_comes_before(&e.name, &out[j].name) {
                break ;
            }
            j = j + 1;
        }
        proof {
            lemma_asset_pos_first(before, e, j as int);
        }
        out.insert(j, e);
        i = i + 1;
    }
    assert(assets@.take(assets@.len() as int) == assets@);
    out
}

fn built_asset_of(b: &BinaryFacts, file_name: &String) -> (r: ManifestAsset)
    ensures
        r == built_asset(*b, *file_name),
{
    let symbols_artifact = clone_opt_string(&b.symbols_artifact);
    let kind = match b.kind {
        BinaryKind::Executable => AssetKind::Executable { symbols_artifact },
        BinaryKind::DynamicLibrary => AssetKind::CDynamicLibrary { symbols_artifact },
        BinaryKind::StaticLibrary => AssetKind::CStaticLibrary { symbols_artifact },
    };
    ManifestAsset {
        id: Some(clone_string(&b.id)),
        name: Some(clone_string(&b.name)),
        path: Some(clone_string(file_name)),
        kind,
    }
}

fn static_asset_of(kind: StaticAssetKind, file_name: &String) -> (r: ManifestAsset)
    ensures
        r == static_asset(kind, *file_name),
{
    let kind = match kind {
        StaticAssetKind::Changelog => AssetKind::Changelog,
        StaticAssetKind::License => AssetKind::License,
        StaticAssetKind::Readme => AssetKind::Readme,
        StaticAssetKind::Other => AssetKind::Unknown,
    };
    ManifestAsset {
        id: None,
        name: Some(clone_string(file_name)),
        path: Some(clone_string(file_name)),
        kind,
    }
}

/// The assets of an artifact before ordering: its binaries, then the files
/// of its archive, then (for an npm package) the template's files
pub fn gather_assets(
    artifact: &ArtifactFacts,
    binaries: &Vec<BinaryFacts>,
    template_files: &Vec<(String, String)>,
) -> (r: Vec<ManifestAsset>)
    requires
        binaries_known(*artifact, binaries@),
    ensures
        r@ == gathered_assets(*artifact, binaries@, template_files@),
{
    let ghost built = built_assets(artifact.required_binaries@, binaries@);
    let ghost statics = static_assets(artifact.static_assets@);
    let mut out: Vec<ManifestAsset> = Vec::new();
    let mut i: usize = 0;
    while i < artifact.required_binaries.len()
        invariant
            i <= artifact.required_binaries@.len(),
            binaries_known(*artifact, binaries@),
            built == built_assets(artifact.required_binaries@, binaries@),
            out@ == built.take(i as int),
        decreases artifact.required_binaries.len() - i,
    {
        let idx = artifact.required_binaries[i].0;
        assert(idx == artifact.required_binaries@[i as int].0);
        let a = built_asset_of(&binaries[idx], &artifact.required_binaries[i].1);
        out.push(a);
        assert(out@ =~= built.take(i + 1));
        i = i + 1;
    }
    assert(out@ =~= built);
    let mut i: usize = 0;
    while i < artifact.static_assets.len()
        invariant
            i <= artifact.static_assets@.len(),
            statics == static_assets(artifact.static_assets@),
            out@ == built + statics.take(i as int),
        decreases artifact.static_assets.len() - i,
    {
        let a = static_asset_of(artifact.static_assets[i].0, &artifact.static_assets[i].1);
        out.push(a);
        assert(out@ =~= built + statics.take(i + 1));
        i = i + 1;
    }
    assert(out@ =~= built + statics);
    let is_npm = match &artifact.kind {
        ArtifactKindFacts::Installer(InstallerFacts::Npm { .. }) => true,
        _ => false,
    };
    if is_npm {
        let ghost files = template_assets(template_files@);
        let mut i: usize = 0;
        while i < template_files.len()
            invariant
                i <= template_files@.len(),
                files == template_assets(template_files@),
                out@ == built + statics + files.take(i as int),
            decreases template_files.len() - i,
        {
            let a = ManifestAsset {
                id: None,
                name: Some(clone_string(&template_files[i].0)),
                path: Some(clone_string(&template_files[i].1)),
                kind: AssetKind::Unknown,
            };
            out.push(a);
            assert(out@ =~= built + statics + files.take(i + 1));
            i = i + 1;
        }
        assert(out@ =~= built + statics + files);
    } else {
        assert(out@ =~= built + statics + Seq::<ManifestAsset>::empty());
    }
    out
}

/// The manifest entry of an artifact: its id, its local path unless local
/// paths are left out, its targets, the install hint and description its
/// kind gives, its assets (binaries, archive files and, for an npm package,
/// the template's files) ordered by name, its kind and its checksum
/// artifact.
pub fn manifest_artifact(
    artifact: &ArtifactFacts,
    binaries: &Vec<BinaryFacts>,
    npm_template_files: &Vec<(String, String)>,
    no_local_paths: bool,
) -> (r: ManifestArtifact)
    requires
        binaries_known(*artifact, binaries@),
    ensures
        r@ == manifest_artifact_spec(*artifact, binaries@, npm_template_files@, no_local_paths),
{
    let gathered = gather_assets(artifact, binaries, npm_template_files);
    let assets = sort_assets_by_name(&gathered);
    let (install_hint, description, kind) = match &artifact.kind {
        ArtifactKindFacts::ExecutableZip => (None, None, ManifestArtifactKind::ExecutableZip),
        ArtifactKindFacts::Symbols => (None, None, ManifestArtifactKind::Symbols),
        ArtifactKindFacts::Installer(InstallerFacts::Powershell { hint, desc })
        | ArtifactKindFacts::Installer(InstallerFacts::Shell { hint, desc })
        | ArtifactKindFacts::Installer(InstallerFacts::Homebrew { hint, desc })
        | ArtifactKindFacts::Installer(InstallerFacts::Npm { hint, desc }) => (
            Some(clone_string(hint)),
            Some(clone_string(desc)),
            ManifestArtifactKind::Installer,
        ),
        ArtifactKindFacts::Installer(InstallerFacts::Msi) => (
            None,
            Some(owned("install via msi")),
            ManifestArtifactKind::Installer,
        ),
        ArtifactKindFacts::Installer(InstallerFacts::Pkg) => (
            None,
            Some(owned("install via pkg")),
            ManifestArtifactKind::Installer,
        ),
        ArtifactKindFacts::Checksum => (None, None, ManifestArtifactKind::Checksum),
        ArtifactKindFacts::SourceTarball => (None, None, ManifestArtifactKind::SourceTarball),
        ArtifactKindFacts::ExtraArtifact => (None, None, ManifestArtifactKind::ExtraArtifact),
        ArtifactKindFacts::Updater => (None, None, ManifestArtifactKind::Updater),
    };
    let path = if no_local_paths {
        None
    } else {
        Some(clone_string(&artifact.file_path))
    };
    let r = ManifestArtifact {
        name: Some(clone_string(&artifact.id)),
        path,
        target_triples: clone_strings(&artifact.target_triples),
        install_hint,
        description,
        assets,
        kind,
        checksum: clone_opt_string(&artifact.checksum),
    };
    assert(r@.target_triples =~= artifact.target_triples@);
    r
}

/// List an artifact under its release, once: its id is added at the end
/// unless the release lists it already
pub fn add_release_artifact(artifacts: &mut Vec<String>, id: &String)
    ensures
        strings_view(final(artifacts)@) == if strings_view(old(artifacts)@).contains(id@) {
            strings_view(old(artifacts)@)
        } else {
            strings_view(old(artifacts)@).push(id@)
        },
{
    let ghost names = strings_view(artifacts@);
    let mut i: usize = 0;
    while i < artifacts.len()
        invariant
            i <= artifacts@.len(),
            names == strings_view(artifacts@),
            forall|k: int| 0 <= k < i ==> names[k] != id@,
        decreases artifacts.len() - i,
    {
        if str_eq(artifacts[i].as_str(), id.as_str()) {
            assert(names[i as int] == id@);
            return ;
        }
        i = i + 1;
    }
    assert(!names.contains(id@));
    artifacts.push(clone_string(id));
    assert(strings_view(artifacts@) =~= names.push(id@));
}


// ---------------------------------------------------------------------------
// Merging entries from other machines

/// Two optional paths are the same path
pub open spec fn same_path(a: Option<String>, b: Option<String>) -> bool {
    match (a, b) {
        (None, None) => true,
        (Some(x), Some(y)) => x@ == y@,
        _ => false,
    }
}

/// The first asset at `path`, or -1 where none is
pub open spec fn asset_at_path(assets: Seq<ManifestAsset>, path: Option<String>) -> int
    decreases assets.len(),
{
    if assets.len() == 0 {
        -1
    } else if same_path(assets[0].path, path) {
        0
    } else {
        let k = asset_at_path(assets.skip(1), path);
        if k < 0 {
            -1
        } else {
            k + 1
        }
    }
}

/// One asset merged into the assets: where an asset at its path is listed
/// already, that one takes its id if it has one; else it is added at the end
pub open spec fn merge_asset(assets: Seq<ManifestAsset>, a: ManifestAsset) -> Seq<ManifestAsset> {
    let k = asset_at_path(assets, a.path);
    if k < 0 {
        assets.push(a)
    } else if a.id is Some {
        assets.update(
            k,
            ManifestAsset { id: a.id, name: assets[k].name, path: assets[k].path, kind: assets[k].kind },
        )
    } else {
        assets
    }
}

/// The incoming assets merged into the assets, one after the other
pub open spec fn merged_assets(assets: Seq<ManifestAsset>, incoming: Seq<ManifestAsset>) -> Seq<
    ManifestAsset,
>
    decreases incoming.len(),
{
    if incoming.len() == 0 {
        assets
    } else {
        merged_assets(merge_asset(assets, incoming[0]), incoming.skip(1))
    }
}

/// The first asset at a path is the first one whose path it is
pub(crate) proof fn lemma_asset_at_path_first(assets: Seq<ManifestAsset>, path: Option<String>, j: int)
    requires
        0 <= j <= assets.len(),
        forall|k: int| 0 <= k < j ==> !same_path((#[trigger] assets[k]).path, path),
        j == assets.len() || same_path(assets[j].path, path),
    ensures
        asset_at_path(assets, path) == if j == assets.len() {
            -1
        } else {
            j
        },
    decreases assets.len(),
{
    if assets.len() > 0 && j > 0 {
        assert(!same_path(assets[0].path, path));
        let rest = assets.skip(1);
        assert forall|k: int| 0 <= k < j - 1 implies !same_path((#[trigger] rest[k]).path, path) by {
            assert(rest[k] == assets[k + 1]);
        }
        if j < assets.len() {
            assert(rest[j - 1] == assets[j]);
        }
        lemma_asset_at_path_first(rest, path, j - 1);
    }
}

fn same_path_of(a: &Option<String>, b: &Option<String>) -> (r: bool)
    ensures
        r == same_path(*a, *b),
{
    match a {
        None => b.is_none(),
        Some(x) => match b {
            None => false,
            Some(y) => str_eq(x.as_str(), y.as_str()),
        },
    }
}

/// Merge the assets of the same artifact listed by another machine: an
/// asset at a path listed already gives it its id (where it has one), the
/// others are added at the end
pub fn merge_assets(assets: &mut Vec<ManifestAsset>, incoming: &Vec<ManifestAsset>)
    ensures
        final(assets)@ == merged_assets(old(assets)@, incoming@),
{
    let ghost goal = merged_assets(assets@, incoming@);
    let mut i: usize = 0;
    assert(incoming@.skip(0) =~= incoming@);
    while i < incoming.len()
        invariant
            i <= incoming@.len(),
            merged_assets(assets@, incoming@.skip(i as int)) == goal,
        decreases incoming.len() - i,
    {
        let a = &incoming[i];
        let ghost rest = incoming@.skip(i as int);
        assert(rest[0] == *a);
        assert(rest.skip(1) =~= incoming@.skip(i + 1));
        let mut j: usize = 0;
        while j < assets.len()
            invariant_except_break
                forall|k: int| 0 <= k < j ==> !same_path((#[trigger] assets@[k]).path, a.path),
            invariant
                j <= assets@.len(),
            ensures
                j <= assets@.len(),
                forall|k: int| 0 <= k < j ==> !same_path((#[trigger] assets@[k]).path, a.path),
                j == assets@.len() || same_path(assets@[j as int].path, a.path),
            decreases assets.len() - j,
        {
            if same_path_of(&assets[j].path, &a.path) {
                break ;
            }
            j = j + 1;
        }
        proof {
            lemma_asset_at_path_first(assets@, a.path, j as int);
        }
        if j == assets.len() {
            assets.push(clone_asset(a));
        } else if a.id.is_some() {
            let updated = ManifestAsset {
                id: clone_opt_string(&a.id),
                name: clone_opt_string(&assets[j].name),
                path: clone_opt_string(&assets[j].path),
                kind: clone_asset_kind(&assets[j].kind),
            };
            assets.set(j, updated);
        }
        i = i + 1;
    }
    assert(incoming@.skip(i as int) =~= Seq::<ManifestAsset>::empty());
}

} // verus!
