//! What the library report, the Homebrew environment, the manifest entries,
//! the merging of package settings and the conversion of old settings give
//! for every input.

use vstd::prelude::*;

use crate::config::v0::{same_deps, same_extra_list, same_map, DistMetadata};
use crate::config::v1::layer::BoolOr;
use crate::config::v1::TomlLayer;
use crate::env::{
    bin_paths_spec, brew_env_spec, formulas_spec, join_spec, last_piece, passthrough_spec, split_pieces, EnvMap,
};
use crate::manifest::{
    assets_by_name, asset_pos, gathered_assets, lemma_asset_at_path_first, merge_asset, same_path, manifest_artifact_spec, ArtifactFacts, ArtifactKindFacts, AssetKind,
    BinaryFacts, BinaryKind, InstallerFacts, ManifestArtifactKind, ManifestAsset, StaticAssetKind,
};
use crate::config::{CiStyle, HostingStyle, InstallerStyle};
use crate::config::{lemma_split_first, lemma_split_first_none, split_first};
use crate::linkage::{
    after_first, apt_source_spec, first_piece, homebrew_package_spec, ldd_line_library,
    library_location_spec, tapped_package_spec, LibraryLocation,
};

verus! {

// ---------------------------------------------------------------------------
// Library locations

/// A prefix of a text agrees with it at each of its positions
proof fn lemma_prefix_at(p: Seq<char>, s: Seq<char>, i: int)
    requires
        p.is_prefix_of(s),
        0 <= i < p.len(),
    ensures
        s[i] == p[i],
{
    assert(s.subrange(0, p.len() as int)[i] == s[i]);
}

/// Where a library lives is decided by the start of its path alone: under
/// `/opt/homebrew` it is Homebrew's, under `/usr/lib` or `/lib` the
/// system's, under `/System/Library/Frameworks` or `/Library/Frameworks` a
/// framework, under `/usr/local` in `/usr/local`, and anywhere else other
pub proof fn law_library_location_by_prefix(path: Seq<char>)
    ensures
        (library_location_spec(path) == LibraryLocation::Homebrew) <==> "/opt/homebrew"@.is_prefix_of(
            path,
        ),
        (library_location_spec(path) == LibraryLocation::System) <==> ("/usr/lib"@.is_prefix_of(path)
            || "/lib"@.is_prefix_of(path)),
        (library_location_spec(path) == LibraryLocation::Framework) <==> (
        "/System/Library/Frameworks"@.is_prefix_of(path) || "/Library/Frameworks"@.is_prefix_of(path)),
        (library_location_spec(path) == LibraryLocation::UsrLocal) <==> "/usr/local"@.is_prefix_of(
            path,
        ),
        (library_location_spec(path) == LibraryLocation::Other) <==> !(
        "/opt/homebrew"@.is_prefix_of(path) || "/usr/lib"@.is_prefix_of(path) || "/lib"@.is_prefix_of(
            path,
        ) || "/System/Library/Frameworks"@.is_prefix_of(path) || "/Library/Frameworks"@.is_prefix_of(
            path,
        ) || "/usr/local"@.is_prefix_of(path)),
{
    reveal_strlit("/opt/homebrew");
    reveal_strlit("/usr/lib");
    reveal_strlit("/lib");
    reveal_strlit("/System/Library/Frameworks");
    reveal_strlit("/Library/Frameworks");
    reveal_strlit("/usr/local");
    let opt = "/opt/homebrew"@;
    let usr_lib = "/usr/lib"@;
    let lib = "/lib"@;
    let sys_fw = "/System/Library/Frameworks"@;
    let fw = "/Library/Frameworks"@;
    let local = "/usr/local"@;
    // the second character tells the first three families apart
    if opt.is_prefix_of(path) {
        lemma_prefix_at(opt, path, 1);
    }
    if usr_lib.is_prefix_of(path) {
        lemma_prefix_at(usr_lib, path, 1);
        lemma_prefix_at(usr_lib, path, 6);
    }
    if lib.is_prefix_of(path) {
        lemma_prefix_at(lib, path, 1);
    }
    if sys_fw.is_prefix_of(path) {
        lemma_prefix_at(sys_fw, path, 1);
    }
    if fw.is_prefix_of(path) {
        lemma_prefix_at(fw, path, 1);
    }
    if local.is_prefix_of(path) {
        lemma_prefix_at(local, path, 1);
        lemma_prefix_at(local, path, 6);
    }
}

/// The first piece before `c` of a text that is a piece without `c`, `c`
/// and anything
proof fn lemma_first_piece_of(piece: Seq<char>, c: char, rest: Seq<char>)
    requires
        !piece.contains(c),
    ensures
        first_piece(piece + seq![c] + rest, c) == piece,
        first_piece(piece, c) == piece,
{
    lemma_split_first(piece + seq![c] + rest, c, piece, rest);
    lemma_split_first_none(piece, c);
}

/// The Homebrew package of a library is the directory right under the
/// default Homebrew prefix it lives in (`/opt/homebrew/opt/` or
/// `/usr/local/opt/`); a library elsewhere has none. A package from a tap
/// other than `homebrew/core` is named with its tap in front.
pub proof fn law_homebrew_package_of_library(prefix: Seq<char>, package: Seq<char>, rest: Seq<char>, tap: Seq<char>)
    requires
        prefix == "/opt/homebrew/opt/"@ || prefix == "/usr/local/opt/"@,
        !package.contains('/'),
    ensures
        homebrew_package_spec(prefix + package + "/"@ + rest) == Some(package),
        homebrew_package_spec(prefix + package) == Some(package),
        tapped_package_spec(package, None) == package,
        tapped_package_spec(package, Some("homebrew/core"@)) == package,
        tap != "homebrew/core"@ ==> tapped_package_spec(package, Some(tap)) == tap + "/"@ + package,
{
    reveal_strlit("/opt/homebrew/opt/");
    reveal_strlit("/usr/local/opt/");
    reveal_strlit("/");
    let lib = prefix + package + "/"@ + rest;
    assert(prefix.is_prefix_of(lib)) by {
        assert(lib.subrange(0, prefix.len() as int) =~= prefix);
    }
    assert(prefix.is_prefix_of(prefix + package)) by {
        assert((prefix + package).subrange(0, prefix.len() as int) =~= prefix);
    }
    if prefix == "/usr/local/opt/"@ {
        assert(!"/opt/homebrew/opt/"@.is_prefix_of(lib)) by {
            assert(lib[1] == 'u');
        }
        assert(!"/opt/homebrew/opt/"@.is_prefix_of(prefix + package)) by {
            assert((prefix + package)[1] == 'u');
        }
    }
    assert(lib.skip(prefix.len() as int) =~= package + seq!['/'] + rest);
    assert((prefix + package).skip(prefix.len() as int) =~= package);
    lemma_first_piece_of(package, '/', rest);
}

/// The apt package of a library is what `dpkg --search` prints before the
/// first `:` (`package: /path`), when something is there; empty output or
/// output starting with `:` names none
pub proof fn law_apt_package_of_output(package: Seq<char>, rest: Seq<char>)
    requires
        !package.contains(':'),
    ensures
        package.len() > 0 ==> apt_source_spec(package + seq![':'] + rest) == Some(package),
        package.len() == 0 ==> apt_source_spec(package + seq![':'] + rest) is None,
        apt_source_spec(Seq::empty()) is None,
{
    lemma_first_piece_of(package, ':', rest);
    lemma_split_first_none(Seq::<char>::empty(), ':');
}

/// A line of `ldd` output `name => path (address)` names the library at
/// `path` (for a name and a path without spaces)
pub proof fn law_ldd_line_names_its_path(name: Seq<char>, path: Seq<char>, addr: Seq<char>)
    requires
        !name.contains(' '),
        !path.contains(' '),
    ensures
        ldd_line_library(name + " => "@ + path + " ("@ + addr + ")"@) == Some(path),
{
    reveal_strlit(" => ");
    reveal_strlit(" (");
    reveal_strlit("(");
    reveal_strlit(")");
    let pat = " => "@;
    let line = name + pat + path + " ("@ + addr + ")"@;
    let after = path + " ("@ + addr + ")"@;
    assert(line =~= name + pat + after);
    let hay = name + pat.drop_last();
    assert forall|i: int| 0 <= i && i + pat.len() <= hay.len() implies #[trigger] hay.subrange(
        i,
        i + pat.len(),
    ) != pat by {
        assert(i < name.len());
        assert(hay.subrange(i, i + pat.len())[0] == name[i]);
    }
    crate::linkage::lemma_after_first(line, pat, name, after);
    assert(after =~= path + seq![' '] + ("("@ + addr + ")"@));
    lemma_first_piece_of(path, ' ', "("@ + addr + ")"@);
}

// ---------------------------------------------------------------------------
// Homebrew build environment

/// The search-path variables that are handed on from Homebrew's environment
pub open spec fn search_path_var(k: Seq<char>) -> bool {
    k == "PKG_CONFIG_PATH"@ || k == "PKG_CONFIG_LIBDIR"@ || k == "CMAKE_INCLUDE_PATH"@ || k
        == "CMAKE_LIBRARY_PATH"@
}

/// Each package gives a `bin` and an `sbin` directory
proof fn lemma_bin_paths_len(f: Seq<(Seq<char>, Seq<char>)>)
    ensures
        bin_paths_spec(f).len() == 2 * f.len(),
    decreases f.len(),
{
    if f.len() > 0 {
        lemma_bin_paths_len(f.drop_last());
    }
}

/// A variable that is set gives its one entry, one that is not gives none
proof fn lemma_passthrough(env: EnvMap, k: Seq<char>)
    ensures
        env.lookup(k) is Some ==> passthrough_spec(env, k) == seq![(k, env.lookup(k)->0)],
        env.lookup(k) is None ==> passthrough_spec(env, k).len() == 0,
{
}

/// The environment kept for builds: each of `PKG_CONFIG_PATH`,
/// `PKG_CONFIG_LIBDIR`, `CMAKE_INCLUDE_PATH` and `CMAKE_LIBRARY_PATH` that
/// Homebrew sets is kept with its value; every other entry is a `PATH`,
/// which is there exactly when there are packages and our own `PATH` is
/// known
pub proof fn law_brew_env_keeps_search_paths(env: EnvMap, our_path: Option<Seq<char>>)
    ensures
        forall|k: Seq<char>|
            search_path_var(k) && env.lookup(k) is Some ==> #[trigger] brew_env_spec(
                env,
                our_path,
            ).contains((k, env.lookup(k)->0)),
        forall|i: int|
            0 <= i < brew_env_spec(env, our_path).len() ==> {
                let e = #[trigger] brew_env_spec(env, our_path)[i];
                ||| search_path_var(e.0) && env.lookup(e.0) == Some(e.1)
                ||| e.0 == "PATH"@ && our_path is Some && formulas_spec(env).len() > 0
            },
        (exists|i: int|
            0 <= i < brew_env_spec(env, our_path).len() && (#[trigger] brew_env_spec(
                env,
                our_path,
            )[i]).0 == "PATH"@) <==> (our_path is Some && formulas_spec(env).len() > 0),
{
    reveal_strlit("PKG_CONFIG_PATH");
    reveal_strlit("PKG_CONFIG_LIBDIR");
    reveal_strlit("CMAKE_INCLUDE_PATH");
    reveal_strlit("CMAKE_LIBRARY_PATH");
    reveal_strlit("PATH");
    let k1 = "PKG_CONFIG_PATH"@;
    let k2 = "PKG_CONFIG_LIBDIR"@;
    let k3 = "CMAKE_INCLUDE_PATH"@;
    let k4 = "CMAKE_LIBRARY_PATH"@;
    let p1 = passthrough_spec(env, k1);
    let p2 = passthrough_spec(env, k2);
    let p3 = passthrough_spec(env, k3);
    let p4 = passthrough_spec(env, k4);
    lemma_passthrough(env, k1);
    lemma_passthrough(env, k2);
    lemma_passthrough(env, k3);
    lemma_passthrough(env, k4);
    let kept = p1 + p2 + p3 + p4;
    let paths = bin_paths_spec(formulas_spec(env));
    lemma_bin_paths_len(formulas_spec(env));
    let has_path = our_path is Some && paths.len() > 0;
    let r = brew_env_spec(env, our_path);
    let off: int = if has_path {
        1
    } else {
        0
    };
    assert(r.len() == off + kept.len());
    assert forall|i: int| 0 <= i < kept.len() implies r[off + i] == kept[i] by {}
    if has_path {
        assert(r[0].0 == "PATH"@);
    }
    // every kept entry is a search path variable with its value
    assert forall|j: int| 0 <= j < kept.len() implies search_path_var(#[trigger] kept[j].0)
        && env.lookup(kept[j].0) == Some(kept[j].1) by {
        if j < p1.len() {
            assert(kept[j] == p1[j]);
        } else if j < p1.len() + p2.len() {
            assert(kept[j] == p2[j - p1.len()]);
        } else if j < p1.len() + p2.len() + p3.len() {
            assert(kept[j] == p3[j - p1.len() - p2.len()]);
        } else {
            assert(kept[j] == p4[j - p1.len() - p2.len() - p3.len()]);
        }
    }
    assert forall|i: int| 0 <= i < r.len() implies {
        let e = #[trigger] r[i];
        ||| search_path_var(e.0) && env.lookup(e.0) == Some(e.1)
        ||| e.0 == "PATH"@ && our_path is Some && formulas_spec(env).len() > 0
    } by {
        if has_path && i == 0 {
        } else {
            assert(r[i] == kept[i - off]);
        }
    }
    // each set search path variable is kept
    assert forall|k: Seq<char>| search_path_var(k) && env.lookup(k) is Some implies #[trigger] r.contains(
        (k, env.lookup(k)->0),
    ) by {
        let v = env.lookup(k)->0;
        let j: int = if k == k1 {
            0
        } else if k == k2 {
            p1.len() as int
        } else if k == k3 {
            0int + p1.len() + p2.len()
        } else {
            0int + p1.len() + p2.len() + p3.len()
        };
        assert(kept[j] == (k, v));
        assert(r[off + j] == (k, v));
    }
    // a PATH entry is there exactly when there are packages and our PATH
    if has_path {
        assert(r[0].0 == "PATH"@);
    } else {
        assert forall|i: int| 0 <= i < r.len() implies (#[trigger] r[i]).0 != "PATH"@ by {
            assert(r[i] == kept[i]);
            assert(search_path_var(kept[i].0));
            assert("PATH"@.len() == 4);
            assert(k1.len() != 4 && k2.len() != 4 && k3.len() != 4 && k4.len() != 4);
        }
    }
    if our_path is Some && formulas_spec(env).len() > 0 {
        assert(has_path);
    }
}

/// The `bin` and `sbin` directories of the packages: two per package, in
/// the packages' order, `bin` first
pub proof fn law_bin_paths_of_packages(f: Seq<(Seq<char>, Seq<char>)>)
    ensures
        bin_paths_spec(f).len() == 2 * f.len(),
        forall|k: int|
            0 <= k < f.len() ==> bin_paths_spec(f)[2 * k] == (#[trigger] f[k]).1 + "/bin"@
                && bin_paths_spec(f)[2 * k + 1] == f[k].1 + "/sbin"@,
    decreases f.len(),
{
    if f.len() > 0 {
        let init = f.drop_last();
        law_bin_paths_of_packages(init);
        assert forall|k: int| 0 <= k < f.len() implies bin_paths_spec(f)[2 * k] == (
        #[trigger] f[k]).1 + "/bin"@ && bin_paths_spec(f)[2 * k + 1] == f[k].1 + "/sbin"@ by {
            if k < f.len() - 1 {
                assert(f[k] == init[k]);
            }
        }
    }
}

/// With packages and our own `PATH` known, the environment starts with a
/// `PATH` that is ours, then `:`, then each package's `bin` and `sbin`
/// directories joined by `:`
pub proof fn law_brew_env_path(env: EnvMap, our_path: Seq<char>)
    requires
        formulas_spec(env).len() > 0,
    ensures
        brew_env_spec(env, Some(our_path))[0] == ("PATH"@, our_path + ":"@ + join_spec(
            bin_paths_spec(formulas_spec(env)),
            ":"@,
        )),
{
    lemma_bin_paths_len(formulas_spec(env));
}

/// The last piece after `/` of a name is the name itself when it has no `/`,
/// and the part after the tap for `tap/name`
pub proof fn law_last_piece_of_name(tap: Seq<char>, name: Seq<char>)
    requires
        !tap.contains('/'),
        !name.contains('/'),
    ensures
        last_piece(name, '/') == name,
        last_piece(tap + seq!['/'] + name, '/') == name,
{
    lemma_split_first_none(name, '/');
    lemma_split_first(tap + seq!['/'] + name, '/', tap, name);
}

/// The packages Homebrew lists: one per comma-separated dependency, in
/// order, each with the opt directory named by the formula (without its
/// tap); none unless both `HOMEBREW_DEPENDENCIES` and `HOMEBREW_OPT` are set
pub proof fn law_formulas_of_environment(env: EnvMap)
    ensures
        match (env.lookup("HOMEBREW_DEPENDENCIES"@), env.lookup("HOMEBREW_OPT"@)) {
            (Some(deps), Some(opt)) => {
                &&& formulas_spec(env).len() == split_pieces(deps, ',').len()
                &&& forall|k: int|
                    0 <= k < formulas_spec(env).len() ==> #[trigger] formulas_spec(env)[k] == (
                        split_pieces(deps, ',')[k],
                        opt + "/"@ + last_piece(split_pieces(deps, ',')[k], '/'),
                    )
            },
            _ => formulas_spec(env).len() == 0,
        },
{
}

/// Merging in an asset from another machine: where no asset is at its path
/// it is added at the end; else the first asset at its path takes its id
/// (when it has one) and keeps everything else, and all other assets stay
pub proof fn law_merge_asset(s: Seq<ManifestAsset>, a: ManifestAsset)
    ensures
        (forall|j: int| 0 <= j < s.len() ==> !same_path((#[trigger] s[j]).path, a.path)) ==> merge_asset(s, a)
            == s.push(a),
        forall|k: int|
            0 <= k < s.len() && same_path((#[trigger] s[k]).path, a.path) && (forall|m: int|
                0 <= m < k ==> !same_path((#[trigger] s[m]).path, a.path)) ==> {
                let r = merge_asset(s, a);
                &&& r.len() == s.len()
                &&& r[k] == ManifestAsset {
                    id: if a.id is Some {
                        a.id
                    } else {
                        s[k].id
                    },
                    name: s[k].name,
                    path: s[k].path,
                    kind: s[k].kind,
                }
                &&& forall|m: int| 0 <= m < s.len() && m != k ==> r[m] == s[m]
            },
{
    if forall|j: int| 0 <= j < s.len() ==> !same_path((#[trigger] s[j]).path, a.path) {
        lemma_asset_at_path_first(s, a.path, s.len() as int);
    }
    assert forall|k: int|
        0 <= k < s.len() && same_path((#[trigger] s[k]).path, a.path) && (forall|m: int|
            0 <= m < k ==> !same_path((#[trigger] s[m]).path, a.path)) implies {
            let r = merge_asset(s, a);
            &&& r.len() == s.len()
            &&& r[k] == ManifestAsset {
                id: if a.id is Some {
                    a.id
                } else {
                    s[k].id
                },
                name: s[k].name,
                path: s[k].path,
                kind: s[k].kind,
            }
            &&& forall|m: int| 0 <= m < s.len() && m != k ==> r[m] == s[m]
        } by {
        lemma_asset_at_path_first(s, a.path, k);
        if a.id is None {
            assert(s[k] == ManifestAsset { id: s[k].id, name: s[k].name, path: s[k].path, kind: s[k].kind });
        }
    }
}

// ---------------------------------------------------------------------------
// Merging a package's settings with the workspace's

/// A setting after merging: the package's where it gives one, else the
/// workspace's
pub open spec fn package_or_workspace<T>(merged: Option<T>, pkg: Option<T>, ws: Option<T>) -> bool {
    match pkg {
        Some(_) => merged == pkg,
        None => merged == ws,
    }
}

/// A list setting after merging: the package's where it gives one, else a
/// list with the workspace's items (none where the workspace has none)
pub open spec fn package_or_workspace_list<T>(
    merged: Option<Vec<T>>,
    pkg: Option<Vec<T>>,
    ws: Option<Vec<T>>,
) -> bool {
    match (pkg, ws) {
        (Some(_), _) => merged == pkg,
        (None, Some(w)) => merged matches Some(m) && m@ == w@,
        (None, None) => merged is None,
    }
}

/// Merging a package's settings with the workspace's: every setting the
/// package inherits is the package's where the package gives it and the
/// workspace's where it does not; extra included files are the package's
/// followed by the workspace's; the settings only the workspace may give
/// stay as the package had them
pub proof fn law_merge_package_wins_workspace_fills(merged: DistMetadata, pkg: DistMetadata, ws: DistMetadata)
    requires
        merged.merged_from(pkg, ws),
    ensures
        package_or_workspace(merged.dist, pkg.dist, ws.dist),
        package_or_workspace(merged.install_success_msg, pkg.install_success_msg, ws.install_success_msg),
        package_or_workspace(merged.tap, pkg.tap, ws.tap),
        package_or_workspace(merged.formula, pkg.formula, ws.formula),
        package_or_workspace(merged.auto_includes, pkg.auto_includes, ws.auto_includes),
        package_or_workspace(merged.windows_archive, pkg.windows_archive, ws.windows_archive),
        package_or_workspace(merged.unix_archive, pkg.unix_archive, ws.unix_archive),
        package_or_workspace(merged.npm_package, pkg.npm_package, ws.npm_package),
        package_or_workspace(merged.npm_scope, pkg.npm_scope, ws.npm_scope),
        package_or_workspace(merged.checksum, pkg.checksum, ws.checksum),
        package_or_workspace(merged.default_features, pkg.default_features, ws.default_features),
        package_or_workspace(merged.all_features, pkg.all_features, ws.all_features),
        package_or_workspace(merged.install_updater, pkg.install_updater, ws.install_updater),
        package_or_workspace(
            merged.always_use_latest_updater,
            pkg.always_use_latest_updater,
            ws.always_use_latest_updater,
        ),
        package_or_workspace(merged.display, pkg.display, ws.display),
        package_or_workspace(merged.display_name, pkg.display_name, ws.display_name),
        package_or_workspace(merged.mac_pkg_config, pkg.mac_pkg_config, ws.mac_pkg_config),
        package_or_workspace(merged.cargo_auditable, pkg.cargo_auditable, ws.cargo_auditable),
        package_or_workspace(merged.cargo_cyclonedx, pkg.cargo_cyclonedx, ws.cargo_cyclonedx),
        package_or_workspace(merged.omnibor, pkg.omnibor, ws.omnibor),
        package_or_workspace_list(merged.installers, pkg.installers, ws.installers),
        package_or_workspace_list(merged.targets, pkg.targets, ws.targets),
        package_or_workspace_list(merged.install_path, pkg.install_path, ws.install_path),
        package_or_workspace_list(merged.features, pkg.features, ws.features),
        package_or_workspace_list(merged.package_libraries, pkg.package_libraries, ws.package_libraries),
        package_or_workspace_list(merged.install_libraries, pkg.install_libraries, ws.install_libraries),
        pkg.system_dependencies is Some ==> merged.system_dependencies == pkg.system_dependencies,
        pkg.system_dependencies is None ==> same_deps(merged.system_dependencies, ws.system_dependencies),
        pkg.extra_artifacts is Some ==> merged.extra_artifacts == pkg.extra_artifacts,
        pkg.extra_artifacts is None ==> same_extra_list(merged.extra_artifacts, ws.extra_artifacts),
        pkg.bin_aliases is Some ==> merged.bin_aliases == pkg.bin_aliases,
        pkg.bin_aliases is None ==> same_map(merged.bin_aliases, ws.bin_aliases),
        pkg.min_glibc_version is Some ==> merged.min_glibc_version == pkg.min_glibc_version,
        pkg.min_glibc_version is None ==> same_map(merged.min_glibc_version, ws.min_glibc_version),
        match (pkg.included_files, ws.included_files) {
            (Some(p), Some(w)) => merged.included_files matches Some(m) && m@ == p@ + w@,
            (Some(_), None) => merged.included_files == pkg.included_files,
            (None, Some(w)) => merged.included_files matches Some(m) && m@ == w@,
            (None, None) => merged.included_files is None,
        },
        merged.cargo_dist_version == pkg.cargo_dist_version,
        merged.rust_toolchain_version == pkg.rust_toolchain_version,
        merged.ci == pkg.ci,
        merged.allow_dirty == pkg.allow_dirty,
        merged.msvc_crt_static == pkg.msvc_crt_static,
        merged.precise_builds == pkg.precise_builds,
        merged.publish_jobs == pkg.publish_jobs,
        merged.hosting == pkg.hosting,
{
}

// ---------------------------------------------------------------------------
// Manifest entries

/// What the manifest says of an artifact by its kind: a script, formula or
/// npm installer gives its command as the install hint and its description;
/// an msi or pkg installer says how it installs and gives no hint; every
/// other artifact gives neither. The entry is named by the artifact's id,
/// records its local path unless local paths are left out, and keeps its
/// targets and its checksum artifact.
pub proof fn law_manifest_hint_and_description(
    artifact: ArtifactFacts,
    binaries: Seq<BinaryFacts>,
    files: Seq<(String, String)>,
    no_local_paths: bool,
)
    ensures
        ({
            let r = manifest_artifact_spec(artifact, binaries, files, no_local_paths);
            &&& r.name == Some(artifact.id)
            &&& (r.path is Some <==> !no_local_paths)
            &&& (!no_local_paths ==> r.path == Some(artifact.file_path))
            &&& r.target_triples == artifact.target_triples@
            &&& r.checksum == artifact.checksum
            &&& match artifact.kind {
                ArtifactKindFacts::Installer(InstallerFacts::Powershell { hint, desc })
                | ArtifactKindFacts::Installer(InstallerFacts::Shell { hint, desc })
                | ArtifactKindFacts::Installer(InstallerFacts::Homebrew { hint, desc })
                | ArtifactKindFacts::Installer(InstallerFacts::Npm { hint, desc }) => {
                    &&& r.install_hint == Some(hint)
                    &&& r.description == Some(desc@)
                    &&& r.kind == ManifestArtifactKind::Installer
                },
                ArtifactKindFacts::Installer(InstallerFacts::Msi) => {
                    &&& r.install_hint is None
                    &&& r.description == Some("install via msi"@)
                    &&& r.kind == ManifestArtifactKind::Installer
                },
                ArtifactKindFacts::Installer(InstallerFacts::Pkg) => {
                    &&& r.install_hint is None
                    &&& r.description == Some("install via pkg"@)
                    &&& r.kind == ManifestArtifactKind::Installer
                },
                ArtifactKindFacts::ExecutableZip => r.install_hint is None && r.description is None
                    && r.kind == ManifestArtifactKind::ExecutableZip,
                ArtifactKindFacts::Symbols => r.install_hint is None && r.description is None
                    && r.kind == ManifestArtifactKind::Symbols,
                ArtifactKindFacts::Checksum => r.install_hint is None && r.description is None
                    && r.kind == ManifestArtifactKind::Checksum,
                ArtifactKindFacts::SourceTarball => r.install_hint is None && r.description is None
                    && r.kind == ManifestArtifactKind::SourceTarball,
                ArtifactKindFacts::ExtraArtifact => r.install_hint is None && r.description is None
                    && r.kind == ManifestArtifactKind::ExtraArtifact,
                ArtifactKindFacts::Updater => r.install_hint is None && r.description is None
                    && r.kind == ManifestArtifactKind::Updater,
            }
        }),
{
}

/// Ordering assets by name keeps every one of them, and no others
proof fn lemma_assets_by_name_keeps(s: Seq<ManifestAsset>)
    ensures
        assets_by_name(s).len() == s.len(),
        forall|i: int| 0 <= i < s.len() ==> assets_by_name(s).contains(#[trigger] s[i]),
        forall|i: int| 0 <= i < s.len() ==> s.contains(#[trigger] assets_by_name(s)[i]),
    decreases s.len(),
{
    if s.len() > 0 {
        let init = s.drop_last();
        lemma_assets_by_name_keeps(init);
        let sorted = assets_by_name(init);
        crate::laws::law_manifest_assets_ordered_by_name(s);
        let p = asset_pos(sorted, s.last());
        lemma_asset_pos_bound(sorted, s.last());
        let r = sorted.insert(p, s.last());
        assert forall|i: int| 0 <= i < s.len() implies r.contains(#[trigger] s[i]) by {
            if i == s.len() - 1 {
                assert(r[p] == s.last());
            } else {
                assert(init[i] == s[i]);
                let k = choose|k: int| 0 <= k < sorted.len() && sorted[k] == init[i];
                if k < p {
                    assert(r[k] == sorted[k]);
                } else {
                    assert(r[k + 1] == sorted[k]);
                }
            }
        }
        assert forall|i: int| 0 <= i < r.len() implies s.contains(#[trigger] r[i]) by {
            if i == p {
                assert(s[s.len() - 1] == s.last());
            } else {
                let k = if i < p { i } else { i - 1 };
                assert(r[i] == sorted[k]);
                let j = choose|j: int| 0 <= j < init.len() && init[j] == sorted[k];
                assert(s[j] == init[j]);
            }
        }
    }
}

/// Where an asset goes is within the list
proof fn lemma_asset_pos_bound(s: Seq<ManifestAsset>, e: ManifestAsset)
    ensures
        0 <= asset_pos(s, e) <= s.len(),
    decreases s.len(),
{
    if s.len() > 0 {
        lemma_asset_pos_bound(s.skip(1), e);
    }
}

/// The asset kind a binary of this kind is listed as
pub open spec fn binary_asset_kind(kind: BinaryKind, symbols: Option<String>) -> AssetKind {
    match kind {
        BinaryKind::Executable => AssetKind::Executable { symbols_artifact: symbols },
        BinaryKind::DynamicLibrary => AssetKind::CDynamicLibrary { symbols_artifact: symbols },
        BinaryKind::StaticLibrary => AssetKind::CStaticLibrary { symbols_artifact: symbols },
    }
}

/// The asset kind a file of the project is listed as
pub open spec fn file_asset_kind(kind: StaticAssetKind) -> AssetKind {
    match kind {
        StaticAssetKind::Changelog => AssetKind::Changelog,
        StaticAssetKind::License => AssetKind::License,
        StaticAssetKind::Readme => AssetKind::Readme,
        StaticAssetKind::Other => AssetKind::Unknown,
    }
}

/// The manifest lists every asset of an artifact and nothing else: each
/// binary (by its id and name, at its file name, with its symbols
/// artifact), each file of its archive (named and placed by its file name),
/// and, for an npm package only, each file of the package template
pub proof fn law_manifest_lists_every_asset(
    artifact: ArtifactFacts,
    binaries: Seq<BinaryFacts>,
    files: Seq<(String, String)>,
    no_local_paths: bool,
)
    ensures
        ({
            let assets = manifest_artifact_spec(artifact, binaries, files, no_local_paths).assets;
            let npm = artifact.kind matches ArtifactKindFacts::Installer(InstallerFacts::Npm { .. });
            &&& assets.len() == artifact.required_binaries@.len() + artifact.static_assets@.len() + (
            if npm {
                files.len()
            } else {
                0
            })
            &&& forall|k: int|
                0 <= k < artifact.required_binaries@.len() ==> {
                    let (idx, file) = #[trigger] artifact.required_binaries@[k];
                    let b = binaries[idx as int];
                    assets.contains(
                        ManifestAsset {
                            id: Some(b.id),
                            name: Some(b.name),
                            path: Some(file),
                            kind: binary_asset_kind(b.kind, b.symbols_artifact),
                        },
                    )
                }
            &&& forall|k: int|
                0 <= k < artifact.static_assets@.len() ==> {
                    let (kind, file) = #[trigger] artifact.static_assets@[k];
                    assets.contains(
                        ManifestAsset {
                            id: None,
                            name: Some(file),
                            path: Some(file),
                            kind: file_asset_kind(kind),
                        },
                    )
                }
            &&& npm ==> forall|k: int|
                0 <= k < files.len() ==> assets.contains(
                    ManifestAsset {
                        id: None,
                        name: Some((#[trigger] files[k]).0),
                        path: Some(files[k].1),
                        kind: AssetKind::Unknown,
                    },
                )
            &&& !npm ==> forall|i: int|
                0 <= i < assets.len() ==> (#[trigger] assets[i]).id is Some || (exists|k: int|
                    0 <= k < artifact.static_assets@.len() && assets[i].path == Some(
                        (#[trigger] artifact.static_assets@[k]).1,
                    ))
        }),
{
    let g = gathered_assets(artifact, binaries, files);
    lemma_assets_by_name_keeps(g);
    let nb = artifact.required_binaries@.len();
    let ns = artifact.static_assets@.len();
    assert forall|k: int| 0 <= k < nb implies assets_by_name(g).contains({
        let (idx, file) = #[trigger] artifact.required_binaries@[k];
        let b = binaries[idx as int];
        ManifestAsset {
            id: Some(b.id),
            name: Some(b.name),
            path: Some(file),
            kind: binary_asset_kind(b.kind, b.symbols_artifact),
        }
    }) by {
        assert(g[k] == crate::manifest::built_asset(
            binaries[artifact.required_binaries@[k].0 as int],
            artifact.required_binaries@[k].1,
        ));
    }
    assert forall|k: int| 0 <= k < ns implies assets_by_name(g).contains({
        let (kind, file) = #[trigger] artifact.static_assets@[k];
        ManifestAsset { id: None, name: Some(file), path: Some(file), kind: file_asset_kind(kind) }
    }) by {
        assert(g[nb + k] == crate::manifest::static_asset(
            artifact.static_assets@[k].0,
            artifact.static_assets@[k].1,
        ));
    }
    if artifact.kind matches ArtifactKindFacts::Installer(InstallerFacts::Npm { .. }) {
        assert forall|k: int| 0 <= k < files.len() implies assets_by_name(g).contains(
            ManifestAsset {
                id: None,
                name: Some((#[trigger] files[k]).0),
                path: Some(files[k].1),
                kind: AssetKind::Unknown,
            },
        ) by {
            assert(g[nb + ns + k] == crate::manifest::template_asset(files[k]));
        }
    } else {
        let r = assets_by_name(g);
        assert forall|i: int| 0 <= i < r.len() implies (#[trigger] r[i]).id is Some || (exists|k: int|
            0 <= k < ns && r[i].path == Some((#[trigger] artifact.static_assets@[k]).1)) by {
            let j = choose|j: int| 0 <= j < g.len() && g[j] == r[i];
            if j < nb {
                assert(g[j] == crate::manifest::built_asset(
                    binaries[artifact.required_binaries@[j].0 as int],
                    artifact.required_binaries@[j].1,
                ));
            } else {
                let k = j - nb;
                assert(g[j] == crate::manifest::static_asset(
                    artifact.static_assets@[k].0,
                    artifact.static_assets@[k].1,
                ));
            }
        }
    }
}

// ---------------------------------------------------------------------------
// Converting old settings

/// Converting old settings keeps every artifact setting: a checksum, source
/// tarball or extra artifacts given make an artifacts table holding exactly
/// them, and the archive settings given make an archives table holding
/// exactly them; with none given there is no such table
pub proof fn law_conversion_keeps_artifact_settings(m: DistMetadata, r: TomlLayer, is_global: bool)
    requires
        r.converted_from(m, is_global),
    ensures
        (m.checksum is Some || m.source_tarball is Some || m.extra_artifacts is Some) ==> r.artifacts is Some,
        r.artifacts matches Some(a) ==> {
            &&& a.checksum == m.checksum
            &&& a.source_tarball == m.source_tarball
            &&& a.extra == m.extra_artifacts
        },
        (m.included_files is Some || m.auto_includes is Some || m.windows_archive is Some
            || m.unix_archive is Some || m.package_libraries is Some) ==> (r.artifacts matches Some(a)
            && a.archives is Some),
        r.artifacts matches Some(a) ==> (a.archives matches Some(ar) ==> {
            &&& ar.included_files == m.included_files
            &&& ar.auto_includes == m.auto_includes
            &&& ar.windows_archive == m.windows_archive
            &&& ar.unix_archive == m.unix_archive
            &&& ar.package_libraries == m.package_libraries
        }),
        r.artifacts is None ==> (m.checksum is None && m.source_tarball is None && m.extra_artifacts is None
            && m.included_files is None && m.auto_includes is None && m.windows_archive is None
            && m.unix_archive is None && m.package_libraries is None),
{
}

/// Converting old settings keeps every build setting: the cargo settings
/// given make a cargo build table holding exactly them, and the other build
/// settings given make a build table holding exactly them
pub proof fn law_conversion_keeps_build_settings(m: DistMetadata, r: TomlLayer, is_global: bool)
    requires
        r.converted_from(m, is_global),
    ensures
        (m.rust_toolchain_version is Some || m.precise_builds is Some || m.features is Some
            || m.default_features is Some || m.all_features is Some || m.cargo_auditable is Some
            || m.cargo_cyclonedx is Some) ==> (r.builds matches Some(b) && b.cargo matches Some(
            BoolOr::Val(_),
        )),
        r.builds matches Some(b) ==> (b.cargo matches Some(BoolOr::Val(c)) ==> {
            &&& c.rust_toolchain_version == m.rust_toolchain_version
            &&& c.precise_builds == m.precise_builds
            &&& c.features == m.features
            &&& c.default_features == m.default_features
            &&& c.all_features == m.all_features
            &&& c.msvc_crt_static == m.msvc_crt_static
            &&& c.cargo_auditable == m.cargo_auditable
            &&& c.cargo_cyclonedx == m.cargo_cyclonedx
        }),
        (m.system_dependencies is Some || m.ssldotcom_windows_sign is Some || m.min_glibc_version is Some
            || m.omnibor is Some || m.msvc_crt_static is Some) ==> r.builds is Some,
        r.builds matches Some(b) ==> {
            &&& b.system_dependencies == m.system_dependencies
            &&& b.ssldotcom_windows_sign == m.ssldotcom_windows_sign
            &&& b.macos_sign == m.macos_sign
            &&& b.min_glibc_version == m.min_glibc_version
            &&& b.omnibor == m.omnibor
        },
{
}

/// Converting old settings keeps every install setting: the common ones
/// given make an installers table holding exactly them, a Homebrew tap or
/// formula makes Homebrew settings holding them, and an npm package or
/// scope makes npm settings holding them
pub proof fn law_conversion_keeps_install_settings(m: DistMetadata, r: TomlLayer, is_global: bool)
    requires
        r.converted_from(m, is_global),
    ensures
        (m.install_path is Some || m.install_success_msg is Some || m.install_libraries is Some
            || m.bin_aliases is Some || m.install_updater is Some || m.always_use_latest_updater
            is Some) ==> r.installers is Some,
        r.installers matches Some(i) ==> {
            &&& i.common.install_path == m.install_path
            &&& i.common.install_success_msg == m.install_success_msg
            &&& i.common.install_libraries == m.install_libraries
            &&& i.common.bin_aliases == m.bin_aliases
            &&& i.updater == m.install_updater
            &&& i.always_use_latest_updater == m.always_use_latest_updater
        },
        (m.tap is Some || m.formula is Some) ==> (r.installers matches Some(i) && i.homebrew matches Some(
            BoolOr::Val(h),
        ) && h.tap == m.tap && h.formula == m.formula),
        (m.npm_package is Some || m.npm_scope is Some) ==> (r.installers matches Some(i)
            && i.npm matches Some(BoolOr::Val(n)) && n.package == m.npm_package && n.scope
            == m.npm_scope),
{
}

/// Converting old settings keeps the top-level, hosting, CI and publishing
/// settings: each given one is there with its value
pub proof fn law_conversion_keeps_other_settings(m: DistMetadata, r: TomlLayer, is_global: bool)
    requires
        r.converted_from(m, is_global),
    ensures
        r.dist_version == m.cargo_dist_version,
        r.dist_url_override == m.cargo_dist_url_override,
        r.dist == m.dist,
        r.allow_dirty == m.allow_dirty,
        r.targets == m.targets,
        (m.force_latest is Some || m.display is Some || m.display_name is Some) ==> r.hosts is Some,
        r.hosts matches Some(h) ==> h.force_latest == m.force_latest && h.display == m.display
            && h.display_name == m.display_name,
        (m.merge_tasks is Some || m.fail_fast is Some || m.cache_builds is Some
            || m.build_local_artifacts is Some || m.dispatch_releases is Some || m.release_branch
            is Some || m.pr_run_mode is Some || m.tag_namespace is Some) ==> r.ci is Some,
        r.ci matches Some(c) ==> {
            &&& c.common.merge_tasks == m.merge_tasks
            &&& c.common.fail_fast == m.fail_fast
            &&& c.common.cache_builds == m.cache_builds
            &&& c.common.build_local_artifacts == m.build_local_artifacts
            &&& c.common.dispatch_releases == m.dispatch_releases
            &&& c.common.release_branch == m.release_branch
            &&& c.common.pr_run_mode == m.pr_run_mode
            &&& c.common.tag_namespace == m.tag_namespace
        },
        m.publish_prereleases is Some ==> (r.publishers matches Some(p) && p.common.prereleases
            == m.publish_prereleases),
{
}

/// Converting a copy of the settings (as `to_toml_layer` does) keeps the
/// checksum, the archive formats and the cargo features of the original
pub proof fn law_conversion_of_copy_keeps_settings(orig: DistMetadata, m: DistMetadata, r: TomlLayer, is_global: bool)
    requires
        m.same_as(orig),
        r.converted_from(m, is_global),
    ensures
        orig.checksum is Some ==> (r.artifacts matches Some(a) && a.checksum == orig.checksum),
        r.artifacts matches Some(a) ==> a.checksum == orig.checksum,
        r.artifacts is None ==> orig.checksum is None,
        orig.targets is Some ==> (r.targets matches Some(t) && t@ == orig.targets->0@),
        orig.features is Some ==> (r.builds matches Some(b) && b.cargo matches Some(BoolOr::Val(c))
            && c.features matches Some(f) && f@ == orig.features->0@),
{
    law_conversion_keeps_artifact_settings(m, r, is_global);
    law_conversion_keeps_build_settings(m, r, is_global);
    law_conversion_keeps_other_settings(m, r, is_global);
}

/// A kind switched on by an old list of kinds: listed means on; in a
/// package's settings an unlisted kind is off, while in the workspace's it
/// is left unmentioned
pub open spec fn switched_by_list<T>(field: Option<BoolOr<T>>, listed: bool, is_global: bool) -> bool {
    if listed {
        field matches Some(v) && (v matches BoolOr::Bool(b) ==> b)
    } else if is_global {
        field is None
    } else {
        field == Some(BoolOr::<T>::Bool(false))
    }
}

/// Converting old settings keeps which installers are on: each installer
/// in the old list is on in the new installers table, and each one missing
/// from the list is off (or, for the workspace, unmentioned); settings of
/// the Homebrew, npm and pkg installers are kept with them
pub proof fn law_conversion_keeps_enabled_installers(m: DistMetadata, r: TomlLayer, is_global: bool)
    requires
        r.converted_from(m, is_global),
        m.installers is Some,
        m.tap is None,
        m.formula is None,
        m.npm_package is None,
        m.npm_scope is None,
        m.mac_pkg_config is None,
    ensures
        ({
            let l = m.installers->0@;
            (l.len() > 0 || !is_global) ==> (r.installers matches Some(i) && {
                &&& switched_by_list(i.shell, l.contains(InstallerStyle::Shell), is_global)
                &&& switched_by_list(i.powershell, l.contains(InstallerStyle::Powershell), is_global)
                &&& switched_by_list(i.msi, l.contains(InstallerStyle::Msi), is_global)
                &&& switched_by_list(i.homebrew, l.contains(InstallerStyle::Homebrew), is_global)
                &&& switched_by_list(i.npm, l.contains(InstallerStyle::Npm), is_global)
                &&& switched_by_list(i.pkg, l.contains(InstallerStyle::Pkg), is_global)
            })
        }),
{
    let l = m.installers->0@;
    if l.len() > 0 {
        let s = l[0];
        assert(l.contains(s));
        match s {
            InstallerStyle::Shell => {},
            InstallerStyle::Powershell => {},
            InstallerStyle::Msi => {},
            InstallerStyle::Homebrew => {},
            InstallerStyle::Npm => {},
            InstallerStyle::Pkg => {},
        }
    }
}

/// Converting old settings keeps the CI and hosting choices: GitHub CI in
/// the old list is on in the new CI table, each host in the old list is on
/// in the new hosts table, and GitHub CI with no host named turns GitHub
/// hosting on
pub proof fn law_conversion_keeps_ci_and_hosting(m: DistMetadata, r: TomlLayer, is_global: bool)
    requires
        r.converted_from(m, is_global),
    ensures
        (m.ci matches Some(l) && l@.contains(CiStyle::Github)) ==> (r.ci matches Some(c)
            && c.github matches Some(v) && (v matches BoolOr::Bool(b) ==> b)),
        (m.hosting matches Some(l) && l@.contains(HostingStyle::Github)) ==> (r.hosts matches Some(h)
            && h.github matches Some(v) && (v matches BoolOr::Bool(b) ==> b)),
        (m.hosting matches Some(l) && l@.contains(HostingStyle::Axodotdev)) ==> (r.hosts matches Some(h)
            && h.axodotdev == Some(BoolOr::<crate::config::v1::hosts::axodotdev::AxodotdevHostLayer>::Bool(true))),
        (m.hosting is None && (m.ci matches Some(l) && l@.contains(CiStyle::Github))) ==> (r.hosts matches Some(h)
            && h.github matches Some(v) && (v matches BoolOr::Bool(b) ==> b)),
{
}

} // verus!
