//! Deciding where artifacts are hosted

use vstd::prelude::*;

use crate::config::v1::ci::CiConfig;
use crate::config::v1::hosts::WorkspaceHostConfig;
use crate::config::{CiStyle, HostingStyle};
use crate::strings::{clone_string, concat3};

verus! {

/// The CI providers the config turns on
pub open spec fn ci_styles_spec(ci: CiConfig) -> Seq<CiStyle> {
    if ci.github is Some {
        seq![CiStyle::Github]
    } else {
        Seq::empty()
    }
}

/// The hosts the config asks for explicitly, if any
pub open spec fn explicit_hosting_spec(hosts: WorkspaceHostConfig) -> Option<Seq<HostingStyle>> {
    if hosts.github is Some {
        Some(seq![HostingStyle::Github])
    } else {
        None
    }
}

/// The CI providers the config turns on, and the hosts it asks for explicitly
pub fn hosting_from_config(ci: &CiConfig, hosts: &WorkspaceHostConfig) -> (r: (Vec<CiStyle>, Option<Vec<HostingStyle>>))
    ensures
        r.0@ == ci_styles_spec(*ci),
        match (r.1, explicit_hosting_spec(*hosts)) {
            (Some(v), Some(w)) => v@ == w,
            (None, None) => true,
            _ => false,
        },
{
    let mut ci_styles: Vec<CiStyle> = Vec::new();
    if ci.github.is_some() {
        ci_styles.push(CiStyle::Github);
    }
    assert(ci_styles@ =~= ci_styles_spec(*ci));
    let mut hosting: Vec<HostingStyle> = Vec::new();
    if hosts.github.is_some() {
        hosting.push(HostingStyle::Github);
    }
    let hosting = if hosting.len() == 0 {
        None
    } else {
        assert(hosting@ =~= seq![HostingStyle::Github]);
        Some(hosting)
    };
    (ci_styles, hosting)
}

/// The hosts to use: the explicit ones, or else the native hosting of the
/// first CI provider (none when neither is there)
pub open spec fn hosting_providers_spec(hosting: Option<Seq<HostingStyle>>, ci: Option<Seq<CiStyle>>) -> Option<Seq<HostingStyle>> {
    match hosting {
        Some(h) => Some(h),
        None => match ci {
            Some(c) => if c.len() > 0 {
                match c[0] {
                    CiStyle::Github => Some(seq![HostingStyle::Github]),
                }
            } else {
                None
            },
            None => None,
        },
    }
}

/// The hosts to use: the explicit ones, or else the native hosting of the
/// first CI provider (none when neither is there, which is tolerated for
/// early setup or using dist by hand)
pub fn select_hosting_providers(hosting: &Option<Vec<HostingStyle>>, ci: Option<&Vec<CiStyle>>) -> (r: Option<Vec<HostingStyle>>)
    ensures
        match (r, hosting_providers_spec(
            match hosting {
                Some(h) => Some(h@),
                None => None,
            },
            match ci {
                Some(c) => Some(c@),
                None => None,
            },
        )) {
            (Some(v), Some(w)) => v@ == w,
            (None, None) => true,
            _ => false,
        },
{
    // Either use the explicit one, or default to the CI provider's native solution
    match hosting {
        Some(h) => {
            let mut out: Vec<HostingStyle> = Vec::new();
            let mut i: usize = 0;
            while i < h.len()
                invariant
                    i <= h@.len(),
                    out@ == h@.take(i as int),
                decreases h.len() - i,
            {
                out.push(h[i]);
                assert(h@.take(i + 1) =~= h@.take(i as int).push(h@[i as int]));
                i = i + 1;
            }
            assert(h@.take(h@.len() as int) =~= h@);
            Some(out)
        },
        None => match ci {
            Some(c) => {
                if c.len() > 0 {
                    match c[0].native_hosting() {
                        Some(host) => {
                            let v = vec![host];
                            assert(v@ =~= seq![HostingStyle::Github]);
                            Some(v)
                        },
                        None => None,
                    }
                } else {
                    None
                }
            },
            None => None,
        },
    }
}

/// Whether a release needs its hosting filled in: always when hosting is
/// being created, otherwise when the manifest has no hosting for it yet
/// (`existing_hosting_empty` is `None` when the manifest has no such release)
pub open spec fn needs_hosting_spec(create_hosting: bool, existing_hosting_empty: Option<bool>) -> bool {
    create_hosting || match existing_hosting_empty {
        Some(empty) => empty,
        None => true,
    }
}

/// The (app name, version) of the releases that need their hosting filled
/// in, given as (app name, version, whether the manifest's hosting for it is
/// empty, if the manifest has it)
pub open spec fn releases_without_hosting_spec(
    create_hosting: bool,
    releases: Seq<(Seq<char>, Seq<char>, Option<bool>)>,
) -> Seq<(Seq<char>, Seq<char>)>
    decreases releases.len(),
{
    if releases.len() == 0 {
        Seq::empty()
    } else {
        let rest = releases_without_hosting_spec(create_hosting, releases.drop_last());
        let r = releases.last();
        if needs_hosting_spec(create_hosting, r.2) {
            rest.push((r.0, r.1))
        } else {
            rest
        }
    }
}

/// The (app name, version) of the releases that need their hosting filled in
pub fn releases_without_hosting(create_hosting: bool, releases: &Vec<(String, String, Option<bool>)>) -> (r: Vec<
    (String, String),
>)
    ensures
        r@.map_values(|p: (String, String)| (p.0@, p.1@)) == releases_without_hosting_spec(
            create_hosting,
            releases@.map_values(|p: (String, String, Option<bool>)| (p.0@, p.1@, p.2)),
        ),
{
    let ghost all = releases@.map_values(|p: (String, String, Option<bool>)| (p.0@, p.1@, p.2));
    let mut out: Vec<(String, String)> = Vec::new();
    let mut i: usize = 0;
    while i < releases.len()
        invariant
            i <= releases@.len(),
            all == releases@.map_values(|p: (String, String, Option<bool>)| (p.0@, p.1@, p.2)),
            out@.map_values(|p: (String, String)| (p.0@, p.1@)) == releases_without_hosting_spec(
                create_hosting,
                all.take(i as int),
            ),
        decreases releases.len() - i,
    {
        proof {
            assert(all.take(i + 1).drop_last() =~= all.take(i as int));
        }
        // Only update them if they don't already have hosting
        // if create_hosting is set, then consider all entries out of date
        // and needing refreshing (this is only set by `dist host create`)
        let needs_hosting = create_hosting || match releases[i].2 {
            Some(empty) => empty,
            None => true,
        };
        if needs_hosting {
            let name = clone_string(&releases[i].0);
            let version = clone_string(&releases[i].1);
            let ghost before = out@;
            out.push((name, version));
            assert(out@.map_values(|p: (String, String)| (p.0@, p.1@)) =~= before.map_values(
                |p: (String, String)| (p.0@, p.1@),
            ).push((name@, version@)));
        }
        i = i + 1;
    }
    assert(all.take(releases@.len() as int) =~= all);
    out
}

/// Where GitHub Releases serves the artifacts of the release tagged `tag`,
/// below the repository's web path
pub fn github_artifact_download_path(repo_path: &str, tag: &str) -> (r: String)
    ensures
        r@ == repo_path@ + "/releases/download/"@ + tag@,
{
    concat3(repo_path, "/releases/download/", tag)
}

} // verus!
