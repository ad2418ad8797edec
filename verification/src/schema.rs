//! The shapes of the CI runner settings that config files describe and that
//! the final config hands on to CI generation.

use vstd::prelude::*;

verus! {

/// Either a plain string-like value or a more detailed value
#[derive(Debug)]
pub enum StringLikeOr<S, T> {
    /// They gave the simple string-like value
    StringLike(S),
    /// They gave a more interesting value
    Val(T),
}

/// The package manager to use within a container
#[derive(Debug, Clone, Copy, PartialEq, Eq, Structural)]
pub enum PackageManager {
    /// Homebrew (usually for Mac)
    Homebrew,
    /// Apt (Debian, Ubuntu, etc)
    Apt,
}

/// A container to run a CI job in, as written in a config file
#[derive(Debug)]
pub struct ContainerConfigInput {
    /// The container image to run, something like `ubuntu:22.04`
    pub image: String,
    /// The host triple of the container, if given
    pub host: Option<String>,
    /// The package manager to use within the container, if given
    pub package_manager: Option<PackageManager>,
}

/// A container to run a CI job in, with every setting decided
#[derive(Debug)]
pub struct ContainerConfig {
    /// The container image to run, something like `ubuntu:22.04`
    pub image: String,
    /// The host triple of the container
    pub host: String,
    /// The package manager to use within the container
    pub package_manager: Option<PackageManager>,
}

/// The settings of a [`ContainerConfig`] as text
pub struct ContainerConfigView {
    /// The container image
    pub image: Seq<char>,
    /// The host triple of the container
    pub host: Seq<char>,
    /// The package manager to use within the container
    pub package_manager: Option<PackageManager>,
}

impl View for ContainerConfig {
    type V = ContainerConfigView;

    open spec fn view(&self) -> ContainerConfigView {
        ContainerConfigView {
            image: self.image@,
            host: self.host@,
            package_manager: self.package_manager,
        }
    }
}

/// A GitHub runner for a CI job, as written in a config file
#[derive(Debug)]
pub struct GithubRunnerConfigInput {
    /// GHA's `runs-on` key, if given
    pub runner: Option<String>,
    /// Host triple of the runner, if given
    pub host: Option<String>,
    /// Container image to run the job in, if any
    pub container: Option<StringLikeOr<String, ContainerConfigInput>>,
}

/// A GitHub runner for a CI job, with every setting decided
#[derive(Debug)]
pub struct GithubRunnerConfig {
    /// GHA's `runs-on` key: Github Runner image to use
    pub runner: String,
    /// Host triple of the runner (well-known, custom, or best guess)
    pub host: String,
    /// Container image to run the job in, if any
    pub container: Option<ContainerConfig>,
}

/// The settings of a [`GithubRunnerConfig`] as text
pub struct GithubRunnerConfigView {
    /// GHA's `runs-on` key
    pub runner: Seq<char>,
    /// Host triple of the runner
    pub host: Seq<char>,
    /// Container to run the job in, if any
    pub container: Option<ContainerConfigView>,
}

impl View for GithubRunnerConfig {
    type V = GithubRunnerConfigView;

    open spec fn view(&self) -> GithubRunnerConfigView {
        GithubRunnerConfigView {
            runner: self.runner@,
            host: self.host@,
            container: match self.container {
                Some(c) => Some(c@),
                None => None,
            },
        }
    }
}

impl Clone for ContainerConfigInput {
    fn clone(&self) -> (r: Self)
        ensures
            r == *self,
    {
        ContainerConfigInput {
            image: self.image.clone(),
            host: match &self.host {
                Some(h) => Some(h.clone()),
                None => None,
            },
            package_manager: self.package_manager,
        }
    }
}

impl Clone for GithubRunnerConfigInput {
    fn clone(&self) -> (r: Self)
        ensures
            r == *self,
    {
        GithubRunnerConfigInput {
            runner: match &self.runner {
                Some(s) => Some(s.clone()),
                None => None,
            },
            host: match &self.host {
                Some(h) => Some(h.clone()),
                None => None,
            },
            container: match &self.container {
                Some(StringLikeOr::StringLike(image)) => Some(StringLikeOr::StringLike(image.clone())),
                Some(StringLikeOr::Val(c)) => Some(StringLikeOr::Val(c.clone())),
                None => None,
            },
        }
    }
}

/// A copy of a list of runner settings by target
pub fn clone_runner_settings(v: &Vec<(String, StringLikeOr<String, GithubRunnerConfigInput>)>) -> (r: Vec<
    (String, StringLikeOr<String, GithubRunnerConfigInput>),
>)
    ensures
        r@ == v@,
{
    let mut out: Vec<(String, StringLikeOr<String, GithubRunnerConfigInput>)> = Vec::new();
    let mut i: usize = 0;
    while i < v.len()
        invariant
            i <= v.len(),
            out@ == v@.take(i as int),
        decreases v.len() - i,
    {
        let (target, setting) = &v[i];
        let setting = match setting {
            StringLikeOr::StringLike(runner) => StringLikeOr::StringLike(runner.clone()),
            StringLikeOr::Val(cfg) => StringLikeOr::Val(cfg.clone()),
        };
        out.push((target.clone(), setting));
        i = i + 1;
    }
    assert(v@.take(v.len() as int) == v@);
    out
}

} // verus!
