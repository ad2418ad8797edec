//! For determining which configuration version we're using.

use vstd::prelude::*;

verus! {

/// Represents all known configuration versions.
#[derive(Clone, Copy, Debug, PartialEq, Eq, Structural)]
pub enum ConfigVersion {
    /// The original legacy configuration formats are all lumped in as V0.
    V0,
    /// The current configuration format.
    V1,
}

impl Default for ConfigVersion {
    fn default() -> (r: Self)
        ensures
            r == ConfigVersion::V1,
    {
        ConfigVersion::V1
    }
}

impl ConfigVersion {
    /// The number this version is written as
    pub open spec fn display_spec(self) -> Seq<char> {
        match self {
            ConfigVersion::V0 => "0"@,
            ConfigVersion::V1 => "1"@,
        }
    }

    /// The number this version is written as
    pub fn to_string(&self) -> (r: String)
        ensures
            r@ == self.display_spec(),
    {
        match self {
            ConfigVersion::V0 => crate::strings::owned("0"),
            ConfigVersion::V1 => crate::strings::owned("1"),
        }
    }
}

/// The configuration version a workspace's root manifest is in, given the
/// manifest's file name and, when it could be read, the `config-version` its
/// `[dist]` table gives: only a `dist-workspace.toml` can be in a later
/// version than the first, and one whose version can't be read is taken to
/// be in the first
pub fn version_for_manifest(file_name: Option<&str>, parsed: Option<ConfigVersion>) -> (r: ConfigVersion)
    ensures
        r == match file_name {
            Some(name) => if name@ == "dist-workspace.toml"@ {
                match parsed {
                    Some(v) => v,
                    None => ConfigVersion::V0,
                }
            } else {
                ConfigVersion::V0
            },
            None => ConfigVersion::V0,
        },
{
    match file_name {
        Some(name) => {
            if !crate::strings::str_eq(name, "dist-workspace.toml") {
                // If the manifest is in Cargo.toml or dist.toml, we're
                // definitely using a v0 config.
                return ConfigVersion::V0;
            }
        },
        None => {
            return ConfigVersion::V0;
        },
    }
    match parsed {
        Some(v) => v,
        // If we could load it, but can't parse it, it's likely v0.
        None => ConfigVersion::V0,
    }
}

/// Whether to use the v1 config: the `DIST_V1` environment variable is set
/// to something other than `false`, or the config is already in v1
pub fn want_v1(dist_v1_var: Option<&str>, version: ConfigVersion) -> (r: bool)
    ensures
        r == ((dist_v1_var matches Some(v) && v@ != "false"@) || version == ConfigVersion::V1),
{
    let want_v1 = match dist_v1_var {
        Some(s) => !crate::strings::str_eq(s, "false"),
        None => false,
    };
    want_v1 || version == ConfigVersion::V1
}

} // verus!
