//! The decisions `dist init` makes about where its config goes: whether an
//! existing setup migrates first, which kind of workspace the config is
//! written for, to which file, and under which table.

use vstd::prelude::*;

use crate::strings::{owned, str_eq};

verus! {

/// The kind of the root workspace
#[derive(Debug, Clone, Copy, PartialEq, Eq, Structural)]
pub enum WorkspaceKind {
    /// A dist-specific workspace (`dist-workspace.toml` or `dist.toml`)
    Generic,
    /// A cargo workspace (`Cargo.toml`)
    Rust,
}

/// What `dist init` does with the root workspace
#[derive(Debug)]
pub enum InitPlan {
    /// Migrate the existing config to the new format, then start over
    MigrateAndRestart,
    /// Write the config
    Write {
        /// The kind of workspace the config is written for
        desired_kind: WorkspaceKind,
        /// Whether a fresh workspace document replaces the loaded one
        fresh_workspace: bool,
        /// The name of the file written
        file_name: String,
        /// Whether that file is a new one in the workspace directory (else it
        /// is the workspace's own manifest)
        in_workspace_dir: bool,
        /// The table the config goes under
        metadata_key: String,
    },
}

/// What `dist init` does, with the texts as character sequences
pub enum InitPlanView {
    MigrateAndRestart,
    Write {
        desired_kind: WorkspaceKind,
        fresh_workspace: bool,
        file_name: Seq<char>,
        in_workspace_dir: bool,
        metadata_key: Seq<char>,
    },
}

impl View for InitPlan {
    type V = InitPlanView;

    open spec fn view(&self) -> InitPlanView {
        match self {
            InitPlan::MigrateAndRestart => InitPlanView::MigrateAndRestart,
            InitPlan::Write {
                desired_kind,
                fresh_workspace,
                file_name,
                in_workspace_dir,
                metadata_key,
            } => InitPlanView::Write {
                desired_kind: *desired_kind,
                fresh_workspace: *fresh_workspace,
                file_name: file_name@,
                in_workspace_dir: *in_workspace_dir,
                metadata_key: metadata_key@,
            },
        }
    }
}

/// Whether `dist init` asks to migrate to the new config format: a cargo
/// workspace that is set up already, unless every question is answered yes
pub open spec fn asks_to_migrate_spec(kind: WorkspaceKind, initted: bool, yes: bool) -> bool {
    kind == WorkspaceKind::Rust && initted && !yes
}

/// What `dist init` does with the root workspace. A `dist.toml` that is set
/// up already migrates first; so does a set-up cargo workspace whose user
/// agrees to migrate. Otherwise a cargo workspace that is not set up yet
/// gets its config in a fresh generic workspace, `dist-workspace.toml` in the
/// workspace directory; any other workspace gets it in its own manifest. The
/// config goes under `[workspace.metadata.dist]` in a cargo workspace and
/// under `[dist]` in a generic one.
pub open spec fn init_plan_spec(
    kind: WorkspaceKind,
    initted: bool,
    manifest_file_name: Seq<char>,
    yes: bool,
    migrate_answer: bool,
) -> InitPlanView {
    if kind == WorkspaceKind::Generic && initted && manifest_file_name == "dist.toml"@ {
        InitPlanView::MigrateAndRestart
    } else if asks_to_migrate_spec(kind, initted, yes) && migrate_answer {
        InitPlanView::MigrateAndRestart
    } else {
        let newly = kind == WorkspaceKind::Rust && !initted;
        let desired = if newly {
            WorkspaceKind::Generic
        } else {
            kind
        };
        InitPlanView::Write {
            desired_kind: desired,
            fresh_workspace: newly,
            file_name: if newly {
                "dist-workspace.toml"@
            } else {
                manifest_file_name
            },
            in_workspace_dir: newly,
            metadata_key: if desired == WorkspaceKind::Rust {
                "[workspace.metadata.dist]"@
            } else {
                "[dist]"@
            },
        }
    }
}

/// Whether `dist init` asks to migrate to the new config format: a cargo
/// workspace that is set up already, unless every question is answered yes
pub fn asks_to_migrate(kind: WorkspaceKind, initted: bool, yes: bool) -> (r: bool)
    ensures
        r == asks_to_migrate_spec(kind, initted, yes),
{
    kind == WorkspaceKind::Rust && initted && !yes
}

/// What `dist init` does with the root workspace, given its kind, whether
/// it is set up already, the file name of its manifest, whether every
/// question is answered yes, and the answer to the migration question (only
/// heeded where it is asked)
pub fn init_plan(
    kind: WorkspaceKind,
    initted: bool,
    manifest_file_name: &str,
    yes: bool,
    migrate_answer: bool,
) -> (r: InitPlan)
    ensures
        r@ == init_plan_spec(kind, initted, manifest_file_name@, yes, migrate_answer),
{
    if kind == WorkspaceKind::Generic && initted && str_eq(manifest_file_name, "dist.toml") {
        return InitPlan::MigrateAndRestart;
    }
    if asks_to_migrate(kind, initted, yes) && migrate_answer {
        return InitPlan::MigrateAndRestart;
    }
    let newly = kind == WorkspaceKind::Rust && !initted;
    let desired_kind = if newly {
        WorkspaceKind::Generic
    } else {
        kind
    };
    let file_name = if newly {
        owned("dist-workspace.toml")
    } else {
        owned(manifest_file_name)
    };
    let metadata_key = if desired_kind == WorkspaceKind::Rust {
        owned("[workspace.metadata.dist]")
    } else {
        owned("[dist]")
    };
    InitPlan::Write {
        desired_kind,
        fresh_workspace: newly,
        file_name,
        in_workspace_dir: newly,
        metadata_key,
    }
}

} // verus!
