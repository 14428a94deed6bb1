//! Build-and-push core of a multi-node deployment tool: layered settings, the
//! resolution of a profile's build recipe, and the decisions of the build and
//! push pipelines, stated as contracts over the commands they issue.

use vstd::prelude::*;

pub mod command;
pub mod data;
pub mod derivation;
pub mod logging;
pub mod push;
pub mod runs;
pub mod text;

verus! {

/// `indicatif::ProgressBar`, the progress line of one target, carried through
/// unread.
#[verifier::external_type_specification]
#[verifier::external_body]
pub struct ExProgressBar(indicatif::ProgressBar);

/// What the command line sets for this run, over every layer of the
/// configuration.
#[derive(Debug, Clone)]
pub struct CmdOverrides {
    pub ssh_user: Option<String>,
    pub profile_user: Option<String>,
    pub ssh_opts: Option<String>,
    pub fast_connection: Option<bool>,
    pub auto_rollback: Option<bool>,
    pub hostname: Option<String>,
    pub magic_rollback: Option<bool>,
    pub temp_path: Option<std::path::PathBuf>,
    pub confirm_timeout: Option<u16>,
    pub activation_timeout: Option<u16>,
    pub sudo: Option<String>,
    pub interactive_sudo: Option<bool>,
    pub remote_build: Option<bool>,
}

/// Everything about one (node, profile) target, fixed for the whole of its
/// pipeline.
#[derive(Clone)]
pub struct DeployData {
    pub node_name: String,
    pub node: data::Node,
    pub profile_name: String,
    pub profile: data::Profile,
    pub cmd_overrides: CmdOverrides,
    pub merged_settings: data::GenericSettings,
    pub progressbar: Option<indicatif::ProgressBar>,
}

/// Facts derived once per target, before build and push.
#[derive(Debug, Clone)]
pub struct DeployDefs {
    pub ssh_user: String,
    pub profile_user: String,
    pub sudo: Option<String>,
}

} // verus!
