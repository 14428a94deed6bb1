//! Layered configuration: the settings that the root, a node and a profile may
//! each override, and the merge that yields the effective set for one target.

use std::collections::HashMap;
use std::path::PathBuf;
use crate::text::{opt_text, texts};
use vstd::prelude::*;

verus! {

/// `std::path::PathBuf`, carried through unread.
#[verifier::external_type_specification]
#[verifier::external_body]
pub struct ExPathBuf(std::path::PathBuf);

/// `merge::option::overwrite_none` keeps `left` where it holds a value and
/// takes `right` where it holds none.
pub assume_specification<T>[ merge::option::overwrite_none::<T> ](
    left: &mut Option<T>,
    right: Option<T>,
)
    ensures
        *final(left) == (if old(left).is_some() { *old(left) } else { right }),
;

/// `merge::vec::append` moves the items of `right` behind those of `left`.
pub assume_specification<T>[ merge::vec::append::<T> ](left: &mut Vec<T>, right: Vec<T>)
    ensures
        final(left)@ == old(left)@ + right@,
;

/// Settings that every layer may give. A field without a value is inherited
/// from the next less specific layer.
#[derive(Debug, Clone)]
pub struct GenericSettings {
    pub ssh_user: Option<String>,
    pub user: Option<String>,
    pub ssh_opts: Vec<String>,
    pub compress: Option<bool>,
    pub fast_connection: Option<bool>,
    pub auto_rollback: Option<bool>,
    pub confirm_timeout: Option<u16>,
    pub activation_timeout: Option<u16>,
    pub temp_path: Option<PathBuf>,
    pub magic_rollback: Option<bool>,
    pub sudo: Option<String>,
    pub remote_build: Option<bool>,
    pub interactive_sudo: Option<bool>,
}

/// The mathematical value of a [`GenericSettings`].
pub struct GenericSettingsView {
    pub ssh_user: Option<Seq<char>>,
    pub user: Option<Seq<char>>,
    pub ssh_opts: Seq<Seq<char>>,
    pub compress: Option<bool>,
    pub fast_connection: Option<bool>,
    pub auto_rollback: Option<bool>,
    pub confirm_timeout: Option<u16>,
    pub activation_timeout: Option<u16>,
    pub temp_path: Option<PathBuf>,
    pub magic_rollback: Option<bool>,
    pub sudo: Option<Seq<char>>,
    pub remote_build: Option<bool>,
    pub interactive_sudo: Option<bool>,
}

impl View for GenericSettings {
    type V = GenericSettingsView;

    open spec fn view(&self) -> GenericSettingsView {
        GenericSettingsView {
            ssh_user: opt_text(self.ssh_user),
            user: opt_text(self.user),
            ssh_opts: texts(self.ssh_opts@),
            compress: self.compress,
            fast_connection: self.fast_connection,
            auto_rollback: self.auto_rollback,
            confirm_timeout: self.confirm_timeout,
            activation_timeout: self.activation_timeout,
            temp_path: self.temp_path,
            magic_rollback: self.magic_rollback,
            sudo: opt_text(self.sudo),
            remote_build: self.remote_build,
            interactive_sudo: self.interactive_sudo,
        }
    }
}

/// The value of a scalar field after two layers are merged: the more specific
/// one where it is present, else the less specific one.
pub open spec fn overlay<T>(specific: Option<T>, general: Option<T>) -> Option<T> {
    if specific is Some {
        specific
    } else {
        general
    }
}

/// The value of a scalar field over the three layers: the profile's where
/// present, else the node's, else the root's.
pub open spec fn layered<T>(root: Option<T>, node: Option<T>, profile: Option<T>) -> Option<T> {
    overlay(profile, overlay(node, root))
}

/// The effective settings of one target: every scalar field by [`layered`],
/// the option list as root, then node, then profile.
pub open spec fn merged(
    root: GenericSettingsView,
    node: GenericSettingsView,
    profile: GenericSettingsView,
) -> GenericSettingsView {
    GenericSettingsView {
        ssh_user: layered(root.ssh_user, node.ssh_user, profile.ssh_user),
        user: layered(root.user, node.user, profile.user),
        ssh_opts: root.ssh_opts + node.ssh_opts + profile.ssh_opts,
        compress: layered(root.compress, node.compress, profile.compress),
        fast_connection: layered(
            root.fast_connection,
            node.fast_connection,
            profile.fast_connection,
        ),
        auto_rollback: layered(root.auto_rollback, node.auto_rollback, profile.auto_rollback),
        confirm_timeout: layered(
            root.confirm_timeout,
            node.confirm_timeout,
            profile.confirm_timeout,
        ),
        activation_timeout: layered(
            root.activation_timeout,
            node.activation_timeout,
            profile.activation_timeout,
        ),
        temp_path: layered(root.temp_path, node.temp_path, profile.temp_path),
        magic_rollback: layered(root.magic_rollback, node.magic_rollback, profile.magic_rollback),
        sudo: layered(root.sudo, node.sudo, profile.sudo),
        remote_build: layered(root.remote_build, node.remote_build, profile.remote_build),
        interactive_sudo: layered(
            root.interactive_sudo,
            node.interactive_sudo,
            profile.interactive_sudo,
        ),
    }
}

/// A scalar field takes the profile's value where the profile has one, else
/// the node's, else the root's, and has none where no layer has one; no other
/// field has a say in it.
pub proof fn most_specific_layer_wins<T>(root: Option<T>, node: Option<T>, profile: Option<T>)
    ensures
        profile is Some ==> layered(root, node, profile) == profile,
        profile is None && node is Some ==> layered(root, node, profile) == node,
        profile is None && node is None ==> layered(root, node, profile) == root,
        layered(root, node, profile) is None <==> root is None && node is None && profile is None,
{
}

/// The merged option list is the root's, then the node's, then the profile's,
/// whichever of them are empty: nothing is dropped, doubled or moved.
pub proof fn option_lists_are_appended(
    root: GenericSettingsView,
    node: GenericSettingsView,
    profile: GenericSettingsView,
)
    ensures
        merged(root, node, profile).ssh_opts == root.ssh_opts + node.ssh_opts + profile.ssh_opts,
        merged(root, node, profile).ssh_opts.len() == root.ssh_opts.len() + node.ssh_opts.len()
            + profile.ssh_opts.len(),
        root.ssh_opts.len() == 0 ==> merged(root, node, profile).ssh_opts == node.ssh_opts
            + profile.ssh_opts,
        node.ssh_opts.len() == 0 ==> merged(root, node, profile).ssh_opts == root.ssh_opts
            + profile.ssh_opts,
        profile.ssh_opts.len() == 0 ==> merged(root, node, profile).ssh_opts == root.ssh_opts
            + node.ssh_opts,
{
    let all = merged(root, node, profile).ssh_opts;
    if root.ssh_opts.len() == 0 {
        assert(all =~= node.ssh_opts + profile.ssh_opts);
    }
    if node.ssh_opts.len() == 0 {
        assert(all =~= root.ssh_opts + profile.ssh_opts);
    }
    if profile.ssh_opts.len() == 0 {
        assert(all =~= root.ssh_opts + node.ssh_opts);
    }
}

/// One scalar field over the three layers.
fn layer<T>(root: Option<T>, node: Option<T>, profile: Option<T>) -> (r: Option<T>)
    ensures
        r == layered(root, node, profile),
{
    let mut value = profile;
    merge::option::overwrite_none(&mut value, node);
    merge::option::overwrite_none(&mut value, root);
    value
}

/// Folds the three layers into the effective settings of one target.
pub fn merge_layers(root: GenericSettings, node: GenericSettings, profile: GenericSettings) -> (r:
    GenericSettings)
    ensures
        r@ == merged(root@, node@, profile@),
        r@.ssh_opts == root@.ssh_opts + node@.ssh_opts + profile@.ssh_opts,
{
    let mut ssh_opts = root.ssh_opts;
    merge::vec::append(&mut ssh_opts, node.ssh_opts);
    merge::vec::append(&mut ssh_opts, profile.ssh_opts);
    let r = GenericSettings {
        ssh_user: layer(root.ssh_user, node.ssh_user, profile.ssh_user),
        user: layer(root.user, node.user, profile.user),
        ssh_opts,
        compress: layer(root.compress, node.compress, profile.compress),
        fast_connection: layer(root.fast_connection, node.fast_connection, profile.fast_connection),
        auto_rollback: layer(root.auto_rollback, node.auto_rollback, profile.auto_rollback),
        confirm_timeout: layer(root.confirm_timeout, node.confirm_timeout, profile.confirm_timeout),
        activation_timeout: layer(
            root.activation_timeout,
            node.activation_timeout,
            profile.activation_timeout,
        ),
        temp_path: layer(root.temp_path, node.temp_path, profile.temp_path),
        magic_rollback: layer(root.magic_rollback, node.magic_rollback, profile.magic_rollback),
        sudo: layer(root.sudo, node.sudo, profile.sudo),
        remote_build: layer(root.remote_build, node.remote_build, profile.remote_build),
        interactive_sudo: layer(
            root.interactive_sudo,
            node.interactive_sudo,
            profile.interactive_sudo,
        ),
    };
    assert(r@.ssh_opts =~= root@.ssh_opts + node@.ssh_opts + profile@.ssh_opts);
    r
}

/// What a node is beyond its overrides: where to reach it and what it runs.
#[derive(Debug, Clone)]
pub struct NodeSettings {
    pub hostname: String,
    pub profiles: HashMap<String, Profile>,
    /// The order in which the profiles are deployed, where the node fixes one.
    pub profiles_order: Vec<String>,
}

/// What a profile is beyond its overrides: the built artifact and, where it
/// differs, the path under which its activation is recorded.
#[derive(Debug, Clone)]
pub struct ProfileSettings {
    pub path: String,
    pub profile_path: Option<String>,
}

/// A named artifact to deploy, with the overrides of the profile layer.
#[derive(Debug, Clone)]
pub struct Profile {
    pub profile_settings: ProfileSettings,
    pub generic_settings: GenericSettings,
}

/// A target machine, with the overrides of the node layer.
#[derive(Debug, Clone)]
pub struct Node {
    pub generic_settings: GenericSettings,
    pub node_settings: NodeSettings,
}

/// The root of the configuration: the global defaults and the nodes by name.
#[derive(Debug, Clone)]
pub struct Data {
    pub generic_settings: GenericSettings,
    pub nodes: HashMap<String, Node>,
}

} // verus!
