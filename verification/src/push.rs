//! The build and push pipelines of one target.

use crate::command::{Action, ActionView, Command, CommandView, Event};
use crate::derivation::{
    buildable, buildable_of, find_deriver_key, resolved_key_of, under_store_root, with_store_root,
};
use crate::text::{opt_text, ssh_options, ssh_options_text, texts, utf8_fault};
use crate::{DeployData, DeployDefs};
use vstd::prelude::*;
use vstd::string::*;
use vstd::utf8::*;

verus! {

/// `std::io::Error`, carried through unread.
#[verifier::external_type_specification]
#[verifier::external_body]
pub struct ExIoError(std::io::Error);

/// `serde_json::Error`, carried through unread.
#[verifier::external_type_specification]
#[verifier::external_body]
pub struct ExJsonError(serde_json::Error);

/// Why a pipeline stopped. Every failure ends the target's pipeline; nothing
/// is tried again.
#[derive(Debug)]
pub enum PushProfileError {
    /// The store root query could not be run.
    EvalStore(std::io::Error),
    /// The store root is not UTF-8.
    EvalStoreUtf8(std::str::Utf8Error),
    /// The metadata query could not be run.
    ShowDerivation(std::io::Error),
    /// The metadata query did not exit with code 0.
    ShowDerivationExit(Option<i32>),
    /// The metadata is not UTF-8.
    ShowDerivationUtf8(std::str::Utf8Error),
    /// The metadata is not JSON.
    ShowDerivationParse(serde_json::Error),
    /// The metadata lists its recipes in something that is no object.
    ShowDerivationInvalid,
    /// The metadata lists no recipe.
    ShowDerivationEmpty,
    /// The build could not be run.
    Build(std::io::Error),
    /// The build did not exit with code 0.
    BuildExit(Option<i32>),
    /// The built profile holds no `deploy-rs-activate`.
    DeployRsActivateDoesntExist,
    /// The built profile holds no `activate-rs`.
    ActivateRsDoesntExist,
    /// The signing could not be run.
    Sign(std::io::Error),
    /// The signing did not exit with code 0.
    SignExit(Option<i32>),
    /// The copy could not be run.
    Copy(std::io::Error),
    /// The copy did not exit with code 0.
    CopyExit(Option<i32>),
    /// The path-info probe could not be run.
    PathInfo(std::io::Error),
}

/// What the build and the push of one target are given.
#[derive(Clone)]
pub struct PushProfileData {
    /// Whether the build tool takes the flake-aware invocations.
    pub supports_flakes: bool,
    /// Whether the destination verifies signatures on what is copied to it.
    pub check_sigs: bool,
    pub repo: String,
    pub deploy_data: DeployData,
    pub deploy_defs: DeployDefs,
    /// Whether the build leaves a link to its result.
    pub keep_result: bool,
    /// Where such links are kept; `./.deploy-gc` where none is given.
    pub result_path: Option<String>,
    /// Arguments handed to the build as they are.
    pub extra_build_args: Vec<String>,
}

/// What a local build takes from the environment of the process.
#[derive(Debug, Clone)]
pub struct Environment {
    /// The directory for the build's temporary files, where one is set.
    pub tmpdir: Option<String>,
    /// The key to sign what was built with, where one is set.
    pub local_key: Option<String>,
}

impl PushProfileData {
    /// Whether the profile is built on the target: the effective setting,
    /// and no where nothing sets it.
    pub open spec fn remote_build_of(&self) -> bool {
        self.deploy_data.merged_settings.remote_build == Some(true)
    }

    /// The host to reach: the one given for this run, else the node's.
    pub open spec fn hostname_of(&self) -> Seq<char> {
        match self.deploy_data.cmd_overrides.hostname {
            Some(host) => host@,
            None => self.deploy_data.node.node_settings.hostname@,
        }
    }

    /// The user and host of the target, as both the build and the push
    /// address it.
    pub open spec fn destination_of(&self) -> Seq<char> {
        self.deploy_defs.ssh_user@ + "@"@ + self.hostname_of()
    }

    /// The target's store, as a remote build addresses it.
    pub open spec fn store_address_of(&self) -> Seq<char> {
        "ssh-ng://"@ + self.destination_of()
    }

    /// The target, as a copy of the built profile addresses it.
    pub open spec fn copy_target_of(&self) -> Seq<char> {
        let compress = if self.deploy_data.merged_settings.compress == Some(true) {
            "true"@
        } else {
            "false"@
        };
        "ssh://"@ + self.destination_of() + "?compress="@ + compress
    }

    /// The text of the transport's options variable.
    pub open spec fn ssh_options_of(&self) -> Seq<char> {
        ssh_options_text(texts(self.deploy_data.merged_settings.ssh_opts@))
    }

    /// The path of the built profile.
    pub open spec fn profile_path_of(&self) -> Seq<char> {
        self.deploy_data.profile.profile_settings.path@
    }

    /// Where a kept build result is linked: below the result path, or below
    /// `./.deploy-gc` where none is given, by node and profile.
    pub open spec fn out_link_of(&self) -> Seq<char> {
        (match self.result_path {
            Some(path) => path@,
            None => "./.deploy-gc"@,
        }) + "/"@ + self.deploy_data.node_name@ + "/"@ + self.deploy_data.profile_name@
    }

    /// The query for the metadata of the built profile.
    pub open spec fn show_derivation_command_of(&self) -> CommandView {
        CommandView::new("nix"@).arg("--experimental-features"@).arg("nix-command"@).arg(
            "show-derivation"@,
        ).arg(self.profile_path_of())
    }

    /// The local build of `derivation`: flake-aware or legacy, with the link
    /// to its result or without one, with the temporary directory where one
    /// is set, and with the extra arguments as they are.
    pub open spec fn local_build_command_of(
        &self,
        derivation: Seq<char>,
        tmpdir: Option<Seq<char>>,
    ) -> CommandView {
        let tool = if self.supports_flakes {
            CommandView::new("nix"@).arg("build"@).arg(derivation)
        } else {
            CommandView::new("nix-build"@).arg(derivation)
        };
        let placed = match tmpdir {
            Some(dir) => tool.env("TMPDIR"@, dir),
            None => tool,
        };
        let linked = if self.keep_result {
            placed.arg("--out-link"@).arg(self.out_link_of())
        } else if self.supports_flakes {
            placed.arg("--no-link"@)
        } else {
            placed.arg("--no-out-link"@)
        };
        linked.args(texts(self.extra_build_args@)).quiet()
    }

    /// The recursive signing of the built profile with `key`.
    pub open spec fn sign_command_of(&self, key: Seq<char>) -> CommandView {
        CommandView::new("nix"@).arg("sign-paths"@).arg("-r"@).arg("-k"@).arg(key).arg(
            self.profile_path_of(),
        )
    }

    /// The copy of the unbuilt recipe to the target's store, its dependencies
    /// fetched from the substituters.
    pub open spec fn remote_copy_command_of(&self, derivation: Seq<char>) -> CommandView {
        CommandView::new("nix"@).arg("--experimental-features"@).arg("nix-command"@).arg(
            "copy"@,
        ).arg("-s"@).arg("--to"@).arg(self.store_address_of()).arg("--derivation"@).arg(
            derivation,
        ).env("NIX_SSHOPTS"@, self.ssh_options_of())
    }

    /// The build of `derivation` in the target's store.
    pub open spec fn remote_build_command_of(&self, derivation: Seq<char>) -> CommandView {
        CommandView::new("nix"@).arg("--experimental-features"@).arg("nix-command"@).arg(
            "build"@,
        ).arg(derivation).arg("--eval-store"@).arg("auto"@).arg("--store"@).arg(
            self.store_address_of(),
        ).args(texts(self.extra_build_args@)).env("NIX_SSHOPTS"@, self.ssh_options_of())
    }

    /// The copy of the built profile to the target: substituting on the
    /// target unless the connection is fast, and without the signature check
    /// where this run switches it off.
    pub open spec fn push_copy_command_of(&self) -> CommandView {
        let copy = CommandView::new("nix"@).arg("copy"@);
        let substituting = if self.deploy_data.merged_settings.fast_connection != Some(true) {
            copy.arg("--substitute-on-destination"@)
        } else {
            copy
        };
        let checked = if !self.check_sigs {
            substituting.arg("--no-check-sigs"@)
        } else {
            substituting
        };
        checked.arg("--to"@).arg(self.copy_target_of()).arg(self.profile_path_of()).env(
            "NIX_SSHOPTS"@,
            self.ssh_options_of(),
        )
    }

    /// Whether the profile is built on the target.
    pub fn remote_build(&self) -> (r: bool)
        ensures
            r == self.remote_build_of(),
    {
        match self.deploy_data.merged_settings.remote_build {
            Some(remote) => remote,
            None => false,
        }
    }

    /// Whether to warn that building on the target without flakes is
    /// experimental.
    pub fn warns_of_remote_build(&self) -> (r: bool)
        ensures
            r == (self.remote_build_of() && !self.supports_flakes),
    {
        self.remote_build() && !self.supports_flakes
    }

    /// The host to reach.
    pub fn hostname(&self) -> (r: &str)
        ensures
            r@ == self.hostname_of(),
    {
        match &self.deploy_data.cmd_overrides.hostname {
            Some(host) => host.as_str(),
            None => self.deploy_data.node.node_settings.hostname.as_str(),
        }
    }

    /// The user and host of the target.
    pub fn destination(&self) -> (r: String)
        ensures
            r@ == self.destination_of(),
    {
        let mut to = self.deploy_defs.ssh_user.clone();
        to.append("@");
        to.append(self.hostname());
        to
    }

    /// The target's store, as a remote build addresses it.
    pub fn store_address(&self) -> (r: String)
        ensures
            r@ == self.store_address_of(),
    {
        let mut address = String::from_str("ssh-ng://");
        address.append(self.destination().as_str());
        address
    }

    /// The target, as a copy of the built profile addresses it.
    pub fn copy_target(&self) -> (r: String)
        ensures
            r@ == self.copy_target_of(),
    {
        let compress = match self.deploy_data.merged_settings.compress {
            Some(compress) => compress,
            None => false,
        };
        let mut target = String::from_str("ssh://");
        target.append(self.destination().as_str());
        target.append("?compress=");
        target.append(if compress { "true" } else { "false" });
        target
    }

    /// The text of the transport's options variable.
    pub fn ssh_options(&self) -> (r: String)
        ensures
            r@ == self.ssh_options_of(),
    {
        ssh_options(&self.deploy_data.merged_settings.ssh_opts)
    }

    /// Where a kept build result is linked.
    pub fn out_link(&self) -> (r: String)
        ensures
            r@ == self.out_link_of(),
    {
        let mut link = match &self.result_path {
            Some(path) => path.clone(),
            None => String::from_str("./.deploy-gc"),
        };
        link.append("/");
        link.append(self.deploy_data.node_name.as_str());
        link.append("/");
        link.append(self.deploy_data.profile_name.as_str());
        link
    }

    /// The query for the metadata of the built profile.
    pub fn show_derivation_command(&self) -> (r: Command)
        ensures
            r@ == self.show_derivation_command_of(),
    {
        let mut command = Command::new("nix");
        command.arg("--experimental-features");
        command.arg("nix-command");
        command.arg("show-derivation");
        command.arg(self.deploy_data.profile.profile_settings.path.as_str());
        command
    }

    /// The local build of `derivation`.
    pub fn local_build_command(&self, derivation: &str, tmpdir: &Option<String>) -> (r: Command)
        ensures
            r@ == self.local_build_command_of(derivation@, opt_text(*tmpdir)),
    {
        let mut command = if self.supports_flakes {
            Command::new("nix")
        } else {
            Command::new("nix-build")
        };
        if self.supports_flakes {
            command.arg("build");
        }
        command.arg(derivation);
        match tmpdir {
            Some(dir) => {
                command.env("TMPDIR", dir.as_str());
            },
            None => {},
        }
        if self.keep_result {
            command.arg("--out-link");
            command.arg(self.out_link().as_str());
        } else if self.supports_flakes {
            command.arg("--no-link");
        } else {
            command.arg("--no-out-link");
        }
        command.args(&self.extra_build_args);
        command.quiet();
        command
    }

    /// The recursive signing of the built profile with `key`.
    pub fn sign_command(&self, key: &str) -> (r: Command)
        ensures
            r@ == self.sign_command_of(key@),
    {
        let mut command = Command::new("nix");
        command.arg("sign-paths");
        command.arg("-r");
        command.arg("-k");
        command.arg(key);
        command.arg(self.deploy_data.profile.profile_settings.path.as_str());
        command
    }

    /// The copy of the unbuilt recipe to the target's store.
    pub fn remote_copy_command(&self, derivation: &str) -> (r: Command)
        ensures
            r@ == self.remote_copy_command_of(derivation@),
    {
        let mut command = Command::new("nix");
        command.arg("--experimental-features");
        command.arg("nix-command");
        command.arg("copy");
        command.arg("-s");
        command.arg("--to");
        command.arg(self.store_address().as_str());
        command.arg("--derivation");
        command.arg(derivation);
        command.env("NIX_SSHOPTS", self.ssh_options().as_str());
        command
    }

    /// The build of `derivation` in the target's store.
    pub fn remote_build_command(&self, derivation: &str) -> (r: Command)
        ensures
            r@ == self.remote_build_command_of(derivation@),
    {
        let mut command = Command::new("nix");
        command.arg("--experimental-features");
        command.arg("nix-command");
        command.arg("build");
        command.arg(derivation);
        command.arg("--eval-store");
        command.arg("auto");
        command.arg("--store");
        command.arg(self.store_address().as_str());
        command.args(&self.extra_build_args);
        command.env("NIX_SSHOPTS", self.ssh_options().as_str());
        command
    }

    /// The copy of the built profile to the target.
    pub fn push_copy_command(&self) -> (r: Command)
        ensures
            r@ == self.push_copy_command_of(),
    {
        let mut command = Command::new("nix");
        command.arg("copy");
        let fast = match self.deploy_data.merged_settings.fast_connection {
            Some(fast) => fast,
            None => false,
        };
        if !fast {
            command.arg("--substitute-on-destination");
        }
        if !self.check_sigs {
            command.arg("--no-check-sigs");
        }
        command.arg("--to");
        command.arg(self.copy_target().as_str());
        command.arg(self.deploy_data.profile.profile_settings.path.as_str());
        command.env("NIX_SSHOPTS", self.ssh_options().as_str());
        command
    }
}

/// The build on the target and the push reach the target as the same user on
/// the same host: the recipe is copied to, and built in, the store of the
/// user and host that the built profile would be copied to.
pub proof fn build_and_push_share_the_destination(data: &PushProfileData, derivation: Seq<char>)
    ensures
        data.store_address_of() == "ssh-ng://"@ + data.destination_of(),
        ("ssh://"@ + data.destination_of()).is_prefix_of(data.copy_target_of()),
        data.remote_copy_command_of(derivation).args[5] == data.store_address_of(),
        data.remote_build_command_of(derivation).args[7] == data.store_address_of(),
        data.push_copy_command_of().args[data.push_copy_command_of().args.len() - 2]
            == data.copy_target_of(),
{
    let reached = "ssh://"@ + data.destination_of();
    assert(data.copy_target_of().subrange(0, reached.len() as int) =~= reached);
}

/// The query for the root of the build tool's store.
pub open spec fn store_root_command_of() -> CommandView {
    CommandView::new("nix"@).arg("eval"@).arg("--raw"@).arg("--expr"@).arg("builtins.storeDir"@)
}

/// The probe that tells whether the build tool wants an output selected.
pub open spec fn path_info_command_of(deriver: Seq<char>) -> CommandView {
    CommandView::new("nix"@).arg("--experimental-features"@).arg("nix-command"@).arg(
        "path-info"@,
    ).arg(deriver)
}

/// The query for the root of the build tool's store.
pub fn store_root_command() -> (r: Command)
    ensures
        r@ == store_root_command_of(),
{
    let mut command = Command::new("nix");
    command.arg("eval");
    command.arg("--raw");
    command.arg("--expr");
    command.arg("builtins.storeDir");
    command
}

/// The probe that tells whether the build tool wants an output selected.
pub fn path_info_command(deriver: &str) -> (r: Command)
    ensures
        r@ == path_info_command_of(deriver@),
{
    let mut command = Command::new("nix");
    command.arg("--experimental-features");
    command.arg("nix-command");
    command.arg("path-info");
    command.arg(deriver);
    command
}

/// Where the local build of a profile stands.
#[derive(Debug, Clone, Copy, PartialEq, Eq, Structural)]
pub enum LocalBuildState {
    /// Nothing was asked for yet.
    Start,
    /// The build runs.
    Building,
    /// The first activation entry point is looked up.
    CheckingDeployRsActivate,
    /// The second activation entry point is looked up.
    CheckingActivateRs,
    /// The signing runs.
    Signing,
    /// The result was handed out.
    Finished,
}

/// Where the build of a profile on its target stands.
#[derive(Debug, Clone, Copy, PartialEq, Eq, Structural)]
pub enum RemoteBuildState {
    /// Nothing was asked for yet.
    Start,
    /// The recipe is copied to the target.
    Copying,
    /// The build runs on the target.
    Building,
    /// The result was handed out.
    Finished,
}

/// Where the push of a built profile stands.
#[derive(Debug, Clone, Copy, PartialEq, Eq, Structural)]
pub enum PushState {
    /// Nothing was asked for yet.
    Start,
    /// The profile is copied to the target.
    Copying,
    /// The result was handed out.
    Finished,
}

/// Where the build of a profile stands, from the search for its recipe on.
#[derive(Debug)]
pub enum BuildState {
    /// Nothing was asked for yet.
    Start,
    /// The metadata of the built profile is queried.
    ShowingDerivation,
    /// The store root is queried, to go in front of the recipe `key`.
    EvaluatingStoreRoot { key: String },
    /// The recipe `deriver` is probed for the need of an output selector.
    ProbingPathInfo { deriver: String },
    /// `derivation` is built locally.
    Local { derivation: String, local: LocalBuildState },
    /// `derivation` is built on the target.
    Remote { derivation: String, remote: RemoteBuildState },
    /// The result was handed out.
    Finished,
}

/// The mathematical value of a [`BuildState`].
pub enum BuildStateView {
    Start,
    ShowingDerivation,
    EvaluatingStoreRoot { key: Seq<char> },
    ProbingPathInfo { deriver: Seq<char> },
    Local { derivation: Seq<char>, local: LocalBuildState },
    Remote { derivation: Seq<char>, remote: RemoteBuildState },
    Finished,
}

impl View for BuildState {
    type V = BuildStateView;

    open spec fn view(&self) -> BuildStateView {
        match self {
            BuildState::Start => BuildStateView::Start,
            BuildState::ShowingDerivation => BuildStateView::ShowingDerivation,
            BuildState::EvaluatingStoreRoot { key } => BuildStateView::EvaluatingStoreRoot {
                key: key@,
            },
            BuildState::ProbingPathInfo { deriver } => BuildStateView::ProbingPathInfo {
                deriver: deriver@,
            },
            BuildState::Local { derivation, local } => BuildStateView::Local {
                derivation: derivation@,
                local: *local,
            },
            BuildState::Remote { derivation, remote } => BuildStateView::Remote {
                derivation: derivation@,
                remote: *remote,
            },
            BuildState::Finished => BuildStateView::Finished,
        }
    }
}

/// A step of a pipeline as a mathematical value: none where the event does
/// not answer what the state waits for.
pub open spec fn step_view<S>(step: Option<(S, Action)>) -> Option<(S, ActionView)> {
    match step {
        Some((state, action)) => Some((state, action@)),
        None => None,
    }
}

/// A step of the build as a mathematical value.
pub open spec fn build_step_view(step: Option<(BuildState, Action)>) -> Option<
    (BuildStateView, ActionView),
> {
    match step {
        Some((state, action)) => Some((state@, action@)),
        None => None,
    }
}

/// The step that ends a pipeline in `finished` with `result`.
pub open spec fn ended<S>(finished: S, result: Result<(), PushProfileError>) -> Option<
    (S, ActionView),
> {
    Some((finished, ActionView::Finish(result)))
}

/// Whether a command ran to its end with success: it exited with code 0.
pub open spec fn succeeded_of(code: Option<i32>) -> bool {
    code == Some(0i32)
}

/// Whether a command ran to its end with success.
pub fn succeeded(code: Option<i32>) -> (r: bool)
    ensures
        r == succeeded_of(code),
{
    match code {
        Some(c) => c == 0,
        None => false,
    }
}

/// The step of a local build: the build, then the two activation entry
/// points in the built profile, then the signing where a key is set. The
/// first failure ends it.
pub open spec fn local_step_of(
    data: &PushProfileData,
    derivation: Seq<char>,
    env: &Environment,
    state: LocalBuildState,
    event: Event,
) -> Option<(LocalBuildState, ActionView)> {
    match state {
        LocalBuildState::Start => match event {
            Event::Start => Some(
                (
                    LocalBuildState::Building,
                    ActionView::Run(data.local_build_command_of(derivation, opt_text(env.tmpdir))),
                ),
            ),
            _ => None,
        },
        LocalBuildState::Building => match event {
            Event::Failed(e) => ended(LocalBuildState::Finished, Err(PushProfileError::Build(e))),
            Event::Exited { code, stdout } => if succeeded_of(code) {
                Some(
                    (
                        LocalBuildState::CheckingDeployRsActivate,
                        ActionView::CheckExists(data.profile_path_of() + "/deploy-rs-activate"@),
                    ),
                )
            } else {
                ended(LocalBuildState::Finished, Err(PushProfileError::BuildExit(code)))
            },
            _ => None,
        },
        LocalBuildState::CheckingDeployRsActivate => match event {
            Event::Exists(found) => if found {
                Some(
                    (
                        LocalBuildState::CheckingActivateRs,
                        ActionView::CheckExists(data.profile_path_of() + "/activate-rs"@),
                    ),
                )
            } else {
                ended(
                    LocalBuildState::Finished,
                    Err(PushProfileError::DeployRsActivateDoesntExist),
                )
            },
            _ => None,
        },
        LocalBuildState::CheckingActivateRs => match event {
            Event::Exists(found) => if !found {
                ended(LocalBuildState::Finished, Err(PushProfileError::ActivateRsDoesntExist))
            } else {
                match env.local_key {
                    Some(key) => Some(
                        (LocalBuildState::Signing, ActionView::Run(data.sign_command_of(key@))),
                    ),
                    None => ended(LocalBuildState::Finished, Ok(())),
                }
            },
            _ => None,
        },
        LocalBuildState::Signing => match event {
            Event::Failed(e) => ended(LocalBuildState::Finished, Err(PushProfileError::Sign(e))),
            Event::Exited { code, stdout } => if succeeded_of(code) {
                ended(LocalBuildState::Finished, Ok(()))
            } else {
                ended(LocalBuildState::Finished, Err(PushProfileError::SignExit(code)))
            },
            _ => None,
        },
        LocalBuildState::Finished => None,
    }
}

/// The step of a build on the target: the copy of the recipe, then the
/// build. The first failure ends it.
pub open spec fn remote_step_of(
    data: &PushProfileData,
    derivation: Seq<char>,
    state: RemoteBuildState,
    event: Event,
) -> Option<(RemoteBuildState, ActionView)> {
    let display = data.deploy_data.progressbar is Some;
    match state {
        RemoteBuildState::Start => match event {
            Event::Start => Some(
                (
                    RemoteBuildState::Copying,
                    ActionView::Stream {
                        command: data.remote_copy_command_of(derivation),
                        display,
                    },
                ),
            ),
            _ => None,
        },
        RemoteBuildState::Copying => match event {
            Event::Failed(e) => ended(RemoteBuildState::Finished, Err(PushProfileError::Copy(e))),
            Event::Exited { code, stdout } => if succeeded_of(code) {
                Some(
                    (
                        RemoteBuildState::Building,
                        ActionView::Stream {
                            command: data.remote_build_command_of(derivation),
                            display,
                        },
                    ),
                )
            } else {
                ended(RemoteBuildState::Finished, Err(PushProfileError::CopyExit(code)))
            },
            _ => None,
        },
        RemoteBuildState::Building => match event {
            Event::Failed(e) => ended(RemoteBuildState::Finished, Err(PushProfileError::Build(e))),
            Event::Exited { code, stdout } => if succeeded_of(code) {
                ended(RemoteBuildState::Finished, Ok(()))
            } else {
                ended(RemoteBuildState::Finished, Err(PushProfileError::BuildExit(code)))
            },
            _ => None,
        },
        RemoteBuildState::Finished => None,
    }
}

/// The step of a push: nothing where the profile was built on the target,
/// else one copy to it.
pub open spec fn push_step_of(data: &PushProfileData, state: PushState, event: Event) -> Option<
    (PushState, ActionView),
> {
    match state {
        PushState::Start => match event {
            Event::Start => if data.remote_build_of() {
                ended(PushState::Finished, Ok(()))
            } else {
                Some((PushState::Copying, ActionView::Run(data.push_copy_command_of())))
            },
            _ => None,
        },
        PushState::Copying => match event {
            Event::Failed(e) => ended(PushState::Finished, Err(PushProfileError::Copy(e))),
            Event::Exited { code, stdout } => if succeeded_of(code) {
                ended(PushState::Finished, Ok(()))
            } else {
                ended(PushState::Finished, Err(PushProfileError::CopyExit(code)))
            },
            _ => None,
        },
        PushState::Finished => None,
    }
}

/// A step of the local build as a step of the whole build.
pub open spec fn lifted_local(
    derivation: Seq<char>,
    step: Option<(LocalBuildState, ActionView)>,
) -> Option<(BuildStateView, ActionView)> {
    match step {
        None => None,
        Some((state, action)) => Some(
            (
                if state == LocalBuildState::Finished {
                    BuildStateView::Finished
                } else {
                    BuildStateView::Local { derivation, local: state }
                },
                action,
            ),
        ),
    }
}

/// A step of the build on the target as a step of the whole build.
pub open spec fn lifted_remote(
    derivation: Seq<char>,
    step: Option<(RemoteBuildState, ActionView)>,
) -> Option<(BuildStateView, ActionView)> {
    match step {
        None => None,
        Some((state, action)) => Some(
            (
                if state == RemoteBuildState::Finished {
                    BuildStateView::Finished
                } else {
                    BuildStateView::Remote { derivation, remote: state }
                },
                action,
            ),
        ),
    }
}

/// The step of the whole build: find the recipe in the metadata of the built
/// profile, put the store root in front of it, probe whether an output has to
/// be selected, and then build, on the target where the settings say so and
/// locally where not. The first failure ends it.
pub open spec fn build_step_of(
    data: &PushProfileData,
    env: &Environment,
    state: BuildStateView,
    event: Event,
) -> Option<(BuildStateView, ActionView)> {
    match state {
        BuildStateView::Start => match event {
            Event::Start => Some(
                (
                    BuildStateView::ShowingDerivation,
                    ActionView::Capture(data.show_derivation_command_of()),
                ),
            ),
            _ => None,
        },
        BuildStateView::ShowingDerivation => match event {
            Event::Failed(e) => ended(
                BuildStateView::Finished,
                Err(PushProfileError::ShowDerivation(e)),
            ),
            Event::Exited { code, stdout } => if !succeeded_of(code) {
                ended(BuildStateView::Finished, Err(PushProfileError::ShowDerivationExit(code)))
            } else {
                match resolved_key_of(stdout@) {
                    Err(e) => ended(BuildStateView::Finished, Err(e)),
                    Ok(key) => Some(
                        (
                            BuildStateView::EvaluatingStoreRoot { key },
                            ActionView::Capture(store_root_command_of()),
                        ),
                    ),
                }
            },
            _ => None,
        },
        BuildStateView::EvaluatingStoreRoot { key } => match event {
            Event::Failed(e) => ended(
                BuildStateView::Finished,
                Err(PushProfileError::EvalStore(e)),
            ),
            Event::Exited { code, stdout } => if !valid_utf8(stdout@) {
                ended(
                    BuildStateView::Finished,
                    Err(PushProfileError::EvalStoreUtf8(utf8_fault(stdout@))),
                )
            } else {
                let deriver = under_store_root(decode_utf8(stdout@), key);
                Some(
                    (
                        BuildStateView::ProbingPathInfo { deriver },
                        ActionView::Capture(path_info_command_of(deriver)),
                    ),
                )
            },
            _ => None,
        },
        BuildStateView::ProbingPathInfo { deriver } => match event {
            Event::Failed(e) => ended(BuildStateView::Finished, Err(PushProfileError::PathInfo(e))),
            Event::Exited { code, stdout } => {
                let derivation = buildable_of(deriver, stdout@);
                if data.remote_build_of() {
                    lifted_remote(
                        derivation,
                        remote_step_of(data, derivation, RemoteBuildState::Start, Event::Start),
                    )
                } else {
                    lifted_local(
                        derivation,
                        local_step_of(data, derivation, env, LocalBuildState::Start, Event::Start),
                    )
                }
            },
            _ => None,
        },
        BuildStateView::Local { derivation, local } => lifted_local(
            derivation,
            local_step_of(data, derivation, env, local, event),
        ),
        BuildStateView::Remote { derivation, remote } => lifted_remote(
            derivation,
            remote_step_of(data, derivation, remote, event),
        ),
        BuildStateView::Finished => None,
    }
}

/// The path of an activation entry point in the built profile.
fn entry_point(data: &PushProfileData, name: &str) -> (r: String)
    ensures
        r@ == data.profile_path_of() + name@,
{
    let mut path = data.deploy_data.profile.profile_settings.path.clone();
    path.append(name);
    path
}

/// Takes a local build of `derivation_name` one step further: given where it
/// stands and what the driver reports, where it stands next and what the
/// driver is to do. `None` where the event does not answer what the state
/// waits for.
pub fn build_profile_locally(
    data: &PushProfileData,
    derivation_name: &str,
    env: &Environment,
    state: LocalBuildState,
    event: Event,
) -> (r: Option<(LocalBuildState, Action)>)
    ensures
        step_view(r) == local_step_of(data, derivation_name@, env, state, event),
{
    match state {
        LocalBuildState::Start => match event {
            Event::Start => Some(
                (
                    LocalBuildState::Building,
                    Action::Run(data.local_build_command(derivation_name, &env.tmpdir)),
                ),
            ),
            _ => None,
        },
        LocalBuildState::Building => match event {
            Event::Failed(e) => Some(
                (LocalBuildState::Finished, Action::Finish(Err(PushProfileError::Build(e)))),
            ),
            Event::Exited { code, stdout } => if succeeded(code) {
                Some(
                    (
                        LocalBuildState::CheckingDeployRsActivate,
                        Action::CheckExists(entry_point(data, "/deploy-rs-activate")),
                    ),
                )
            } else {
                Some(
                    (
                        LocalBuildState::Finished,
                        Action::Finish(Err(PushProfileError::BuildExit(code))),
                    ),
                )
            },
            _ => None,
        },
        LocalBuildState::CheckingDeployRsActivate => match event {
            Event::Exists(found) => if found {
                Some(
                    (
                        LocalBuildState::CheckingActivateRs,
                        Action::CheckExists(entry_point(data, "/activate-rs")),
                    ),
                )
            } else {
                Some(
                    (
                        LocalBuildState::Finished,
                        Action::Finish(Err(PushProfileError::DeployRsActivateDoesntExist)),
                    ),
                )
            },
            _ => None,
        },
        LocalBuildState::CheckingActivateRs => match event {
            Event::Exists(found) => if !found {
                Some(
                    (
                        LocalBuildState::Finished,
                        Action::Finish(Err(PushProfileError::ActivateRsDoesntExist)),
                    ),
                )
            } else {
                match &env.local_key {
                    Some(key) => Some(
                        (LocalBuildState::Signing, Action::Run(data.sign_command(key.as_str()))),
                    ),
                    None => Some((LocalBuildState::Finished, Action::Finish(Ok(())))),
                }
            },
            _ => None,
        },
        LocalBuildState::Signing => match event {
            Event::Failed(e) => Some(
                (LocalBuildState::Finished, Action::Finish(Err(PushProfileError::Sign(e)))),
            ),
            Event::Exited { code, stdout } => if succeeded(code) {
                Some((LocalBuildState::Finished, Action::Finish(Ok(()))))
            } else {
                Some(
                    (
                        LocalBuildState::Finished,
                        Action::Finish(Err(PushProfileError::SignExit(code))),
                    ),
                )
            },
            _ => None,
        },
        LocalBuildState::Finished => None,
    }
}

/// Takes a build of `derivation_name` on the target one step further. `None`
/// where the event does not answer what the state waits for.
pub fn build_profile_remotely(
    data: &PushProfileData,
    derivation_name: &str,
    state: RemoteBuildState,
    event: Event,
) -> (r: Option<(RemoteBuildState, Action)>)
    ensures
        step_view(r) == remote_step_of(data, derivation_name@, state, event),
{
    let display = data.deploy_data.progressbar.is_some();
    match state {
        RemoteBuildState::Start => match event {
            Event::Start => Some(
                (
                    RemoteBuildState::Copying,
                    Action::Stream { command: data.remote_copy_command(derivation_name), display },
                ),
            ),
            _ => None,
        },
        RemoteBuildState::Copying => match event {
            Event::Failed(e) => Some(
                (RemoteBuildState::Finished, Action::Finish(Err(PushProfileError::Copy(e)))),
            ),
            Event::Exited { code, stdout } => if succeeded(code) {
                Some(
                    (
                        RemoteBuildState::Building,
                        Action::Stream {
                            command: data.remote_build_command(derivation_name),
                            display,
                        },
                    ),
                )
            } else {
                Some(
                    (
                        RemoteBuildState::Finished,
                        Action::Finish(Err(PushProfileError::CopyExit(code))),
                    ),
                )
            },
            _ => None,
        },
        RemoteBuildState::Building => match event {
            Event::Failed(e) => Some(
                (RemoteBuildState::Finished, Action::Finish(Err(PushProfileError::Build(e)))),
            ),
            Event::Exited { code, stdout } => if succeeded(code) {
                Some((RemoteBuildState::Finished, Action::Finish(Ok(()))))
            } else {
                Some(
                    (
                        RemoteBuildState::Finished,
                        Action::Finish(Err(PushProfileError::BuildExit(code))),
                    ),
                )
            },
            _ => None,
        },
        RemoteBuildState::Finished => None,
    }
}

/// Takes the push of the built profile one step further. `None` where the
/// event does not answer what the state waits for.
pub fn push_profile(data: &PushProfileData, state: PushState, event: Event) -> (r: Option<
    (PushState, Action),
>)
    ensures
        step_view(r) == push_step_of(data, state, event),
{
    match state {
        PushState::Start => match event {
            Event::Start => if data.remote_build() {
                Some((PushState::Finished, Action::Finish(Ok(()))))
            } else {
                Some((PushState::Copying, Action::Run(data.push_copy_command())))
            },
            _ => None,
        },
        PushState::Copying => match event {
            Event::Failed(e) => Some(
                (PushState::Finished, Action::Finish(Err(PushProfileError::Copy(e)))),
            ),
            Event::Exited { code, stdout } => if succeeded(code) {
                Some((PushState::Finished, Action::Finish(Ok(()))))
            } else {
                Some((PushState::Finished, Action::Finish(Err(PushProfileError::CopyExit(code)))))
            },
            _ => None,
        },
        PushState::Finished => None,
    }
}

/// Makes a step of the local build a step of the whole build.
fn lift_local(derivation: String, step: Option<(LocalBuildState, Action)>) -> (r: Option<
    (BuildState, Action),
>)
    ensures
        build_step_view(r) == lifted_local(derivation@, step_view(step)),
{
    match step {
        None => None,
        Some((state, action)) => match state {
            LocalBuildState::Finished => Some((BuildState::Finished, action)),
            _ => Some((BuildState::Local { derivation, local: state }, action)),
        },
    }
}

/// Makes a step of the build on the target a step of the whole build.
fn lift_remote(derivation: String, step: Option<(RemoteBuildState, Action)>) -> (r: Option<
    (BuildState, Action),
>)
    ensures
        build_step_view(r) == lifted_remote(derivation@, step_view(step)),
{
    match step {
        None => None,
        Some((state, action)) => match state {
            RemoteBuildState::Finished => Some((BuildState::Finished, action)),
            _ => Some((BuildState::Remote { derivation, remote: state }, action)),
        },
    }
}

/// Takes the build of the profile one step further, from the search for its
/// recipe to the end of the build. `None` where the event does not answer
/// what the state waits for.
pub fn build_profile(
    data: &PushProfileData,
    env: &Environment,
    state: BuildState,
    event: Event,
) -> (r: Option<(BuildState, Action)>)
    ensures
        build_step_view(r) == build_step_of(data, env, state@, event),
{
    match state {
        BuildState::Start => match event {
            Event::Start => Some(
                (BuildState::ShowingDerivation, Action::Capture(data.show_derivation_command())),
            ),
            _ => None,
        },
        BuildState::ShowingDerivation => match event {
            Event::Failed(e) => Some(
                (BuildState::Finished, Action::Finish(Err(PushProfileError::ShowDerivation(e)))),
            ),
            Event::Exited { code, stdout } => if !succeeded(code) {
                Some(
                    (
                        BuildState::Finished,
                        Action::Finish(Err(PushProfileError::ShowDerivationExit(code))),
                    ),
                )
            } else {
                match find_deriver_key(stdout.as_slice()) {
                    Err(e) => Some((BuildState::Finished, Action::Finish(Err(e)))),
                    Ok(key) => Some(
                        (
                            BuildState::EvaluatingStoreRoot { key },
                            Action::Capture(store_root_command()),
                        ),
                    ),
                }
            },
            _ => None,
        },
        BuildState::EvaluatingStoreRoot { key } => match event {
            Event::Failed(e) => Some(
                (BuildState::Finished, Action::Finish(Err(PushProfileError::EvalStore(e)))),
            ),
            Event::Exited { code, stdout } => match std::str::from_utf8(stdout.as_slice()) {
                Err(e) => Some(
                    (BuildState::Finished, Action::Finish(Err(PushProfileError::EvalStoreUtf8(e)))),
                ),
                Ok(store) => {
                    let deriver = with_store_root(store, key.as_str());
                    let probe = path_info_command(deriver.as_str());
                    Some((BuildState::ProbingPathInfo { deriver }, Action::Capture(probe)))
                },
            },
            _ => None,
        },
        BuildState::ProbingPathInfo { deriver } => match event {
            Event::Failed(e) => Some(
                (BuildState::Finished, Action::Finish(Err(PushProfileError::PathInfo(e)))),
            ),
            Event::Exited { code, stdout } => {
                let derivation = buildable(deriver, stdout.as_slice());
                if data.remote_build() {
                    let step = build_profile_remotely(
                        data,
                        derivation.as_str(),
                        RemoteBuildState::Start,
                        Event::Start,
                    );
                    lift_remote(derivation, step)
                } else {
                    let step = build_profile_locally(
                        data,
                        derivation.as_str(),
                        env,
                        LocalBuildState::Start,
                        Event::Start,
                    );
                    lift_local(derivation, step)
                }
            },
            _ => None,
        },
        BuildState::Local { derivation, local } => {
            let step = build_profile_locally(data, derivation.as_str(), env, local, event);
            lift_local(derivation, step)
        },
        BuildState::Remote { derivation, remote } => {
            let step = build_profile_remotely(data, derivation.as_str(), remote, event);
            lift_remote(derivation, step)
        },
        BuildState::Finished => None,
    }
}

} // verus!
