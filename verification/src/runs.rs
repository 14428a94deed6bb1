//! Whole runs of the pipelines: what holds of every sequence of reports that
//! a driver may hand to them.

use crate::command::{ActionView, Event};
use crate::push::{
    build_step_of, local_step_of, push_step_of, remote_step_of, BuildStateView, Environment,
    LocalBuildState, PushProfileData, PushState, RemoteBuildState,
};
use vstd::prelude::*;

verus! {

/// A step taken: the state that the pipeline came to, and what it asked for.
pub type Step<S> = (S, ActionView);

/// The steps that a pipeline takes from `state` on the reports `events`, in
/// order. The run ends with the reports, or before the first report that does
/// not answer what the state waits for.
pub open spec fn run<S>(
    step: spec_fn(S, Event) -> Option<Step<S>>,
    state: S,
    events: Seq<Event>,
) -> Seq<Step<S>>
    decreases events.len(),
{
    if events.len() == 0 {
        Seq::empty()
    } else {
        match step(state, events[0]) {
            None => Seq::empty(),
            Some((next, action)) => seq![(next, action)] + run(step, next, events.drop_first()),
        }
    }
}

/// How many of the steps are `wanted`.
pub open spec fn count<S>(steps: Seq<Step<S>>, wanted: spec_fn(Step<S>) -> bool) -> nat
    decreases steps.len(),
{
    if steps.len() == 0 {
        0
    } else {
        (if wanted(steps[0]) {
            1nat
        } else {
            0nat
        }) + count(steps.drop_first(), wanted)
    }
}

/// Counting goes step by step.
proof fn count_first<S>(first: Step<S>, rest: Seq<Step<S>>, wanted: spec_fn(Step<S>) -> bool)
    ensures
        count(seq![first] + rest, wanted) == (if wanted(first) {
            1nat
        } else {
            0nat
        }) + count(rest, wanted),
{
    assert((seq![first] + rest).drop_first() =~= rest);
}

/// The step function of the push of `data`.
pub open spec fn push_stepper(data: &PushProfileData) -> spec_fn(PushState, Event) -> Option<
    Step<PushState>,
> {
    |state: PushState, event: Event| push_step_of(data, state, event)
}

/// The step function of the local build of `derivation`.
pub open spec fn local_stepper(
    data: &PushProfileData,
    derivation: Seq<char>,
    env: &Environment,
) -> spec_fn(LocalBuildState, Event) -> Option<Step<LocalBuildState>> {
    |state: LocalBuildState, event: Event| local_step_of(data, derivation, env, state, event)
}

/// The step function of the build of `derivation` on the target.
pub open spec fn remote_stepper(data: &PushProfileData, derivation: Seq<char>) -> spec_fn(
    RemoteBuildState,
    Event,
) -> Option<Step<RemoteBuildState>> {
    |state: RemoteBuildState, event: Event| remote_step_of(data, derivation, state, event)
}

/// The step function of the whole build of `data`.
pub open spec fn build_stepper(data: &PushProfileData, env: &Environment) -> spec_fn(
    BuildStateView,
    Event,
) -> Option<Step<BuildStateView>> {
    |state: BuildStateView, event: Event| build_step_of(data, env, state, event)
}

/// Steps that ask the driver to run a command.
pub open spec fn runs_command<S>() -> spec_fn(Step<S>) -> bool {
    |step: Step<S>| step.1.is_command()
}

/// Steps that report success.
pub open spec fn reports_success<S>() -> spec_fn(Step<S>) -> bool {
    |step: Step<S>| step.1 == ActionView::Finish(Ok(()))
}

/// Whether the error tells that the recipe of the profile was not found:
/// one of the three queries before the build could not be run, or what it
/// wrote could not be used.
pub open spec fn fails_to_resolve(e: crate::push::PushProfileError) -> bool {
    ||| e is ShowDerivation
    ||| e is ShowDerivationExit
    ||| e is ShowDerivationUtf8
    ||| e is ShowDerivationParse
    ||| e is ShowDerivationInvalid
    ||| e is ShowDerivationEmpty
    ||| e is EvalStore
    ||| e is EvalStoreUtf8
    ||| e is PathInfo
}

/// Steps that hand out the result of a build that had its recipe: success,
/// or a failure of the build itself.
pub open spec fn reports_on_a_build() -> spec_fn(Step<BuildStateView>) -> bool {
    |step: Step<BuildStateView>|
        step.1 matches ActionView::Finish(result) && (result matches Err(e) ==> !fails_to_resolve(
            e,
        ))
}

/// Steps with which the local build begins.
pub open spec fn enters_local_build() -> spec_fn(Step<BuildStateView>) -> bool {
    |step: Step<BuildStateView>|
        step.0 matches BuildStateView::Local { local: LocalBuildState::Building, .. }
}

/// Steps with which the build on the target begins.
pub open spec fn enters_remote_build() -> spec_fn(Step<BuildStateView>) -> bool {
    |step: Step<BuildStateView>|
        step.0 matches BuildStateView::Remote { remote: RemoteBuildState::Copying, .. }
}

/// Steps that report that the build could not be run or did not exit with
/// code 0.
pub open spec fn reports_failed_build<S>() -> spec_fn(Step<S>) -> bool {
    |step: Step<S>|
        step.1 matches ActionView::Finish(Err(e)) && (e is Build || e is BuildExit)
}

/// Steps that start the signing.
pub open spec fn starts_signing() -> spec_fn(Step<LocalBuildState>) -> bool {
    |step: Step<LocalBuildState>| step.0 == LocalBuildState::Signing
}

/// How many copies a push may still start from `state`.
spec fn copies_ahead(data: &PushProfileData, state: PushState) -> nat {
    if state == PushState::Start && !data.remote_build_of() {
        1
    } else {
        0
    }
}

/// From any state, a push starts no more copies than are ahead of it.
proof fn push_run_copies(data: &PushProfileData, state: PushState, events: Seq<Event>)
    ensures
        count(run(push_stepper(data), state, events), runs_command()) <= copies_ahead(data, state),
        state == PushState::Start && events.len() > 0 && events[0] is Start ==> count(
            run(push_stepper(data), state, events),
            runs_command(),
        ) == copies_ahead(data, state),
    decreases events.len(),
{
    if events.len() > 0 {
        match push_step_of(data, state, events[0]) {
            None => {},
            Some((next, action)) => {
                let rest = run(push_stepper(data), next, events.drop_first());
                push_run_copies(data, next, events.drop_first());
                count_first((next, action), rest, runs_command());
            },
        }
    }
}

/// A push copies the profile to the target once where it was built locally,
/// and never where it was built on the target, whatever the driver reports.
pub proof fn push_copies_once_or_never(data: &PushProfileData, events: Seq<Event>)
    ensures
        data.remote_build_of() ==> count(
            run(push_stepper(data), PushState::Start, events),
            runs_command(),
        ) == 0,
        !data.remote_build_of() ==> count(
            run(push_stepper(data), PushState::Start, events),
            runs_command(),
        ) <= 1,
        !data.remote_build_of() && events.len() > 0 && events[0] is Start ==> count(
            run(push_stepper(data), PushState::Start, events),
            runs_command(),
        ) == 1,
{
    push_run_copies(data, PushState::Start, events);
}

/// Whether the build in `state` has yet to choose between the local build and
/// the build on the target.
spec fn undecided(state: BuildStateView) -> bool {
    state is Start || state is ShowingDerivation || state is EvaluatingStoreRoot
        || state is ProbingPathInfo
}

/// What holds of every state that the build comes to: it builds locally only
/// where the settings say so, and on the target only where they say so.
spec fn fits_settings(data: &PushProfileData, state: BuildStateView) -> bool {
    match state {
        BuildStateView::Local { local, .. } => !data.remote_build_of() && local
            != LocalBuildState::Start && local != LocalBuildState::Finished,
        BuildStateView::Remote { remote, .. } => data.remote_build_of() && remote
            != RemoteBuildState::Start && remote != RemoteBuildState::Finished,
        _ => true,
    }
}

/// From any state that fits the settings, a build enters no more builds
/// than it has yet to choose, and only the one that the settings name.
proof fn build_run_branches(
    data: &PushProfileData,
    env: &Environment,
    state: BuildStateView,
    events: Seq<Event>,
)
    requires
        fits_settings(data, state),
    ensures
        ({
            let steps = run(build_stepper(data, env), state, events);
            let local = count(steps, enters_local_build());
            let remote = count(steps, enters_remote_build());
            &&& local + remote <= (if undecided(state) {
                1nat
            } else {
                0nat
            })
            &&& data.remote_build_of() ==> local == 0
            &&& !data.remote_build_of() ==> remote == 0
            &&& count(steps, reports_on_a_build()) >= 1 && undecided(state) ==> local + remote
                == 1
        }),
    decreases events.len(),
{
    if events.len() > 0 {
        match build_step_of(data, env, state, events[0]) {
            None => {},
            Some((next, action)) => {
                let rest = run(build_stepper(data, env), next, events.drop_first());
                build_run_branches(data, env, next, events.drop_first());
                count_first((next, action), rest, enters_local_build());
                count_first((next, action), rest, enters_remote_build());
                count_first((next, action), rest, reports_on_a_build());
                if next is Finished {
                    assert(rest =~= Seq::empty());
                }
            },
        }
    }
}

/// Exactly one of the local build and the build on the target runs in the
/// build of a target: never both, only the one that the settings name, and
/// never neither where the build hands out success or a failure other than
/// that of finding the recipe.
pub proof fn one_build_per_target(data: &PushProfileData, env: &Environment, events: Seq<Event>)
    ensures
        ({
            let steps = run(build_stepper(data, env), BuildStateView::Start, events);
            let local = count(steps, enters_local_build());
            let remote = count(steps, enters_remote_build());
            &&& local + remote <= 1
            &&& data.remote_build_of() ==> local == 0
            &&& !data.remote_build_of() ==> remote == 0
            &&& count(steps, reports_on_a_build()) >= 1 ==> local + remote == 1
        }),
{
    build_run_branches(data, env, BuildStateView::Start, events);
}

/// How many signings a local build may still start from `state`.
spec fn signings_ahead(env: &Environment, state: LocalBuildState) -> nat {
    if env.local_key is Some && state != LocalBuildState::Signing && state
        != LocalBuildState::Finished {
        1
    } else {
        0
    }
}

/// From any state, a local build starts no more signings than are ahead of
/// it, and all of them where it reports success.
proof fn local_run_signs(
    data: &PushProfileData,
    derivation: Seq<char>,
    env: &Environment,
    state: LocalBuildState,
    events: Seq<Event>,
)
    ensures
        ({
            let steps = run(local_stepper(data, derivation, env), state, events);
            &&& count(steps, starts_signing()) <= signings_ahead(env, state)
            &&& count(steps, reports_success()) >= 1 ==> count(steps, starts_signing())
                == signings_ahead(env, state)
            &&& count(steps, reports_success()) <= 1
        }),
    decreases events.len(),
{
    if events.len() > 0 {
        match local_step_of(data, derivation, env, state, events[0]) {
            None => {},
            Some((next, action)) => {
                let rest = run(local_stepper(data, derivation, env), next, events.drop_first());
                local_run_signs(data, derivation, env, next, events.drop_first());
                count_first((next, action), rest, starts_signing());
                count_first((next, action), rest, reports_success());
                if next == LocalBuildState::Finished {
                    assert(rest =~= Seq::empty());
                }
            },
        }
    }
}

/// A local build that reports success has signed the profile once where a key
/// is set, and not at all where none is; and no local build signs twice.
pub proof fn signs_once_with_a_key(
    data: &PushProfileData,
    derivation: Seq<char>,
    env: &Environment,
    events: Seq<Event>,
)
    ensures
        ({
            let steps = run(local_stepper(data, derivation, env), LocalBuildState::Start, events);
            &&& count(steps, starts_signing()) <= 1
            &&& env.local_key is None ==> count(steps, starts_signing()) == 0
            &&& env.local_key is Some && count(steps, reports_success()) >= 1 ==> count(
                steps,
                starts_signing(),
            ) == 1
        }),
{
    local_run_signs(data, derivation, env, LocalBuildState::Start, events);
}

/// A failed build is only ahead of a local build that has not yet looked
/// into what was built, and then no signing is.
proof fn local_run_fails(
    data: &PushProfileData,
    derivation: Seq<char>,
    env: &Environment,
    state: LocalBuildState,
    events: Seq<Event>,
)
    ensures
        ({
            let steps = run(local_stepper(data, derivation, env), state, events);
            count(steps, reports_failed_build()) >= 1 ==> {
                &&& state == LocalBuildState::Start || state == LocalBuildState::Building
                &&& count(steps, starts_signing()) == 0
                &&& count(steps, reports_success()) == 0
            }
        }),
    decreases events.len(),
{
    if events.len() > 0 {
        match local_step_of(data, derivation, env, state, events[0]) {
            None => {},
            Some((next, action)) => {
                let rest = run(local_stepper(data, derivation, env), next, events.drop_first());
                local_run_fails(data, derivation, env, next, events.drop_first());
                count_first((next, action), rest, reports_failed_build());
                count_first((next, action), rest, starts_signing());
                count_first((next, action), rest, reports_success());
                if next == LocalBuildState::Finished {
                    assert(rest =~= Seq::empty());
                }
            },
        }
    }
}

/// A local build whose build command fails signs nothing and reports no
/// success.
pub proof fn failed_build_signs_nothing(
    data: &PushProfileData,
    derivation: Seq<char>,
    env: &Environment,
    events: Seq<Event>,
)
    ensures
        ({
            let steps = run(local_stepper(data, derivation, env), LocalBuildState::Start, events);
            count(steps, reports_failed_build()) >= 1 ==> count(steps, starts_signing()) == 0
                && count(steps, reports_success()) == 0
        }),
{
    local_run_fails(data, derivation, env, LocalBuildState::Start, events);
}

/// Whether a pipeline ends in `finished`: it hands out a result exactly when
/// it comes to that state, and answers no report from there.
pub open spec fn ends_in<S>(step: spec_fn(S, Event) -> Option<Step<S>>, finished: S) -> bool {
    &&& forall|event: Event| (#[trigger] step(finished, event)) is None
    &&& forall|state: S, event: Event|
        (#[trigger] step(state, event)) matches Some((next, action)) ==> (action is Finish <==> next
            == finished)
}

/// In a pipeline that ends in a state, the step that hands out the result is
/// the last one: after a failure, as after success, nothing more is asked for.
pub proof fn nothing_follows_the_result<S>(
    step: spec_fn(S, Event) -> Option<Step<S>>,
    finished: S,
    state: S,
    events: Seq<Event>,
    i: int,
)
    requires
        ends_in(step, finished),
        0 <= i < run(step, state, events).len(),
        run(step, state, events)[i].1 is Finish,
    ensures
        i == run(step, state, events).len() - 1,
    decreases events.len(),
{
    match step(state, events[0]) {
        None => {},
        Some((next, action)) => {
            let rest = run(step, next, events.drop_first());
            if i == 0 {
                assert(next == finished);
                assert(rest =~= Seq::empty()) by {
                    if events.drop_first().len() > 0 {
                        assert(step(finished, events.drop_first()[0]) is None);
                    }
                }
            } else {
                assert(run(step, state, events)[i] == rest[i - 1]);
                nothing_follows_the_result(step, finished, next, events.drop_first(), i - 1);
            }
        },
    }
}

/// The push ends in its state `Finished`.
pub proof fn push_ends_when_finished(data: &PushProfileData)
    ensures
        ends_in(push_stepper(data), PushState::Finished),
{
}

/// The local build, the build on the target and the whole build each end in
/// their state `Finished`.
pub proof fn builds_end_when_finished(
    data: &PushProfileData,
    derivation: Seq<char>,
    env: &Environment,
)
    ensures
        ends_in(local_stepper(data, derivation, env), LocalBuildState::Finished),
        ends_in(remote_stepper(data, derivation), RemoteBuildState::Finished),
        ends_in(build_stepper(data, env), BuildStateView::Finished),
{
}

/// Whatever the driver reports, the build of a target hands out its result
/// in its last step: after the first failure, as after success, no command is
/// asked for.
pub proof fn build_ends_with_its_result(
    data: &PushProfileData,
    env: &Environment,
    events: Seq<Event>,
    i: int,
)
    requires
        0 <= i < run(build_stepper(data, env), BuildStateView::Start, events).len(),
        run(build_stepper(data, env), BuildStateView::Start, events)[i].1 is Finish,
    ensures
        i == run(build_stepper(data, env), BuildStateView::Start, events).len() - 1,
{
    builds_end_when_finished(data, Seq::empty(), env);
    nothing_follows_the_result(
        build_stepper(data, env),
        BuildStateView::Finished,
        BuildStateView::Start,
        events,
        i,
    );
}

/// Whatever the driver reports, the push of a target hands out its result in
/// its last step.
pub proof fn push_ends_with_its_result(data: &PushProfileData, events: Seq<Event>, i: int)
    requires
        0 <= i < run(push_stepper(data), PushState::Start, events).len(),
        run(push_stepper(data), PushState::Start, events)[i].1 is Finish,
    ensures
        i == run(push_stepper(data), PushState::Start, events).len() - 1,
{
    push_ends_when_finished(data);
    nothing_follows_the_result(
        push_stepper(data),
        PushState::Finished,
        PushState::Start,
        events,
        i,
    );
}

} // verus!
