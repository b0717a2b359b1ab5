use vstd::prelude::*;
use crate::launch::{Action, Event, Launch, Stage, action_after, advance, failure_of, layers_after, succeeded, token_after};
use crate::registry::{LaunchError, layers_of_text, texts, token_of_text};

verus! {

/// The stage reached from `stage` after `steps` successful steps, with a
/// manifest of `n` layers.
pub open spec fn after_successes(stage: Stage, steps: nat, n: nat) -> Stage
    decreases steps,
{
    if steps == 0 {
        stage
    } else {
        advance(after_successes(stage, (steps - 1) as nat, n), true, n)
    }
}

/// Whether the filesystem root has been changed by the time of `stage`.
pub open spec fn root_changed(stage: Stage) -> bool {
    stage is Isolating || stage is Running || stage is Exited
}

/// The position of a stage in the launch.
pub open spec fn stage_rank(stage: Stage, n: nat) -> int {
    match stage {
        Stage::Authenticating => 0,
        Stage::Resolving => 1,
        Stage::Fetching { index } => 2 + 2 * index,
        Stage::Unpacking { index } => 3 + 2 * index,
        Stage::Assembling => 2 + 2 * (n as int),
        Stage::Confining => 3 + 2 * (n as int),
        Stage::Isolating => 4 + 2 * (n as int),
        Stage::Running => 5 + 2 * (n as int),
        Stage::Exited => 6 + 2 * (n as int),
        Stage::Failed => 7 + 2 * (n as int),
    }
}

/// Layers are applied in manifest order and in no other: from the first
/// layer, successful steps fetch and unpack layer 0, then layer 1, and so on,
/// each once, and the root is assembled only after the last one.
pub proof fn law_layers_in_manifest_order(n: nat, j: nat)
    requires
        0 < n <= usize::MAX,
        j <= 2 * (n as int),
    ensures
        j < 2 * n && j % 2 == 0 ==> after_successes(Stage::Fetching { index: 0 }, j, n) == (
        Stage::Fetching { index: (j / 2) as usize }),
        j < 2 * n && j % 2 == 1 ==> after_successes(Stage::Fetching { index: 0 }, j, n) == (
        Stage::Unpacking { index: (j / 2) as usize }),
        j == 2 * n ==> after_successes(Stage::Fetching { index: 0 }, j, n) == Stage::Assembling,
    decreases j,
{
    if j > 0 {
        law_layers_in_manifest_order(n, (j - 1) as nat);
    }
}

/// The blob fetched at each layer stage is that layer's own digest.
pub proof fn law_fetch_names_its_layer(old: Launch, new: Launch, e: Event, a: Action, i: usize)
    requires
        action_after(old, new, e, a),
        new.stage == (Stage::Fetching { index: i }),
    ensures
        match a {
            Action::FetchBlob { url, token } => url@ == crate::registry::blob_url_of(
                new.image.name@,
                new.layers@[i as int]@,
            ),
            _ => false,
        },
{
}

/// A failed step ends the launch: nothing after it is fetched, unpacked or run.
pub proof fn law_failure_is_final(stage: Stage, ok: bool, n: nat)
    ensures
        stage != Stage::Exited ==> advance(stage, false, n) == Stage::Failed,
        advance(Stage::Failed, ok, n) == Stage::Failed,
{
}

/// Confinement is one way: the launch never moves back to an earlier stage,
/// and once the root has changed it either stays changed or fails.
pub proof fn law_confinement_is_one_way(stage: Stage, ok: bool, n: nat)
    requires
        n <= usize::MAX,
        match stage {
            Stage::Fetching { index } | Stage::Unpacking { index } => index < n,
            _ => true,
        },
    ensures
        stage_rank(advance(stage, ok, n), n) >= stage_rank(stage, n),
        root_changed(stage) ==> root_changed(advance(stage, ok, n)) || advance(stage, ok, n)
            == Stage::Failed,
{
}

/// After the root has changed, no action touches the registry or host paths.
pub proof fn law_no_host_work_after_confinement(old: Launch, new: Launch, e: Event, a: Action)
    requires
        action_after(old, new, e, a),
        root_changed(new.stage),
    ensures
        !(a is FetchToken || a is FetchManifest || a is FetchBlob || a is Unpack
            || a is PrepareRoot || a is Confine),
{
}

/// The process-ID namespace request is best effort: whether or not it
/// succeeded, the command is run next.
pub proof fn law_pid_isolation_is_best_effort(s: Launch, ok: bool, n: nat)
    requires
        s.stage == Stage::Isolating,
    ensures
        advance(s.stage, succeeded(s, Event::PidsIsolated { ok }), n) == Stage::Running,
{
}

/// An auth answer without a token string fails the launch with the auth
/// error and changes nothing else.
pub proof fn law_auth_answer_without_token(s: Launch, body: String)
    requires
        s.stage == Stage::Authenticating,
        token_of_text(body@) is None,
    ensures
        advance(s.stage, succeeded(s, Event::TokenAnswer { body: Some(body) }), s.layers@.len())
            == Stage::Failed,
        failure_of(s, LaunchError::Auth),
        token_after(s, Event::TokenAnswer { body: Some(body) }) == s.token@,
        layers_after(s, Event::TokenAnswer { body: Some(body) }) == texts(s.layers@),
{
}

/// A manifest answer without a layer list fails the launch with the manifest
/// error and changes nothing else.
pub proof fn law_manifest_answer_without_layers(s: Launch, body: String)
    requires
        s.stage == Stage::Resolving,
        layers_of_text(body@) is None,
    ensures
        advance(s.stage, succeeded(s, Event::ManifestAnswer { body: Some(body) }), s.layers@.len())
            == Stage::Failed,
        failure_of(s, LaunchError::Manifest),
        token_after(s, Event::ManifestAnswer { body: Some(body) }) == s.token@,
        layers_after(s, Event::ManifestAnswer { body: Some(body) }) == texts(s.layers@),
{
}

/// A manifest with no layers still leads to a confined run: the root is
/// assembled, changed, isolated, and the command started.
pub proof fn law_empty_manifest_still_runs()
    ensures
        after_successes(Stage::Resolving, 1, 0) == Stage::Assembling,
        after_successes(Stage::Resolving, 4, 0) == Stage::Running,
{
    reveal_with_fuel(after_successes, 5);
}

/// A command that cannot be placed in the root, or cannot be started, fails
/// the launch with the root-assembly or the exec error; it never succeeds.
pub proof fn law_missing_command_fails(s: Launch, n: nat)
    requires
        s.stage == Stage::Assembling || s.stage == Stage::Running,
    ensures
        s.stage == Stage::Assembling ==> advance(
            s.stage,
            succeeded(s, Event::RootPrepared { ok: false }),
            n,
        ) == Stage::Failed && failure_of(s, LaunchError::RootAssembly),
        s.stage == Stage::Running ==> advance(s.stage, succeeded(s, Event::SpawnFailed), n)
            == Stage::Failed && failure_of(s, LaunchError::Exec),
{
}

} // verus!
