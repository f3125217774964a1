//! The flow-wide guarantees, stated and proved over the transition relation
//! [`step_rel`](crate::flow::step_rel) and the naming functions.

use vstd::prelude::*;
use crate::artifact::{archive_name_spec, binary_name_spec};
use crate::config::{args_of, explicit_path_of, passthrough_of, InitConfig, ResolvedConfig};
use crate::extract::{lemma_plan_paths_safe, op_path, ops_model, plan_of, zip_entries_of};
use crate::flow::{
    start_server_action, step_rel, Action, Event, FlowError, FlowState,
};
use crate::paths::entry_path_is_safe;
use crate::platform::{arch_of, os_of, PlatformAxis, PlatformTarget};

verus! {

/// Artifact naming is a pure deterministic function: any two results that
/// meet the naming contracts on identical inputs are identical.
pub proof fn lemma_artifact_naming_deterministic(
    version: Seq<char>,
    t: PlatformTarget,
    archive1: Seq<char>,
    archive2: Seq<char>,
    binary1: Seq<char>,
    binary2: Seq<char>,
)
    requires
        archive1 == archive_name_spec(version, t),
        archive2 == archive_name_spec(version, t),
        binary1 == binary_name_spec(t),
        binary2 == binary_name_spec(t),
    ensures
        archive1 == archive2,
        binary1 == binary2,
{
}

/// An unsupported operating-system or architecture string is fatal: the flow
/// fails with `UnsupportedPlatform` and the only action is the report — no
/// network and no filesystem action occurs.
pub proof fn lemma_unsupported_platform_halts(
    cfg: ResolvedConfig,
    os: String,
    arch: String,
    post: FlowState,
    act: Action,
)
    requires
        step_rel(FlowState::AwaitingEnv { cfg }, Event::Env { os, arch }, post, act),
        os_of(os@) is None || arch_of(arch@) is None,
    ensures
        post matches FlowState::Failed { error } && error is UnsupportedPlatform,
        act is Report,
        arch_of(arch@) is None ==> (post matches FlowState::Failed { error }
            && error matches FlowError::UnsupportedPlatform { axis, value }
            && axis == PlatformAxis::Architecture && value@ == arch@),
        arch_of(arch@) is Some && os_of(os@) is None ==> (post matches FlowState::Failed { error }
            && error matches FlowError::UnsupportedPlatform { axis, value }
            && axis == PlatformAxis::OperatingSystem && value@ == os@),
{
}

/// Idempotence of acquisition: when the expected binary is already present,
/// the flow goes straight to URI resolution — it never fetches, saves,
/// extracts or removes anything — and hands the host the same binary name to
/// join that a fresh install hands it, so the launch URI is the same one.
pub proof fn lemma_present_binary_skips_acquisition(
    cfg: ResolvedConfig,
    target: PlatformTarget,
    post: FlowState,
    act: Action,
)
    requires
        step_rel(
            FlowState::AwaitingPresence { cfg, target },
            Event::Presence { present: true },
            post,
            act,
        ),
    ensures
        post matches FlowState::AwaitingUri { cfg: c, target: t } && c == cfg && t == target,
        act matches Action::ResolveLaunchUri { binary, cleanup_warning } && binary@
            == binary_name_spec(target) && !cleanup_warning,
{
}

/// The reuse path and the fresh-install path hand the host the same binary
/// name to join onto the working-directory URI.
pub proof fn lemma_reuse_joins_same_binary_as_fresh_install(
    cfg1: ResolvedConfig,
    cfg2: ResolvedConfig,
    target: PlatformTarget,
    removed: bool,
    post1: FlowState,
    act1: Action,
    post2: FlowState,
    act2: Action,
)
    requires
        step_rel(
            FlowState::AwaitingPresence { cfg: cfg1, target },
            Event::Presence { present: true },
            post1,
            act1,
        ),
        step_rel(
            FlowState::AwaitingCleanup { cfg: cfg2, target },
            Event::ArchiveRemoved { removed },
            post2,
            act2,
        ),
    ensures
        act1 matches Action::ResolveLaunchUri { binary, .. } ==> binary@ == binary_name_spec(
            target,
        ),
        act2 matches Action::ResolveLaunchUri { binary, .. } ==> binary@ == binary_name_spec(
            target,
        ),
        act1 is ResolveLaunchUri,
        act2 is ResolveLaunchUri,
{
}

/// Explicit-server-path short-circuit: a nonempty `serverPath` launches
/// `urn:<path>` at once with the resolved arguments and the pass-through
/// options; the flow ends without any fetch.
pub proof fn lemma_explicit_path_short_circuit(raw: InitConfig, post: FlowState, act: Action)
    requires
        step_rel(FlowState::Idle, Event::Init { raw }, post, act),
        explicit_path_of(raw) is Some,
    ensures
        post is Done,
        explicit_path_of(raw) matches Some(p) ==> start_server_action(
            "urn:"@ + p,
            args_of(raw),
            passthrough_of(raw),
            act,
        ),
        !(act matches Action::Fetch { .. }),
{
}

/// Terminal states accept nothing further: any event delivered on `Done` or
/// `Failed` only reports an unexpected event; no fetch, write or launch can
/// follow.
pub proof fn lemma_terminal_states_stay_halted(
    pre: FlowState,
    ev: Event,
    post: FlowState,
    act: Action,
)
    requires
        step_rel(pre, ev, post, act),
        pre is Done || pre is Failed,
    ensures
        post matches FlowState::Failed { error } && error is UnexpectedEvent,
        act is Report,
{
}

/// Zip-slip safety at the flow level: every write the flow ever asks the
/// host to perform stays below the destination root.
pub proof fn lemma_flow_extracts_only_safe_paths(
    pre: FlowState,
    ev: Event,
    post: FlowState,
    act: Action,
)
    requires
        step_rel(pre, ev, post, act),
    ensures
        act matches Action::Extract { ops } ==> forall|i: int|
            0 <= i < ops@.len() ==> entry_path_is_safe(op_path(#[trigger] ops@[i]@)),
{
    match (pre, ev) {
        (FlowState::AwaitingSave { cfg, target, body }, Event::ArchiveSaved) => {
            match zip_entries_of(body@) {
                Some(entries) => {
                    lemma_plan_paths_safe(entries);
                    match act {
                        Action::Extract { ops } => {
                            assert forall|i: int|
                                0 <= i < ops@.len() implies entry_path_is_safe(
                                op_path(ops@[i]@),
                            ) by {
                                assert(ops_model(ops@)[i] == ops@[i]@);
                                assert(plan_of(entries)[i] == ops@[i]@);
                            }
                        },
                        _ => {},
                    }
                },
                None => {},
            }
        },
        _ => {},
    }
}

} // verus!
