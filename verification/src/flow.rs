//! The bootstrap flow as an event-driven state machine.
//!
//! The host owns every outside effect: it reads the environment, checks for
//! the binary, performs the HTTP fetch, writes and removes files, resolves
//! the launch URI and starts the server. [`step`] makes every decision in
//! between: each call consumes the current state and the outcome of the last
//! action, and returns the next state together with the one action the host
//! is to perform next. A single initialization runs the machine from
//! [`FlowState::Idle`] until it reaches `Done` or `Failed`.

use vstd::prelude::*;
use vstd::string::StringExecFns;
use crate::artifact::{
    archive_name, archive_name_spec, binary_name, binary_name_spec, download_url,
    download_url_spec,
};
use crate::config::{
    args_of, document_selector, explicit_path_of, passthrough_of, resolve_config, resolved_from,
    selector_spec,
    DocumentFilter, InitConfig, ResolvedConfig,
};
use crate::extract::{
    clone_bytes, extraction_plan, ops_model, plan_of, read_archive_entries, zip_entries_of,
    WriteOp,
};
use crate::platform::{resolve_platform, arch_of, os_of, PlatformAxis, PlatformTarget};

verus! {

/// A fatal outcome of the flow. Every variant aborts the initialization and
/// is surfaced to the user; a failed archive cleanup is a warning carried on
/// [`Action::ResolveLaunchUri`] instead, never an error.
pub enum FlowError {
    /// The host reported an operating system or architecture outside the
    /// supported sets.
    UnsupportedPlatform { axis: PlatformAxis, value: String },
    /// The transport failed during the download, or the downloaded archive
    /// could not be staged locally.
    Fetch,
    /// The downloaded archive could not be read, or its entries could not be
    /// written out.
    Extraction,
    /// The launch URI could not be resolved or parsed.
    Uri,
    /// The host delivered an event the current state does not expect.
    UnexpectedEvent,
}

/// The user-visible description of a failure.
pub open spec fn error_message_spec(e: FlowError) -> Seq<char> {
    match e {
        FlowError::UnsupportedPlatform { axis, value } => (match axis {
            PlatformAxis::Architecture => "Unsupported ARCH: "@,
            PlatformAxis::OperatingSystem => "Unsupported OS: "@,
        }) + value@,
        FlowError::Fetch => "Failed to download the language server archive"@,
        FlowError::Extraction => "Failed to extract the language server archive"@,
        FlowError::Uri => "Failed to resolve the launch URI"@,
        FlowError::UnexpectedEvent => "Unexpected event for the current flow state"@,
    }
}

impl FlowError {
    /// Builds the user-visible description of this failure.
    pub fn message(&self) -> (r: String)
        ensures
            r@ == error_message_spec(*self),
    {
        match self {
            FlowError::UnsupportedPlatform { axis, value } => {
                let mut s = match axis {
                    PlatformAxis::Architecture => String::from_str("Unsupported ARCH: "),
                    PlatformAxis::OperatingSystem => String::from_str("Unsupported OS: "),
                };
                s.append(value.as_str());
                s
            },
            FlowError::Fetch => String::from_str("Failed to download the language server archive"),
            FlowError::Extraction => String::from_str(
                "Failed to extract the language server archive",
            ),
            FlowError::Uri => String::from_str("Failed to resolve the launch URI"),
            FlowError::UnexpectedEvent => String::from_str(
                "Unexpected event for the current flow state",
            ),
        }
    }
}

/// The states of the flow. The `Awaiting*` states name the action whose
/// outcome the flow waits for; `Done` and `Failed` are terminal.
pub enum FlowState {
    Idle,
    AwaitingEnv { cfg: ResolvedConfig },
    AwaitingPresence { cfg: ResolvedConfig, target: PlatformTarget },
    AwaitingFetch { cfg: ResolvedConfig, target: PlatformTarget },
    AwaitingSave { cfg: ResolvedConfig, target: PlatformTarget, body: Vec<u8> },
    AwaitingExtract { cfg: ResolvedConfig, target: PlatformTarget },
    AwaitingCleanup { cfg: ResolvedConfig, target: PlatformTarget },
    AwaitingUri { cfg: ResolvedConfig, target: PlatformTarget },
    Done,
    Failed { error: FlowError },
}

/// What the host hands back to the flow: the initialization payload, or the
/// outcome of the action it just performed.
pub enum Event {
    /// Initialization was requested with these overrides.
    Init { raw: InitConfig },
    /// The host-reported operating system and architecture strings.
    Env { os: String, arch: String },
    /// Whether the expected binary already exists in the working directory.
    Presence { present: bool },
    /// The fetch returned this status code and body.
    FetchOk { status: u16, body: Vec<u8> },
    /// The transport itself failed, or a stale archive could not be cleared.
    FetchFailed,
    /// The archive file was written to the working directory.
    ArchiveSaved,
    /// The archive file could not be written.
    SaveFailed,
    /// Every planned write was performed.
    Extracted,
    /// A planned write failed.
    ExtractFailed,
    /// The archive file was removed (`removed`), or removing it failed.
    ArchiveRemoved { removed: bool },
    /// The working-directory URI joined with the binary name.
    UriResolved { uri: String },
    /// The working-directory URI could not be resolved or joined.
    UriFailed,
}

/// What the host is to do next.
pub enum Action {
    /// Read the operating-system and architecture strings, once, and hand
    /// them back as one [`Event::Env`].
    ReadEnvironment,
    /// Check whether `name` exists in the working directory.
    CheckBinary { name: String },
    /// Remove a stale `stale_archive` if one is present, then GET `url`.
    Fetch { url: String, stale_archive: String },
    /// Write `body` to the archive file `name`.
    SaveArchive { name: String, body: Vec<u8> },
    /// Perform the planned writes, in order.
    Extract { ops: Vec<WriteOp> },
    /// Remove the archive file `name`; failure is reported back, not fatal.
    RemoveArchive { name: String },
    /// Join `binary` onto the working-directory URI. When `cleanup_warning`
    /// is set the host first logs that the archive could not be removed.
    ResolveLaunchUri { binary: String, cleanup_warning: bool },
    /// Start the language server: the terminal directive.
    StartServer {
        uri: String,
        args: Vec<String>,
        selector: Vec<DocumentFilter>,
        options: Option<serde_json::Value>,
    },
    /// Surface the error the flow failed with to the user.
    Report,
}

/// An HTTP status code that carries a body worth extracting. Any other
/// status skips extraction without failing the flow.
pub open spec fn is_success_status(status: u16) -> bool {
    200 <= status < 300
}

/// Executable form of [`is_success_status`].
pub fn success_status(status: u16) -> (r: bool)
    ensures
        r == is_success_status(status),
{
    200 <= status && status < 300
}

/// The flow ended in `error` and reports it.
pub open spec fn failure(error: FlowError, post: FlowState, act: Action) -> bool {
    &&& post matches FlowState::Failed { error: e } && e == error
    &&& act is Report
}

/// The flow ended with an unsupported platform axis.
pub open spec fn platform_failure(
    axis: PlatformAxis,
    value: Seq<char>,
    post: FlowState,
    act: Action,
) -> bool {
    &&& post matches FlowState::Failed { error } && error matches FlowError::UnsupportedPlatform {
        axis: a,
        value: v,
    } && a == axis && v@ == value
    &&& act is Report
}

/// The launch directive: `uri`, the resolved arguments, the document
/// selector, and the pass-through options forwarded verbatim.
pub open spec fn start_server_action(
    uri: Seq<char>,
    args: Seq<Seq<char>>,
    options: Option<serde_json::Value>,
    act: Action,
) -> bool {
    &&& act matches Action::StartServer { uri: u, args: a, selector, options: o }
    &&& u@ == uri
    &&& a.deep_view() == args
    &&& selector_spec(selector@)
    &&& o == options
}

/// On `Init`: an explicit nonempty server path launches `urn:<path>` at once
/// and the flow ends; otherwise the resolved configuration awaits the
/// environment reads.
pub open spec fn init_transition(raw: InitConfig, post: FlowState, act: Action) -> bool {
    match explicit_path_of(raw) {
        Some(p) => {
            &&& post is Done
            &&& start_server_action("urn:"@ + p, args_of(raw), passthrough_of(raw), act)
        },
        None => {
            &&& post matches FlowState::AwaitingEnv { cfg } && resolved_from(raw, cfg)
            &&& act is ReadEnvironment
        },
    }
}

/// On `Env`: an unsupported axis fails, the architecture examined first;
/// otherwise the flow asks whether the expected binary is present.
pub open spec fn env_transition(
    cfg: ResolvedConfig,
    os: Seq<char>,
    arch: Seq<char>,
    post: FlowState,
    act: Action,
) -> bool {
    if arch_of(arch) is None {
        platform_failure(PlatformAxis::Architecture, arch, post, act)
    } else if os_of(os) is None {
        platform_failure(PlatformAxis::OperatingSystem, os, post, act)
    } else {
        &&& os_of(os) matches Some(o)
        &&& arch_of(arch) matches Some(a)
        &&& post matches FlowState::AwaitingPresence { cfg: c, target } && c == cfg && target
            == (PlatformTarget { os: o, arch: a })
        &&& act matches Action::CheckBinary { name } && name@ == binary_name_spec(
            PlatformTarget { os: o, arch: a },
        )
    }
}

/// On `Presence`: a present binary goes straight to URI resolution — no
/// fetch, no extraction; an absent one is fetched from the canonical URL
/// after any stale archive is cleared.
pub open spec fn presence_transition(
    cfg: ResolvedConfig,
    target: PlatformTarget,
    present: bool,
    post: FlowState,
    act: Action,
) -> bool {
    if present {
        &&& post matches FlowState::AwaitingUri { cfg: c, target: t } && c == cfg && t == target
        &&& act matches Action::ResolveLaunchUri { binary, cleanup_warning } && binary@
            == binary_name_spec(target) && !cleanup_warning
    } else {
        &&& post matches FlowState::AwaitingFetch { cfg: c, target: t } && c == cfg && t == target
        &&& act matches Action::Fetch { url, stale_archive } && url@ == download_url_spec(
            cfg.version@,
            target,
        ) && stale_archive@ == archive_name_spec(cfg.version@, target)
    }
}

/// On `FetchOk`: a success status stages the body as the archive file; any
/// other status skips extraction — deliberately not an error — and proceeds
/// to cleanup.
pub open spec fn fetch_ok_transition(
    cfg: ResolvedConfig,
    target: PlatformTarget,
    status: u16,
    body: Seq<u8>,
    post: FlowState,
    act: Action,
) -> bool {
    if is_success_status(status) {
        &&& post matches FlowState::AwaitingSave { cfg: c, target: t, body: b } && c == cfg && t
            == target && b@ == body
        &&& act matches Action::SaveArchive { name, body: b2 } && name@ == archive_name_spec(
            cfg.version@,
            target,
        ) && b2@ == body
    } else {
        &&& post matches FlowState::AwaitingCleanup { cfg: c, target: t } && c == cfg && t == target
        &&& act matches Action::RemoveArchive { name } && name@ == archive_name_spec(
            cfg.version@,
            target,
        )
    }
}

/// On `ArchiveSaved`: the archive bytes are read and the extraction plan for
/// their safe entries is handed out; an unreadable archive is fatal.
pub open spec fn save_transition(
    cfg: ResolvedConfig,
    target: PlatformTarget,
    body: Seq<u8>,
    post: FlowState,
    act: Action,
) -> bool {
    match zip_entries_of(body) {
        Some(entries) => {
            &&& post matches FlowState::AwaitingExtract { cfg: c, target: t } && c == cfg && t
                == target
            &&& act matches Action::Extract { ops } && ops_model(ops@) == plan_of(entries)
        },
        None => failure(FlowError::Extraction, post, act),
    }
}

/// After extraction, or after a skipped one, the archive file is removed.
pub open spec fn cleanup_transition(
    cfg: ResolvedConfig,
    target: PlatformTarget,
    post: FlowState,
    act: Action,
) -> bool {
    &&& post matches FlowState::AwaitingCleanup { cfg: c, target: t } && c == cfg && t == target
    &&& act matches Action::RemoveArchive { name } && name@ == archive_name_spec(
        cfg.version@,
        target,
    )
}

/// On `ArchiveRemoved`: URI resolution follows either way; a failed removal
/// only carries a warning.
pub open spec fn uri_request_transition(
    cfg: ResolvedConfig,
    target: PlatformTarget,
    removed: bool,
    post: FlowState,
    act: Action,
) -> bool {
    &&& post matches FlowState::AwaitingUri { cfg: c, target: t } && c == cfg && t == target
    &&& act matches Action::ResolveLaunchUri { binary, cleanup_warning } && binary@
        == binary_name_spec(target) && cleanup_warning == !removed
}

/// On `UriResolved`: the launch directive goes out with the host-resolved
/// URI and the flow ends.
pub open spec fn start_transition(
    cfg: ResolvedConfig,
    uri: Seq<char>,
    post: FlowState,
    act: Action,
) -> bool {
    &&& post is Done
    &&& start_server_action(uri, cfg.server_args.deep_view(), cfg.passthrough, act)
}

/// The whole transition relation of the flow: what [`step`] returns for each
/// state and event. Any pairing outside the listed ones fails with
/// [`FlowError::UnexpectedEvent`].
pub open spec fn step_rel(pre: FlowState, ev: Event, post: FlowState, act: Action) -> bool {
    match (pre, ev) {
        (FlowState::Idle, Event::Init { raw }) => init_transition(raw, post, act),
        (FlowState::AwaitingEnv { cfg }, Event::Env { os, arch }) => env_transition(
            cfg,
            os@,
            arch@,
            post,
            act,
        ),
        (
            FlowState::AwaitingPresence { cfg, target },
            Event::Presence { present },
        ) => presence_transition(cfg, target, present, post, act),
        (
            FlowState::AwaitingFetch { cfg, target },
            Event::FetchOk { status, body },
        ) => fetch_ok_transition(cfg, target, status, body@, post, act),
        (FlowState::AwaitingFetch { .. }, Event::FetchFailed) => failure(
            FlowError::Fetch,
            post,
            act,
        ),
        (FlowState::AwaitingSave { cfg, target, body }, Event::ArchiveSaved) => save_transition(
            cfg,
            target,
            body@,
            post,
            act,
        ),
        (FlowState::AwaitingSave { .. }, Event::SaveFailed) => failure(FlowError::Fetch, post, act),
        (FlowState::AwaitingExtract { cfg, target }, Event::Extracted) => cleanup_transition(
            cfg,
            target,
            post,
            act,
        ),
        (FlowState::AwaitingExtract { .. }, Event::ExtractFailed) => failure(
            FlowError::Extraction,
            post,
            act,
        ),
        (
            FlowState::AwaitingCleanup { cfg, target },
            Event::ArchiveRemoved { removed },
        ) => uri_request_transition(cfg, target, removed, post, act),
        (FlowState::AwaitingUri { cfg, .. }, Event::UriResolved { uri }) => start_transition(
            cfg,
            uri@,
            post,
            act,
        ),
        (FlowState::AwaitingUri { .. }, Event::UriFailed) => failure(FlowError::Uri, post, act),
        _ => failure(FlowError::UnexpectedEvent, post, act),
    }
}

/// Runs one transition of the flow.
pub fn step(state: FlowState, event: Event) -> (r: (FlowState, Action))
    ensures
        step_rel(state, event, r.0, r.1),
{
    match (state, event) {
        (FlowState::Idle, Event::Init { raw }) => {
            let cfg = resolve_config(raw);
            let ResolvedConfig { version, server_args, explicit_server_path, passthrough } = cfg;
            match explicit_server_path {
                Some(p) => {
                    let mut uri = String::from_str("urn:");
                    uri.append(p.as_str());
                    (
                        FlowState::Done,
                        Action::StartServer {
                            uri,
                            args: server_args,
                            selector: document_selector(),
                            options: passthrough,
                        },
                    )
                },
                None => (
                    FlowState::AwaitingEnv {
                        cfg: ResolvedConfig {
                            version,
                            server_args,
                            explicit_server_path: None,
                            passthrough,
                        },
                    },
                    Action::ReadEnvironment,
                ),
            }
        },
        (FlowState::AwaitingEnv { cfg }, Event::Env { os, arch }) => {
            match resolve_platform(os.as_str(), arch.as_str()) {
                Ok(target) => {
                    let name = binary_name(target);
                    (
                        FlowState::AwaitingPresence { cfg, target },
                        Action::CheckBinary { name },
                    )
                },
                Err(e) => (
                    FlowState::Failed {
                        error: FlowError::UnsupportedPlatform { axis: e.axis, value: e.value },
                    },
                    Action::Report,
                ),
            }
        },
        (FlowState::AwaitingPresence { cfg, target }, Event::Presence { present }) => {
            if present {
                let binary = binary_name(target);
                (
                    FlowState::AwaitingUri { cfg, target },
                    Action::ResolveLaunchUri { binary, cleanup_warning: false },
                )
            } else {
                let url = download_url(cfg.version.as_str(), target);
                let stale_archive = archive_name(cfg.version.as_str(), target);
                (
                    FlowState::AwaitingFetch { cfg, target },
                    Action::Fetch { url, stale_archive },
                )
            }
        },
        (FlowState::AwaitingFetch { cfg, target }, Event::FetchOk { status, body }) => {
            let name = archive_name(cfg.version.as_str(), target);
            if success_status(status) {
                let staged = clone_bytes(&body);
                (
                    FlowState::AwaitingSave { cfg, target, body },
                    Action::SaveArchive { name, body: staged },
                )
            } else {
                (FlowState::AwaitingCleanup { cfg, target }, Action::RemoveArchive { name })
            }
        },
        (FlowState::AwaitingFetch { .. }, Event::FetchFailed) => (
            FlowState::Failed { error: FlowError::Fetch },
            Action::Report,
        ),
        (FlowState::AwaitingSave { cfg, target, body }, Event::ArchiveSaved) => {
            match read_archive_entries(&body) {
                Ok(es) => {
                    let ops = extraction_plan(&es);
                    (FlowState::AwaitingExtract { cfg, target }, Action::Extract { ops })
                },
                Err(_) => (
                    FlowState::Failed { error: FlowError::Extraction },
                    Action::Report,
                ),
            }
        },
        (FlowState::AwaitingSave { .. }, Event::SaveFailed) => (
            FlowState::Failed { error: FlowError::Fetch },
            Action::Report,
        ),
        (FlowState::AwaitingExtract { cfg, target }, Event::Extracted) => {
            let name = archive_name(cfg.version.as_str(), target);
            (FlowState::AwaitingCleanup { cfg, target }, Action::RemoveArchive { name })
        },
        (FlowState::AwaitingExtract { .. }, Event::ExtractFailed) => (
            FlowState::Failed { error: FlowError::Extraction },
            Action::Report,
        ),
        (FlowState::AwaitingCleanup { cfg, target }, Event::ArchiveRemoved { removed }) => {
            let binary = binary_name(target);
            (
                FlowState::AwaitingUri { cfg, target },
                Action::ResolveLaunchUri { binary, cleanup_warning: !removed },
            )
        },
        (FlowState::AwaitingUri { cfg, .. }, Event::UriResolved { uri }) => {
            let ResolvedConfig { version: _, server_args, explicit_server_path: _, passthrough } =
                cfg;
            (
                FlowState::Done,
                Action::StartServer {
                    uri,
                    args: server_args,
                    selector: document_selector(),
                    options: passthrough,
                },
            )
        },
        (FlowState::AwaitingUri { .. }, Event::UriFailed) => (
            FlowState::Failed { error: FlowError::Uri },
            Action::Report,
        ),
        _ => (
            FlowState::Failed { error: FlowError::UnexpectedEvent },
            Action::Report,
        ),
    }
}

} // verus!
