//! The process supervisor: what has to happen, and in which order, before
//! the proxy is up, and what each failure on the way means.
//!
//! The supervisor does no I/O itself. It is a state machine: the caller
//! performs each action it asks for and reports what came of it.

use vstd::prelude::*;
use crate::address::BindAddr;
use crate::artifact::{
    artifact_record, describes, proxy_dir, proxy_name, via_proxy_name, Artifact, ArtifactRecord,
};
use crate::output::{read_line, reads_as, LineReport};
use crate::plugin::ViaVersionPlugin;
use crate::provision::DownloadError;
use crate::text::{owned, push_text, texts};
use crate::version::{ParseError, Version};

verus! {

/// Why the proxy could not be brought up. Each of these is final: a launch
/// is never tried again.
#[derive(Clone, Copy, Debug, PartialEq, Eq, Structural)]
pub enum LaunchError {
    /// What the runtime printed about its version could not be read.
    RuntimeUnreadable(ParseError),
    /// No runtime is installed.
    RuntimeMissing,
    /// The platform offers no data directory.
    NoDataDir,
    /// One of the files could not be provided.
    Download(Artifact, DownloadError),
    /// The process could not be started.
    SpawnFailed,
    /// The proxy's output ended before it said that it was ready.
    OutputClosed,
}

/// Where a launch stands. From the version probe on, the launch carries the
/// version of the runtime for as long as a step depends on it.
#[derive(Clone, Copy, Debug, PartialEq, Eq, Structural)]
pub enum Launch {
    /// The runtime is being asked for its version.
    Probing,
    /// The data directory is being looked up.
    Locating(Version),
    /// A file is being provided.
    Fetching(Artifact, Version),
    /// The process is being started.
    Spawning(Version),
    /// The process runs and has not yet said that it is ready.
    Starting,
    /// The proxy is ready.
    Ready,
    /// The launch has failed.
    Failed(LaunchError),
}

/// What the caller reports back.
#[derive(Clone, Copy, Debug, PartialEq, Eq)]
pub enum LaunchEvent {
    /// What the version probe gave.
    Probed(Result<Option<Version>, ParseError>),
    /// Whether the platform has a data directory.
    Located(bool),
    /// How providing the file that was asked for ended.
    Provisioned(Result<(), DownloadError>),
    /// Whether the process was started.
    Spawned(bool),
    /// The process printed a line, which says that the proxy is ready or
    /// does not.
    Line { ready: bool },
    /// The output of the process has ended.
    OutputClosed,
}

/// What the caller is to do next.
#[derive(Clone, Copy, Debug, PartialEq, Eq)]
pub enum LaunchAction {
    /// Ask the runtime for its version.
    Probe,
    /// Look up the data directory.
    Locate,
    /// Provide this file.
    Provision(Artifact),
    /// Start the process, with its output captured.
    Spawn,
    /// Read the next line of the output.
    ReadLine,
    /// Signal that the proxy is ready, and go on reading the output.
    SignalReady,
    /// Give up for good.
    Abort(LaunchError),
    /// Nothing new: the event answers no action that is under way.
    Nothing,
}

/// The process to start: the program, its arguments, and the directory it
/// runs in, given from the data directory on.
#[derive(Clone, Debug, PartialEq, Eq)]
pub struct LaunchCommand {
    pub program: String,
    pub args: Vec<String>,
    pub dir: String,
}

/// An action together with what the caller needs to perform it.
#[derive(Debug, PartialEq, Eq)]
pub enum LaunchOrder {
    /// Ask the runtime for its version.
    Probe,
    /// Look up the data directory.
    Locate,
    /// Provide this file.
    Provision(ArtifactRecord),
    /// Start this process, with its output captured.
    Spawn(LaunchCommand),
    /// Read the next line of the output.
    ReadLine,
    /// Signal that the proxy is ready, and go on reading the output.
    SignalReady,
    /// Give up for good.
    Abort(LaunchError),
    /// Nothing new.
    Nothing,
}

/// Where a runtime can be had.
pub open spec fn runtime_download_url() -> Seq<char> {
    "https://adoptium.net/installation"@
}

/// What to tell the user about a launch that failed by `error`.
pub open spec fn failure_message(error: LaunchError) -> Seq<char> {
    match error {
        LaunchError::RuntimeUnreadable(_) => "Failed to parse"@,
        LaunchError::RuntimeMissing => "Java installation not found! Please download Java from "@
            + runtime_download_url() + " or use your system's package manager."@,
        LaunchError::NoDataDir => "Unsupported Platform"@,
        LaunchError::Download(Artifact::Proxy, _) => "Failed to download ViaProxy"@,
        LaunchError::Download(Artifact::AuthBridge, _) => "Failed to download ViaProxyOpenAuthMod"@,
        LaunchError::SpawnFailed => "Failed to spawn"@,
        LaunchError::OutputClosed => "Failed to read"@,
    }
}

impl LaunchError {
    /// What to tell the user about the failure.
    pub fn message(&self) -> (message: String)
        ensures
            message@ == failure_message(*self),
    {
        match self {
            LaunchError::RuntimeUnreadable(_) => owned("Failed to parse"),
            LaunchError::RuntimeMissing => {
                let mut message = owned("Java installation not found! Please download Java from ");
                push_text(&mut message, "https://adoptium.net/installation");
                push_text(&mut message, " or use your system's package manager.");
                message
            },
            LaunchError::NoDataDir => owned("Unsupported Platform"),
            LaunchError::Download(Artifact::Proxy, _) => owned("Failed to download ViaProxy"),
            LaunchError::Download(Artifact::AuthBridge, _) => owned(
                "Failed to download ViaProxyOpenAuthMod",
            ),
            LaunchError::SpawnFailed => owned("Failed to spawn"),
            LaunchError::OutputClosed => owned("Failed to read"),
        }
    }
}

/// The launch after it failed by `error`, and the action that ends it.
pub open spec fn launch_failure(error: LaunchError) -> (Launch, LaunchAction) {
    (Launch::Failed(error), LaunchAction::Abort(error))
}

/// The launch after `event`, and the action that the event calls for.
///
/// The steps follow one another in a fixed order: the version probe, the
/// data directory, the proxy's file, the plugin's file, the start of the
/// process, and then its output line by line until one says that the proxy
/// is ready. Whatever fails on the way ends the launch. Once the proxy is
/// ready its output is still read, to the end.
pub open spec fn launch_step(launch: Launch, event: LaunchEvent) -> (Launch, LaunchAction) {
    match (launch, event) {
        (Launch::Probing, LaunchEvent::Probed(Ok(Some(java)))) => (
            Launch::Locating(java),
            LaunchAction::Locate,
        ),
        (Launch::Probing, LaunchEvent::Probed(Ok(None))) => launch_failure(
            LaunchError::RuntimeMissing,
        ),
        (Launch::Probing, LaunchEvent::Probed(Err(error))) => launch_failure(
            LaunchError::RuntimeUnreadable(error),
        ),
        (Launch::Locating(java), LaunchEvent::Located(true)) => (
            Launch::Fetching(Artifact::Proxy, java),
            LaunchAction::Provision(Artifact::Proxy),
        ),
        (Launch::Locating(java), LaunchEvent::Located(false)) => launch_failure(
            LaunchError::NoDataDir,
        ),
        (Launch::Fetching(Artifact::Proxy, java), LaunchEvent::Provisioned(Ok(()))) => (
            Launch::Fetching(Artifact::AuthBridge, java),
            LaunchAction::Provision(Artifact::AuthBridge),
        ),
        (Launch::Fetching(Artifact::AuthBridge, java), LaunchEvent::Provisioned(Ok(()))) => (
            Launch::Spawning(java),
            LaunchAction::Spawn,
        ),
        (Launch::Fetching(artifact, java), LaunchEvent::Provisioned(Err(error))) => launch_failure(
            LaunchError::Download(artifact, error),
        ),
        (Launch::Spawning(java), LaunchEvent::Spawned(true)) => (
            Launch::Starting,
            LaunchAction::ReadLine,
        ),
        (Launch::Spawning(java), LaunchEvent::Spawned(false)) => launch_failure(
            LaunchError::SpawnFailed,
        ),
        (Launch::Starting, LaunchEvent::Line { ready: true }) => (
            Launch::Ready,
            LaunchAction::SignalReady,
        ),
        (Launch::Starting, LaunchEvent::Line { ready: false }) => (
            Launch::Starting,
            LaunchAction::ReadLine,
        ),
        (Launch::Starting, LaunchEvent::OutputClosed) => launch_failure(LaunchError::OutputClosed),
        (Launch::Ready, LaunchEvent::Line { ready }) => (Launch::Ready, LaunchAction::ReadLine),
        _ => (launch, LaunchAction::Nothing),
    }
}

/// The command line of the proxy's process, behind the name of the runtime:
/// the proxy's file, the mode it runs in, how it authenticates, the address
/// it binds, a placeholder for the server it forwards to, the protocol
/// version it speaks to that server, how it reads the host field, and, where
/// the traffic goes through a forwarding proxy, that proxy's address.
pub open spec fn command_line(
    artifact: Seq<char>,
    bind: Seq<char>,
    version: Seq<char>,
    backend: Option<Seq<char>>,
) -> Seq<Seq<char>> {
    let fixed = seq![
        "-jar"@,
        artifact,
        "cli"@,
        "--auth-method"@,
        "OPENAUTHMOD"@,
        "--bind-address"@,
        bind,
        "--target-address"@,
        "127.0.0.1:0"@,
        "--target-version"@,
        version,
        "--wildcard-domain-handling"@,
        "INTERNAL"@,
    ];
    match backend {
        Some(url) => fixed + seq!["--backend-proxy-url"@, url],
        None => fixed,
    }
}

/// The name of the runtime's program.
pub open spec fn runtime_program() -> Seq<char> {
    "java"@
}

/// Whether `order` is `action` together with what the caller needs for it:
/// for a file, its record for the runtime that the launch `next` carries,
/// and for the process, the command that runs the proxy of `plugin` on that
/// runtime.
pub open spec fn orders(
    plugin: ViaVersionPlugin,
    next: Launch,
    action: LaunchAction,
    order: LaunchOrder,
) -> bool {
    match action {
        LaunchAction::Probe => order is Probe,
        LaunchAction::Locate => order is Locate,
        LaunchAction::Provision(artifact) => {
            &&& order matches LaunchOrder::Provision(record)
            &&& next matches Launch::Fetching(_, java)
            &&& describes(record, artifact, java.major)
        },
        LaunchAction::Spawn => {
            &&& order matches LaunchOrder::Spawn(command)
            &&& next matches Launch::Spawning(java)
            &&& command.program@ == runtime_program()
            &&& texts(command.args@) == command_line(
                proxy_name(java.major),
                plugin@.bind_addr.text(),
                plugin@.mc_version,
                plugin@.proxy,
            )
            &&& command.dir@ == proxy_dir()
        },
        LaunchAction::ReadLine => order is ReadLine,
        LaunchAction::SignalReady => order is SignalReady,
        LaunchAction::Abort(error) => order == LaunchOrder::Abort(error),
        LaunchAction::Nothing => order is Nothing,
    }
}

/// The arguments of the proxy's process.
pub fn command_args(artifact: &str, bind: &BindAddr, version: &str, backend: Option<&str>) -> (args:
    Vec<String>)
    ensures
        texts(args@) == command_line(
            artifact@,
            bind.text(),
            version@,
            match backend {
                Some(url) => Some(url@),
                None => None,
            },
        ),
{
    let mut args: Vec<String> = Vec::new();
    args.push(owned("-jar"));
    args.push(owned(artifact));
    args.push(owned("cli"));
    args.push(owned("--auth-method"));
    args.push(owned("OPENAUTHMOD"));
    args.push(owned("--bind-address"));
    args.push(bind.to_text());
    args.push(owned("--target-address"));
    args.push(owned("127.0.0.1:0"));
    args.push(owned("--target-version"));
    args.push(owned(version));
    args.push(owned("--wildcard-domain-handling"));
    args.push(owned("INTERNAL"));
    assert(texts(args@) =~= command_line(artifact@, bind.text(), version@, None));
    if let Some(url) = backend {
        args.push(owned("--backend-proxy-url"));
        args.push(owned(url));
        assert(texts(args@) =~= command_line(artifact@, bind.text(), version@, Some(url@)));
    }
    args
}

impl Launch {
    /// A launch that has not begun. Its first action is the version probe.
    pub fn start() -> (begun: (Launch, LaunchAction))
        ensures
            begun == (Launch::Probing, LaunchAction::Probe),
    {
        (Launch::Probing, LaunchAction::Probe)
    }

    /// Takes what the caller reports, and gives the action that it calls for.
    pub fn advance(&mut self, event: LaunchEvent) -> (action: LaunchAction)
        ensures
            (*final(self), action) == launch_step(*old(self), event),
    {
        let (next, action) = match (*self, event) {
            (Launch::Probing, LaunchEvent::Probed(Ok(Some(java)))) => (
                Launch::Locating(java),
                LaunchAction::Locate,
            ),
            (Launch::Probing, LaunchEvent::Probed(Ok(None))) => abort(LaunchError::RuntimeMissing),
            (Launch::Probing, LaunchEvent::Probed(Err(error))) => abort(
                LaunchError::RuntimeUnreadable(error),
            ),
            (Launch::Locating(java), LaunchEvent::Located(true)) => (
                Launch::Fetching(Artifact::Proxy, java),
                LaunchAction::Provision(Artifact::Proxy),
            ),
            (Launch::Locating(_), LaunchEvent::Located(false)) => abort(LaunchError::NoDataDir),
            (Launch::Fetching(Artifact::Proxy, java), LaunchEvent::Provisioned(Ok(()))) => (
                Launch::Fetching(Artifact::AuthBridge, java),
                LaunchAction::Provision(Artifact::AuthBridge),
            ),
            (Launch::Fetching(Artifact::AuthBridge, java), LaunchEvent::Provisioned(Ok(()))) => (
                Launch::Spawning(java),
                LaunchAction::Spawn,
            ),
            (Launch::Fetching(artifact, _), LaunchEvent::Provisioned(Err(error))) => abort(
                LaunchError::Download(artifact, error),
            ),
            (Launch::Spawning(_), LaunchEvent::Spawned(true)) => (
                Launch::Starting,
                LaunchAction::ReadLine,
            ),
            (Launch::Spawning(_), LaunchEvent::Spawned(false)) => abort(LaunchError::SpawnFailed),
            (Launch::Starting, LaunchEvent::Line { ready }) => {
                if ready {
                    (Launch::Ready, LaunchAction::SignalReady)
                } else {
                    (Launch::Starting, LaunchAction::ReadLine)
                }
            },
            (Launch::Starting, LaunchEvent::OutputClosed) => abort(LaunchError::OutputClosed),
            (Launch::Ready, LaunchEvent::Line { ready: _ }) => (Launch::Ready, LaunchAction::ReadLine),
            (launch, _) => (launch, LaunchAction::Nothing),
        };
        *self = next;
        action
    }

    /// Reads a line that the process printed, and takes it as an event.
    pub fn observe_line(&mut self, line: &str) -> (seen: (LineReport, LaunchAction))
        ensures
            reads_as(line@, seen.0),
            (*final(self), seen.1) == launch_step(
                *old(self),
                LaunchEvent::Line { ready: seen.0.ready },
            ),
    {
        let report = read_line(line);
        let action = self.advance(LaunchEvent::Line { ready: report.ready });
        (report, action)
    }
}

/// The launch ended by `error`.
fn abort(error: LaunchError) -> (next: (Launch, LaunchAction))
    ensures
        next == launch_failure(error),
{
    (Launch::Failed(error), LaunchAction::Abort(error))
}

impl ViaVersionPlugin {
    /// The process that runs the proxy on the runtime `java`.
    pub fn command(&self, java: &Version) -> (command: LaunchCommand)
        ensures
            command.program@ == runtime_program(),
            texts(command.args@) == command_line(
                proxy_name(java.major),
                self@.bind_addr.text(),
                self@.mc_version,
                self@.proxy,
            ),
            command.dir@ == proxy_dir(),
    {
        let artifact = via_proxy_name(java);
        let bind = self.bind_addr();
        let args = command_args(artifact.as_str(), &bind, self.mc_version(), self.proxy());
        LaunchCommand { program: owned("java"), args, dir: owned("azalea-viaversion") }
    }

    /// Brings the proxy up, one step at a time: takes the launch and what
    /// the caller reports, moves the launch on, and gives the next action
    /// together with what the caller needs to perform it.
    pub fn start_with_self(&self, launch: &mut Launch, event: LaunchEvent) -> (order: LaunchOrder)
        ensures
            *final(launch) == launch_step(*old(launch), event).0,
            orders(*self, *final(launch), launch_step(*old(launch), event).1, order),
    {
        let action = launch.advance(event);
        match (action, *launch) {
            (LaunchAction::Probe, _) => LaunchOrder::Probe,
            (LaunchAction::Locate, _) => LaunchOrder::Locate,
            (LaunchAction::Provision(artifact), Launch::Fetching(_, java)) => LaunchOrder::Provision(
                artifact_record(artifact, &java),
            ),
            (LaunchAction::Spawn, Launch::Spawning(java)) => LaunchOrder::Spawn(self.command(&java)),
            (LaunchAction::ReadLine, _) => LaunchOrder::ReadLine,
            (LaunchAction::SignalReady, _) => LaunchOrder::SignalReady,
            (LaunchAction::Abort(error), _) => LaunchOrder::Abort(error),
            _ => LaunchOrder::Nothing,
        }
    }
}

/// The launch after all of `events`, from `launch` on.
pub open spec fn launch_after(launch: Launch, events: Seq<LaunchEvent>) -> Launch
    decreases events.len(),
{
    if events.len() == 0 {
        launch
    } else {
        launch_step(launch_after(launch, events.drop_last()), events.last()).0
    }
}

/// How often `events` call for `action`, from `launch` on.
pub open spec fn launch_action_count(launch: Launch, events: Seq<LaunchEvent>, action: LaunchAction) -> nat
    decreases events.len(),
{
    if events.len() == 0 {
        0
    } else {
        let before = launch_action_count(launch, events.drop_last(), action);
        if launch_step(launch_after(launch, events.drop_last()), events.last()).1 == action {
            before + 1
        } else {
            before
        }
    }
}

/// How often `events` end the launch as a failure, from `launch` on.
pub open spec fn launch_abort_count(launch: Launch, events: Seq<LaunchEvent>) -> nat
    decreases events.len(),
{
    if events.len() == 0 {
        0
    } else {
        let before = launch_abort_count(launch, events.drop_last());
        if launch_step(launch_after(launch, events.drop_last()), events.last()).1 is Abort {
            before + 1
        } else {
            before
        }
    }
}

/// Whatever is reported to a new launch, and in whatever order: readiness
/// is signalled at most once, and exactly where the launch has come to be
/// ready; the process is started at most once; and the launch is given up
/// at most once, and exactly where it has failed.
pub proof fn lemma_launch_signals_once(events: Seq<LaunchEvent>)
    ensures
        launch_action_count(Launch::Probing, events, LaunchAction::SignalReady) == if launch_after(
            Launch::Probing,
            events,
        ) is Ready {
            1nat
        } else {
            0nat
        },
        launch_action_count(Launch::Probing, events, LaunchAction::Spawn) <= 1,
        launch_abort_count(Launch::Probing, events) == if launch_after(Launch::Probing, events)
            is Failed {
            1nat
        } else {
            0nat
        },
    decreases events.len(),
{
    lemma_launch_order(events);
}

/// What each phase says of the actions that led to it.
pub proof fn lemma_launch_order(events: Seq<LaunchEvent>)
    ensures
        ({
            let ready = launch_action_count(Launch::Probing, events, LaunchAction::SignalReady);
            let spawns = launch_action_count(Launch::Probing, events, LaunchAction::Spawn);
            let aborts = launch_abort_count(Launch::Probing, events);
            match launch_after(Launch::Probing, events) {
                Launch::Probing => ready == 0 && spawns == 0 && aborts == 0,
                Launch::Locating(_) => ready == 0 && spawns == 0 && aborts == 0,
                Launch::Fetching(_, _) => ready == 0 && spawns == 0 && aborts == 0,
                Launch::Spawning(_) => ready == 0 && spawns == 1 && aborts == 0,
                Launch::Starting => ready == 0 && spawns == 1 && aborts == 0,
                Launch::Ready => ready == 1 && spawns == 1 && aborts == 0,
                Launch::Failed(_) => ready == 0 && spawns <= 1 && aborts == 1,
            }
        }),
    decreases events.len(),
{
    if events.len() > 0 {
        lemma_launch_order(events.drop_last());
    }
}

} // verus!
