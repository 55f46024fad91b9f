//! The decisions of a run's main loop: the commands sent to the bridge,
//! the wait for the bridge to be ready, and a state machine that takes
//! what happens (bridge envelopes, launch timers, deploy results, the
//! deadline) and says what the loop does next.
use vstd::prelude::*;
use std::time::Duration;
use crate::bridge::{
    map_bridge_event, maps_to, BridgeCommand, BridgeEvent, HelloPayload, MonitorTabPayload,
    OpenTabPayload, ShutdownPayload, SubmitPromptPayload, UploadArchivePayload, PROTOCOL_VERSION,
};
use crate::event::{EventKind, JailgunEvent, Severity};
use crate::run::{
    batch_tabs_spec, count16, envelope_handled, failure_views, handle_bridge_envelope,
    prompt_for_tab, prompt_for_tab_spec, run_complete_spec, run_error_event, run_is_complete,
    schedules, BridgeEffects, DeployStart, LaunchDelay, LaunchScheduler, RunOptions, RunSummary,
    RunTracker,
};
use crate::text::{decimal, decimal_string, owned, push_str};

verus! {

// ---------------------------------------------------------------------
// Commands
// ---------------------------------------------------------------------

/// The greeting that opens the bridge protocol.
pub fn hello_command(orchestrator_version: String) -> (c: BridgeCommand)
    ensures
        c matches BridgeCommand::Hello(p) && p.orchestrator_version == orchestrator_version
            && p.protocol_version == PROTOCOL_VERSION && crate::text::views(p.capabilities@) == seq![
            "source-upload"@,
            "tar-capture"@,
            "rust-deploy"@,
        ],
{
    let mut capabilities: Vec<String> = Vec::new();
    capabilities.push(owned("source-upload"));
    capabilities.push(owned("tar-capture"));
    capabilities.push(owned("rust-deploy"));
    assert(crate::text::views(capabilities@) =~= seq!["source-upload"@, "tar-capture"@, "rust-deploy"@]);
    BridgeCommand::Hello(HelloPayload { orchestrator_version, protocol_version: PROTOCOL_VERSION, capabilities })
}

/// The request that ends the bridge, with five seconds to drain.
pub fn shutdown_command() -> (c: BridgeCommand)
    ensures
        c == BridgeCommand::Shutdown(ShutdownPayload { drain_timeout_ms: 5000 }),
{
    BridgeCommand::Shutdown(ShutdownPayload { drain_timeout_ms: 5000 })
}

/// The commands that launch a tab, in order: open it, upload the source
/// archive (when enabled), submit its prompt, and monitor it.
pub fn tab_commands(opts: &RunOptions, tab_id: u16) -> (r: Vec<BridgeCommand>)
    ensures
        r@.len() == if opts.config.source_archive.enabled { 4int } else { 3int },
        r@[0] matches BridgeCommand::OpenTab(p) && p.chat_url == opts.config.browser.chat_url
            && p.model == opts.config.browser.model && p.profile_dir == opts.profile_dir,
        opts.config.source_archive.enabled ==> (r@[1] matches BridgeCommand::UploadArchive(p)
            && p.repo_url == opts.repo_url && p.ref_name == opts.config.source_archive.ref_name
            && p.prefix == opts.config.source_archive.prefix && p.archive_filename
            == opts.config.source_archive.archive_filename && p.tmp_parent is None
            && p.delete_after_upload == opts.config.source_archive.delete_after_upload
            && p.confirm_selectors@.len() == 0 && p.timeout_ms == 45000),
        r@[r@.len() - 2] matches BridgeCommand::SubmitPrompt(p) && p.prompt@ == prompt_for_tab_spec(
            opts.prompt_text@,
            tab_id,
            batch_tabs_spec(*opts),
        ) && p.submit_timeout_ms == 45000,
        r@[r@.len() - 1] matches BridgeCommand::MonitorTab(p) && p.completion_check_ms
            == opts.config.browser.completion_check_seconds as u64 * 1000 && p.telemetry_tick_ms
            == opts.config.browser.poll_interval_seconds as u64 * 1000,
{
    let mut r: Vec<BridgeCommand> = Vec::new();
    r.push(
        BridgeCommand::OpenTab(
            OpenTabPayload {
                chat_url: opts.config.browser.chat_url.clone(),
                model: opts.config.browser.model.clone(),
                profile_dir: opts.profile_dir.clone(),
            },
        ),
    );
    if opts.config.source_archive.enabled {
        r.push(
            BridgeCommand::UploadArchive(
                UploadArchivePayload {
                    repo_url: opts.repo_url.clone(),
                    ref_name: opts.config.source_archive.ref_name.clone(),
                    prefix: opts.config.source_archive.prefix.clone(),
                    archive_filename: opts.config.source_archive.archive_filename.clone(),
                    tmp_parent: None,
                    delete_after_upload: opts.config.source_archive.delete_after_upload,
                    confirm_selectors: Vec::new(),
                    timeout_ms: 45000,
                },
            ),
        );
    }
    let prompt = prompt_for_tab(opts.prompt_text.as_str(), tab_id, opts.tabs());
    r.push(BridgeCommand::SubmitPrompt(SubmitPromptPayload { prompt, submit_timeout_ms: 45000 }));
    let check = opts.config.browser.completion_check_seconds as u64 * 1000;
    let tick = opts.config.browser.poll_interval_seconds as u64 * 1000;
    r.push(BridgeCommand::MonitorTab(MonitorTabPayload { completion_check_ms: check, telemetry_tick_ms: tick }));
    r
}

// ---------------------------------------------------------------------
// Events of the run loop
// ---------------------------------------------------------------------

/// The fields of a browser log event.
pub open spec fn log_fields(phase: Seq<char>, status: Seq<char>) -> Map<Seq<char>, Seq<char>> {
    map!["phase"@ => phase, "status"@ => status]
}

/// The start of a run of `tabs` tabs.
pub fn run_started_event(run_id: &str, tabs: u16) -> (e: JailgunEvent)
    ensures
        crate::bridge::recorded_as(e, run_id@, None, EventKind::RunStarted, "run started"@, Severity::Info, map!["tabs"@ => decimal(tabs as nat)]),
{
    let t = decimal_string(tabs as u64);
    let e = JailgunEvent::new(run_id, EventKind::RunStarted, "run started").with_field("tabs", t.as_str());
    assert(e.fields@ =~= map!["tabs"@ => decimal(tabs as nat)]);
    e
}

/// The launch of a tab.
pub open spec fn launch_event_is(e: JailgunEvent, run_id: Seq<char>, tab_id: u16, total_tabs: u16) -> bool {
    crate::bridge::recorded_as(
        e,
        run_id,
        Some(tab_id),
        EventKind::BrowserLog,
        "opening tab and queueing upload, submit, monitor commands"@,
        Severity::Info,
        log_fields("launch-tab"@, "started"@).insert("tab_id"@, decimal(tab_id as nat)).insert(
            "total_tabs"@,
            decimal(total_tabs as nat),
        ),
    )
}

/// The launch of a tab.
pub fn launch_tab_event(run_id: &str, tab_id: u16, total_tabs: u16) -> (e: JailgunEvent)
    ensures
        launch_event_is(e, run_id@, tab_id, total_tabs),
{
    let t = decimal_string(tab_id as u64);
    let n = decimal_string(total_tabs as u64);
    let e = JailgunEvent::new(run_id, EventKind::BrowserLog, "opening tab and queueing upload, submit, monitor commands")
        .with_field("phase", "launch-tab")
        .with_field("status", "started")
        .with_tab(tab_id)
        .with_field("tab_id", t.as_str())
        .with_field("total_tabs", n.as_str());
    assert(e.fields@ =~= log_fields("launch-tab"@, "started"@).insert("tab_id"@, decimal(tab_id as nat)).insert(
        "total_tabs"@,
        decimal(total_tabs as nat),
    ));
    e
}

/// The wait before the next tab is launched.
pub open spec fn delay_event_is(e: JailgunEvent, run_id: Seq<char>, tab_id: u16, delay_ms: u64, reason: Seq<char>) -> bool {
    crate::bridge::recorded_as(
        e,
        run_id,
        Some(tab_id),
        EventKind::BrowserLog,
        "waiting before launching next tab"@,
        Severity::Info,
        log_fields("launch-delay"@, "waiting"@).insert("next_tab"@, decimal(tab_id as nat)).insert(
            "delay_ms"@,
            decimal(delay_ms as nat),
        ).insert("reason"@, reason),
    )
}

/// The wait before the next tab is launched.
pub fn launch_delay_event(run_id: &str, tab_id: u16, delay_ms: u64, reason: &str) -> (e: JailgunEvent)
    ensures
        delay_event_is(e, run_id@, tab_id, delay_ms, reason@),
{
    let t = decimal_string(tab_id as u64);
    let d = decimal_string(delay_ms);
    let e = JailgunEvent::new(run_id, EventKind::BrowserLog, "waiting before launching next tab")
        .with_field("phase", "launch-delay")
        .with_field("status", "waiting")
        .with_tab(tab_id)
        .with_field("next_tab", t.as_str())
        .with_field("delay_ms", d.as_str())
        .with_field("reason", reason);
    assert(e.fields@ =~= log_fields("launch-delay"@, "waiting"@).insert("next_tab"@, decimal(tab_id as nat)).insert(
        "delay_ms"@,
        decimal(delay_ms as nat),
    ).insert("reason"@, reason@));
    e
}

// ---------------------------------------------------------------------
// Waiting for the bridge
// ---------------------------------------------------------------------

/// What happens while the run waits for the bridge to be ready.
pub enum ReadyEvent {
    /// Ninety seconds passed.
    TimedOut,
    /// The bridge's output ended.
    Closed,
    /// A line of the bridge could not be read as an envelope.
    ProtocolError(String),
    /// An envelope, decoded into an event or refused with a message.
    Envelope { tab_id: Option<u16>, decoded: Result<BridgeEvent, String> },
}

/// What the wait does next.
pub enum ReadyStep {
    /// The bridge is ready.
    Ready,
    /// The run cannot start, for this reason.
    Failed(String),
    /// Keep waiting, after publishing this event, if any.
    Continue(Option<JailgunEvent>),
}

/// The message of a protocol error before the bridge was ready.
pub open spec fn early_protocol_message(e: Seq<char>) -> Seq<char> {
    "bridge protocol error before ready: "@ + e
}

/// One step of the wait for the bridge: a ready bridge starts the run,
/// an error or a timeout stops it, other events are recorded.
pub fn bridge_ready_step(run_id: &str, ev: ReadyEvent) -> (r: ReadyStep)
    ensures
        match ev {
            ReadyEvent::TimedOut => r matches ReadyStep::Failed(m) && m@
                == "bridge did not report ready within 90 seconds"@,
            ReadyEvent::Closed => r matches ReadyStep::Failed(m) && m@
                == "bridge exited before reporting ready"@,
            ReadyEvent::ProtocolError(e) => r matches ReadyStep::Failed(m) && m@
                == early_protocol_message(e@),
            ReadyEvent::Envelope { tab_id, decoded } => match decoded {
                Err(e) => r matches ReadyStep::Failed(m) && m@ == early_protocol_message(e@),
                Ok(BridgeEvent::BridgeReady(_)) => r is Ready,
                Ok(BridgeEvent::Error(p)) => r matches ReadyStep::Failed(m) && m@
                    == "bridge startup failed: "@ + p.message@,
                Ok(other) => r matches ReadyStep::Continue(e) && maps_to(run_id@, tab_id, other, e),
            },
        },
{
    match ev {
        ReadyEvent::TimedOut => ReadyStep::Failed(owned("bridge did not report ready within 90 seconds")),
        ReadyEvent::Closed => ReadyStep::Failed(owned("bridge exited before reporting ready")),
        ReadyEvent::ProtocolError(e) => {
            let mut m = owned("bridge protocol error before ready: ");
            push_str(&mut m, e.as_str());
            ReadyStep::Failed(m)
        },
        ReadyEvent::Envelope { tab_id, decoded } => match decoded {
            Err(e) => {
                let mut m = owned("bridge protocol error before ready: ");
                push_str(&mut m, e.as_str());
                ReadyStep::Failed(m)
            },
            Ok(BridgeEvent::BridgeReady(_)) => ReadyStep::Ready,
            Ok(BridgeEvent::Error(p)) => {
                let mut m = owned("bridge startup failed: ");
                push_str(&mut m, p.message.as_str());
                ReadyStep::Failed(m)
            },
            Ok(other) => ReadyStep::Continue(map_bridge_event(run_id, tab_id, &other)),
        },
    }
}

// ---------------------------------------------------------------------
// The run loop
// ---------------------------------------------------------------------

/// The state of a running orchestration: its summary, which tabs are done,
/// and the launcher of tabs.
pub struct RunDriver {
    pub summary: RunSummary,
    pub tracker: RunTracker,
    pub launcher: LaunchScheduler,
}

/// What happens to a running orchestration.
pub enum DriveEvent {
    /// The greeting could not be sent to the bridge.
    HelloFailed(String),
    /// The bridge did not become ready.
    ReadyFailed(String),
    /// The bridge is ready: the first tab is launched.
    Ready,
    /// The commands of a launched tab could not be sent.
    LaunchFailed(String),
    /// The run's time is up.
    DeadlineElapsed,
    /// The run was cancelled.
    Cancelled,
    /// Nobody can cancel the run any more.
    CancelClosed,
    /// A launch timer fired for a tab.
    LaunchTimer(u16),
    /// A deploy finished, or failed for this reason.
    DeployFinished(u16, Result<(), String>),
    /// An envelope from the bridge, decoded or refused, with the verdict on
    /// a downloaded archive.
    Bridge { tab_id: Option<u16>, decoded: Result<BridgeEvent, String>, archive_check: Option<Result<(), String>> },
    /// A line from the bridge could not be read.
    BridgeReadError(String),
    /// The bridge's output ended.
    BridgeClosed,
}

/// What the loop does after an event: publish events in order, send the
/// commands of a tab, start a launch timer, start a deploy, or stop.
pub struct DriveStep {
    pub published: Vec<JailgunEvent>,
    pub effects: BridgeEffects,
    pub launch: Option<u16>,
    pub schedule: Option<LaunchDelay>,
    pub deploy: Option<DeployStart>,
    pub done: bool,
}

/// Launching the next tab: none when all are launched, else the next one,
/// announced by one event.
pub open spec fn launch_step(l0: LaunchScheduler, l1: LaunchScheduler, launch: Option<u16>, published: Seq<JailgunEvent>, run_id: Seq<char>) -> bool {
    if l0.next_tab > l0.total_tabs {
        l1 == l0 && launch is None && published.len() == 0
    } else {
        &&& launch == Some(l0.next_tab)
        &&& l1.next_tab == (if l0.next_tab == u16::MAX { u16::MAX as int } else { l0.next_tab + 1 })
        &&& l1.waiting_for_acceptance == Some(l0.next_tab)
        &&& l1.total_tabs == l0.total_tabs
        &&& l1.scheduled_launch == l0.scheduled_launch
        &&& published.len() == 1
        &&& launch_event_is(published[0], run_id, l0.next_tab, l0.total_tabs)
    }
}

/// A failure of the whole run, recorded and published.
pub open spec fn run_failed(s0: RunSummary, s1: RunSummary, message: Seq<char>, published: Seq<JailgunEvent>, run_id: Seq<char>) -> bool {
    &&& failure_views(s1.failures@) == failure_views(s0.failures@).push((0u16, message))
    &&& s1 == (RunSummary { failures: s1.failures, ..s0 })
    &&& published.len() == 1
    &&& crate::bridge::recorded_as(published[0], run_id, None, EventKind::Error, message, Severity::Error, Map::empty())
}

/// The launcher after the effects of a bridge event: the tab that
/// accepted its prompt, or ended before that, lets the next one be
/// scheduled, announced by one event.
pub open spec fn effects_scheduled(
    l0: LaunchScheduler,
    l1: LaunchScheduler,
    fx: BridgeEffects,
    delay: Duration,
    delay_ms: u64,
    schedule: Option<LaunchDelay>,
    published: Seq<JailgunEvent>,
    run_id: Seq<char>,
) -> bool {
    let (tab, reason) = match fx.prompt_submitted {
        Some(t) => (Some(t), "prompt-accepted"@),
        None => (fx.terminal_tab, "tab-terminal-before-prompt-accepted"@),
    };
    &&& match tab {
        Some(t) if l0.waiting_for_acceptance == Some(t) => schedules(l0, l1, delay, reason, schedule),
        _ => l1 == l0 && schedule is None,
    }
    &&& match schedule {
        Some(d) => published.len() == 1 && delay_event_is(published[0], run_id, d.tab_id, delay_ms, reason),
        None => published.len() == 0,
    }
}

impl RunDriver {
    /// A run of the options' tab count that did nothing yet, and the event
    /// announcing it.
    pub fn new(opts: &RunOptions) -> (r: (RunDriver, JailgunEvent))
        ensures
            r.0.summary.run_id == opts.run_id,
            r.0.summary.total_tabs == batch_tabs_spec(*opts),
            r.0.summary.downloaded == 0,
            r.0.summary.deployed == 0,
            r.0.summary.failures@.len() == 0,
            r.0.summary.denied_github_prompts == 0,
            r.0.summary.allowed_info_prompts == 0,
            r.0.tracker.total_tabs == batch_tabs_spec(*opts),
            r.0.tracker.deploy_required == (!opts.no_deploy && opts.config.deploy.enabled),
            r.0.tracker.downloaded_tabs@.len() == 0,
            r.0.tracker.deployed_tabs@.len() == 0,
            r.0.tracker.terminal_tabs@.len() == 0,
            r.0.launcher == (LaunchScheduler { total_tabs: batch_tabs_spec(*opts), next_tab: 1, waiting_for_acceptance: None, scheduled_launch: None }),
            crate::bridge::recorded_as(r.1, opts.run_id@, None, EventKind::RunStarted, "run started"@, Severity::Info, map!["tabs"@ => decimal(batch_tabs_spec(*opts) as nat)]),
    {
        let total = opts.tabs();
        let summary = RunSummary {
            run_id: opts.run_id.clone(),
            total_tabs: total,
            downloaded: 0,
            deployed: 0,
            failures: Vec::new(),
            denied_github_prompts: 0,
            allowed_info_prompts: 0,
        };
        let tracker = RunTracker::new(total, !opts.no_deploy && opts.config.deploy.enabled);
        let launcher = LaunchScheduler::new(total);
        let started = run_started_event(opts.run_id.as_str(), total);
        (RunDriver { summary, tracker, launcher }, started)
    }

    fn fail_run(&mut self, opts: &RunOptions, message: String) -> (published: Vec<JailgunEvent>)
        ensures
            run_failed(old(self).summary, final(self).summary, message@, published@, opts.run_id@),
            final(self).tracker == old(self).tracker,
            final(self).launcher == old(self).launcher,
    {
        let mut published: Vec<JailgunEvent> = Vec::new();
        published.push(run_error_event(opts.run_id.as_str(), None, message.as_str()));
        let ghost f0 = self.summary.failures@;
        self.summary.failures.push((0, message));
        assert(failure_views(self.summary.failures@) =~= failure_views(f0).push((0u16, message@)));
        published
    }

    fn launch(&mut self, opts: &RunOptions) -> (r: (Option<u16>, Vec<JailgunEvent>))
        ensures
            launch_step(old(self).launcher, final(self).launcher, r.0, r.1@, opts.run_id@),
            final(self).summary == old(self).summary,
            final(self).tracker == old(self).tracker,
    {
        let mut published: Vec<JailgunEvent> = Vec::new();
        let total = self.launcher.total_tabs;
        let launched = self.launcher.launch_next();
        match launched {
            Some(t) => published.push(launch_tab_event(opts.run_id.as_str(), t, total)),
            None => {},
        }
        (launched, published)
    }

    /// Takes one event of the run and says what the loop does next; the
    /// loop stops on a failure that ends the run, on cancellation, or once
    /// every tab is done.  `delay` (of `delay_ms` milliseconds) is the
    /// pause before the next tab, should one be scheduled.
    pub fn step(&mut self, opts: &RunOptions, ev: DriveEvent, delay: Duration, delay_ms: u64) -> (r: DriveStep)
        requires
            (ev matches DriveEvent::Bridge { tab_id, decoded, archive_check } ==> ((decoded matches Ok(
                BridgeEvent::DownloadComplete(_),
            ) && tab_id is Some) ==> archive_check is Some)),
        ensures
            match ev {
                DriveEvent::HelloFailed(m) | DriveEvent::ReadyFailed(m) | DriveEvent::LaunchFailed(m)
                    | DriveEvent::BridgeReadError(m) => {
                    &&& run_failed(old(self).summary, final(self).summary, m@, r.published@, opts.run_id@)
                    &&& final(self).tracker == old(self).tracker
                    &&& final(self).launcher == old(self).launcher
                    &&& r.launch is None && r.schedule is None && r.deploy is None
                    &&& r.done == (!(ev is BridgeReadError) || run_complete_spec(final(self).tracker))
                },
                DriveEvent::DeadlineElapsed => {
                    &&& run_failed(old(self).summary, final(self).summary, "run timed out waiting for bridge/deploy completion"@, r.published@, opts.run_id@)
                    &&& final(self).tracker == old(self).tracker
                    &&& final(self).launcher == old(self).launcher
                    &&& r.launch is None && r.schedule is None && r.deploy is None && r.done
                },
                DriveEvent::Cancelled => {
                    &&& final(self).summary == old(self).summary
                    &&& final(self).tracker == old(self).tracker
                    &&& final(self).launcher == old(self).launcher
                    &&& r.published@.len() == 1
                    &&& crate::bridge::recorded_as(r.published@[0], opts.run_id@, None, EventKind::Error, "run cancelled"@, Severity::Error, Map::empty())
                    &&& r.launch is None && r.schedule is None && r.deploy is None && r.done
                },
                DriveEvent::CancelClosed => {
                    &&& final(self).summary == old(self).summary
                    &&& final(self).tracker == old(self).tracker
                    &&& final(self).launcher == old(self).launcher
                    &&& r.published@.len() == 0
                    &&& r.launch is None && r.schedule is None && r.deploy is None && r.done
                },
                DriveEvent::Ready => {
                    &&& launch_step(old(self).launcher, final(self).launcher, r.launch, r.published@, opts.run_id@)
                    &&& final(self).summary == old(self).summary
                    &&& final(self).tracker == old(self).tracker
                    &&& r.schedule is None && r.deploy is None
                    &&& r.done == run_complete_spec(final(self).tracker)
                },
                DriveEvent::LaunchTimer(t) => {
                    &&& final(self).summary == old(self).summary
                    &&& final(self).tracker == old(self).tracker
                    &&& if old(self).launcher.scheduled_launch == Some(t) {
                        launch_step(
                            LaunchScheduler { scheduled_launch: None, ..old(self).launcher },
                            final(self).launcher,
                            r.launch,
                            r.published@,
                            opts.run_id@,
                        )
                    } else {
                        final(self).launcher == old(self).launcher && r.launch is None && r.published@.len() == 0
                    }
                    &&& r.schedule is None && r.deploy is None
                    &&& r.done == run_complete_spec(final(self).tracker)
                },
                DriveEvent::DeployFinished(t, res) => {
                    &&& final(self).launcher == old(self).launcher
                    &&& final(self).tracker.total_tabs == old(self).tracker.total_tabs
                    &&& final(self).tracker.deploy_required == old(self).tracker.deploy_required
                    &&& final(self).tracker.downloaded_tabs@ == old(self).tracker.downloaded_tabs@
                    &&& match res {
                        Ok(()) => {
                            &&& final(self).tracker.deployed_tabs@ == old(self).tracker.deployed_tabs@.insert(t)
                            &&& final(self).tracker.terminal_tabs@ == old(self).tracker.terminal_tabs@
                            &&& final(self).summary == (RunSummary {
                                deployed: count16(final(self).tracker.deployed_tabs@.len()),
                                ..old(self).summary
                            })
                            &&& r.published@.len() == 0
                        },
                        Err(reason) => {
                            &&& final(self).tracker.deployed_tabs@ == old(self).tracker.deployed_tabs@
                            &&& final(self).tracker.terminal_tabs@ == old(self).tracker.terminal_tabs@.insert(t)
                            &&& failure_views(final(self).summary.failures@) == failure_views(old(self).summary.failures@).push((t, reason@))
                            &&& final(self).summary == (RunSummary { failures: final(self).summary.failures, ..old(self).summary })
                            &&& r.published@.len() == 1
                            &&& crate::bridge::recorded_as(r.published@[0], opts.run_id@, Some(t), EventKind::Error, reason@, Severity::Error, Map::empty())
                        },
                    }
                    &&& r.launch is None && r.schedule is None && r.deploy is None
                    &&& r.done == run_complete_spec(final(self).tracker)
                },
                DriveEvent::Bridge { tab_id, decoded, archive_check } => {
                    let k = r.published@.len() - (if r.schedule is Some { 1int } else { 0int });
                    &&& 0 <= k
                    &&& envelope_handled(*opts, tab_id, decoded, archive_check, old(self).summary, old(self).tracker, final(self).summary, final(self).tracker, r.effects, r.published@.take(k), r.deploy)
                    &&& effects_scheduled(old(self).launcher, final(self).launcher, r.effects, delay, delay_ms, r.schedule, r.published@.skip(k), opts.run_id@)
                    &&& r.launch is None
                    &&& r.done == run_complete_spec(final(self).tracker)
                },
                DriveEvent::BridgeClosed => {
                    &&& final(self).tracker == old(self).tracker
                    &&& final(self).launcher == old(self).launcher
                    &&& if run_complete_spec(old(self).tracker) {
                        final(self).summary == old(self).summary && r.published@.len() == 0
                    } else {
                        run_failed(old(self).summary, final(self).summary, "bridge exited before run completed"@, r.published@, opts.run_id@)
                    }
                    &&& r.launch is None && r.schedule is None && r.deploy is None && r.done
                },
            },
            (ev is Bridge) || r.effects == BridgeEffects::default_spec(),
    {
        let no_effects = BridgeEffects { prompt_submitted: None, terminal_tab: None };
        match ev {
            DriveEvent::HelloFailed(m) | DriveEvent::ReadyFailed(m) | DriveEvent::LaunchFailed(m) => {
                let published = self.fail_run(opts, m);
                DriveStep { published, effects: no_effects, launch: None, schedule: None, deploy: None, done: true }
            },
            DriveEvent::BridgeReadError(m) => {
                let published = self.fail_run(opts, m);
                let done = run_is_complete(&self.tracker);
                DriveStep { published, effects: no_effects, launch: None, schedule: None, deploy: None, done }
            },
            DriveEvent::DeadlineElapsed => {
                let published = self.fail_run(opts, owned("run timed out waiting for bridge/deploy completion"));
                DriveStep { published, effects: no_effects, launch: None, schedule: None, deploy: None, done: true }
            },
            DriveEvent::Cancelled => {
                let mut published: Vec<JailgunEvent> = Vec::new();
                published.push(run_error_event(opts.run_id.as_str(), None, "run cancelled"));
                DriveStep { published, effects: no_effects, launch: None, schedule: None, deploy: None, done: true }
            },
            DriveEvent::CancelClosed => {
                DriveStep { published: Vec::new(), effects: no_effects, launch: None, schedule: None, deploy: None, done: true }
            },
            DriveEvent::Ready => {
                let (launch, published) = self.launch(opts);
                let done = run_is_complete(&self.tracker);
                DriveStep { published, effects: no_effects, launch, schedule: None, deploy: None, done }
            },
            DriveEvent::LaunchTimer(t) => {
                let (launch, published) = if self.launcher.consume_scheduled_launch(t) {
                    self.launch(opts)
                } else {
                    (None, Vec::new())
                };
                let done = run_is_complete(&self.tracker);
                DriveStep { published, effects: no_effects, launch, schedule: None, deploy: None, done }
            },
            DriveEvent::DeployFinished(t, res) => {
                let mut published: Vec<JailgunEvent> = Vec::new();
                match res {
                    Ok(()) => {
                        self.tracker.mark_deployed(t);
                        self.summary.deployed = self.tracker.deployed_count();
                    },
                    Err(reason) => {
                        published.push(run_error_event(opts.run_id.as_str(), Some(t), reason.as_str()));
                        let ghost f0 = self.summary.failures@;
                        self.summary.failures.push((t, reason));
                        assert(failure_views(self.summary.failures@) =~= failure_views(f0).push((t, reason@)));
                        self.tracker.mark_terminal(t);
                    },
                }
                let done = run_is_complete(&self.tracker);
                DriveStep { published, effects: no_effects, launch: None, schedule: None, deploy: None, done }
            },
            DriveEvent::Bridge { tab_id, decoded, archive_check } => {
                let outcome = handle_bridge_envelope(opts, tab_id, decoded, archive_check, &mut self.summary, &mut self.tracker);
                let mut published = outcome.published;
                let ghost handled = published@;
                let fx = outcome.effects;
                let schedule = match fx.prompt_submitted {
                    Some(t) => self.launcher.prompt_accepted(t, delay),
                    None => match fx.terminal_tab {
                        Some(t) => self.launcher.tab_terminal(t, delay),
                        None => None,
                    },
                };
                let reason: &str = match fx.prompt_submitted {
                    Some(_) => "prompt-accepted",
                    None => "tab-terminal-before-prompt-accepted",
                };
                match &schedule {
                    Some(d) => {
                        proof {
                            reveal_strlit("prompt-accepted");
                            reveal_strlit("tab-terminal-before-prompt-accepted");
                        }
                        published.push(launch_delay_event(opts.run_id.as_str(), d.tab_id, delay_ms, reason));
                    },
                    None => {},
                }
                proof {
                    let k = published@.len() - (if schedule is Some { 1int } else { 0int });
                    assert(published@.take(k) =~= handled);
                }
                let done = run_is_complete(&self.tracker);
                DriveStep { published, effects: fx, launch: None, schedule, deploy: outcome.deploy, done }
            },
            DriveEvent::BridgeClosed => {
                if run_is_complete(&self.tracker) {
                    DriveStep { published: Vec::new(), effects: no_effects, launch: None, schedule: None, deploy: None, done: true }
                } else {
                    let published = self.fail_run(opts, owned("bridge exited before run completed"));
                    DriveStep { published, effects: no_effects, launch: None, schedule: None, deploy: None, done: true }
                }
            },
        }
    }
}

} // verus!
