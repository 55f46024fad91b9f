//! The line protocol between the orchestrator and the browser bridge:
//! envelopes, the commands sent to the bridge and the events it reports,
//! and how a bridge event is recorded on the run's event bus.
use vstd::prelude::*;
use crate::event::{EventKind, FieldMap, JailgunEvent, Severity};
use crate::text::{decimal, owned, push_decimal, utf8_byte_len, utf8_len};

verus! {

/// `serde_json::Value`, carried through as an opaque payload.
#[verifier::external_type_specification]
#[verifier::external_body]
pub struct ExJsonValue(serde_json::Value);

/// The protocol version this build speaks.
pub const PROTOCOL_VERSION: u8 = 1;

/// The longest line either side may send, in bytes.
pub const MAX_LINE_BYTES: usize = 1048576;

/// Why a line of the protocol was refused.
#[derive(Debug, Clone, PartialEq, Eq)]
pub enum ProtocolError {
    LineTooLong { got: usize, max: usize },
    Decode(String),
    UnsupportedVersion { got: u8, expected: u8 },
    UnknownCommand(String),
    UnknownEvent(String),
}

/// The message of a protocol error.
pub open spec fn protocol_error_message(e: ProtocolError) -> Seq<char> {
    match e {
        ProtocolError::LineTooLong { got, max } => "line exceeded maximum size of "@ + decimal(
            max as nat,
        ) + " bytes (got "@ + decimal(got as nat) + ")"@,
        ProtocolError::Decode(m) => "could not decode envelope: "@ + m@,
        ProtocolError::UnsupportedVersion { got, expected } => "unsupported protocol version "@
            + decimal(got as nat) + " (this build speaks v"@ + decimal(expected as nat) + ")"@,
        ProtocolError::UnknownCommand(k) => "unknown bridge command kind \""@ + k@ + "\""@,
        ProtocolError::UnknownEvent(k) => "unknown bridge event kind \""@ + k@ + "\""@,
    }
}

impl ProtocolError {
    /// The message a user sees for this error.
    pub fn message(&self) -> (s: String)
        ensures
            s@ == protocol_error_message(*self),
    {
        let mut s = String::new();
        match self {
            ProtocolError::LineTooLong { got, max } => {
                crate::text::push_str(&mut s, "line exceeded maximum size of ");
                push_decimal(&mut s, *max as u64);
                crate::text::push_str(&mut s, " bytes (got ");
                push_decimal(&mut s, *got as u64);
                crate::text::push_str(&mut s, ")");
            },
            ProtocolError::Decode(m) => {
                crate::text::push_str(&mut s, "could not decode envelope: ");
                crate::text::push_str(&mut s, m.as_str());
            },
            ProtocolError::UnsupportedVersion { got, expected } => {
                crate::text::push_str(&mut s, "unsupported protocol version ");
                push_decimal(&mut s, *got as u64);
                crate::text::push_str(&mut s, " (this build speaks v");
                push_decimal(&mut s, *expected as u64);
                crate::text::push_str(&mut s, ")");
            },
            ProtocolError::UnknownCommand(k) => {
                crate::text::push_str(&mut s, "unknown bridge command kind \"");
                crate::text::push_str(&mut s, k.as_str());
                crate::text::push_str(&mut s, "\"");
            },
            ProtocolError::UnknownEvent(k) => {
                crate::text::push_str(&mut s, "unknown bridge event kind \"");
                crate::text::push_str(&mut s, k.as_str());
                crate::text::push_str(&mut s, "\"");
            },
        }
        s
    }
}

/// One line of the protocol.
#[derive(Debug, PartialEq)]
pub struct Envelope {
    pub v: u8,
    pub kind: String,
    pub id: Option<String>,
    pub correlation_id: Option<String>,
    pub run_id: String,
    pub tab_id: Option<u16>,
    pub ts: String,
    pub payload: serde_json::Value,
}

impl Envelope {
    /// An envelope of this build's version, with no id, correlation or tab.
    pub fn new(kind: &str, run_id: &str, ts: &str, payload: serde_json::Value) -> (e: Envelope)
        ensures
            e.v == PROTOCOL_VERSION,
            e.kind@ == kind@,
            e.id.is_none(),
            e.correlation_id.is_none(),
            e.run_id@ == run_id@,
            e.tab_id.is_none(),
            e.ts@ == ts@,
            e.payload == payload,
    {
        Envelope {
            v: PROTOCOL_VERSION,
            kind: owned(kind),
            id: None,
            correlation_id: None,
            run_id: owned(run_id),
            tab_id: None,
            ts: owned(ts),
            payload,
        }
    }

    /// The same envelope addressed to a tab.
    pub fn with_tab(self, tab_id: u16) -> (e: Envelope)
        ensures
            e == (Envelope { tab_id: Some(tab_id), ..self }),
    {
        Envelope { tab_id: Some(tab_id), ..self }
    }

    /// The same envelope with an id.
    pub fn with_id(self, id: String) -> (e: Envelope)
        ensures
            e == (Envelope { id: Some(id), ..self }),
    {
        Envelope { id: Some(id), ..self }
    }
}

/// Refuses a line longer than the protocol allows.
pub fn check_line_length(line: &str) -> (r: Result<(), ProtocolError>)
    ensures
        utf8_len(line@) <= MAX_LINE_BYTES ==> r is Ok,
        utf8_len(line@) > MAX_LINE_BYTES ==> (r matches Err(ProtocolError::LineTooLong { got, max })
            && max == MAX_LINE_BYTES && got as int == (if utf8_len(line@) <= usize::MAX {
            utf8_len(line@) as int
        } else {
            usize::MAX as int
        })),
{
    let n = utf8_byte_len(line);
    if n > MAX_LINE_BYTES as u128 {
        let got: usize = if n <= usize::MAX as u128 {
            n as usize
        } else {
            usize::MAX
        };
        Err(ProtocolError::LineTooLong { got, max: MAX_LINE_BYTES })
    } else {
        Ok(())
    }
}

/// A serialized envelope as one line of the protocol: refused when too
/// long, else ended with a newline.
pub fn frame_line(text: String) -> (r: Result<String, ProtocolError>)
    ensures
        utf8_len(text@) <= MAX_LINE_BYTES ==> (r matches Ok(l) && l@ == text@.push('\n')),
        utf8_len(text@) > MAX_LINE_BYTES ==> (r matches Err(ProtocolError::LineTooLong { got, max })
            && max == MAX_LINE_BYTES && got as int == (if utf8_len(text@) <= usize::MAX {
            utf8_len(text@) as int
        } else {
            usize::MAX as int
        })),
{
    match check_line_length(text.as_str()) {
        Err(e) => Err(e),
        Ok(()) => {
            let mut t = text;
            crate::text::push_char(&mut t, '\n');
            Ok(t)
        },
    }
}

/// Refuses an envelope of another protocol version.
pub fn check_version(envelope: Envelope) -> (r: Result<Envelope, ProtocolError>)
    ensures
        envelope.v == PROTOCOL_VERSION ==> r == Ok::<Envelope, ProtocolError>(envelope),
        envelope.v != PROTOCOL_VERSION ==> r == Err::<Envelope, ProtocolError>(
            ProtocolError::UnsupportedVersion { got: envelope.v, expected: PROTOCOL_VERSION },
        ),
{
    if envelope.v != PROTOCOL_VERSION {
        Err(ProtocolError::UnsupportedVersion { got: envelope.v, expected: PROTOCOL_VERSION })
    } else {
        Ok(envelope)
    }
}

// ---------------------------------------------------------------------
// Commands
// ---------------------------------------------------------------------

/// The greeting: who speaks, which protocol version, what it can do.
#[derive(Debug, Clone, PartialEq, Eq)]
pub struct HelloPayload {
    pub orchestrator_version: String,
    pub protocol_version: u8,
    pub capabilities: Vec<String>,
}

/// Open a chat tab with a model and a browser profile.
#[derive(Debug, Clone, PartialEq, Eq)]
pub struct OpenTabPayload {
    pub chat_url: String,
    pub model: String,
    pub profile_dir: String,
}

/// Upload a source archive of a repository ref into the chat.
#[derive(Debug, Clone, PartialEq, Eq)]
pub struct UploadArchivePayload {
    pub repo_url: String,
    pub ref_name: String,
    pub prefix: String,
    pub archive_filename: String,
    pub tmp_parent: Option<String>,
    pub delete_after_upload: bool,
    pub confirm_selectors: Vec<String>,
    pub timeout_ms: u64,
}

/// The ref uploaded when none is named.
pub fn default_ref_name() -> (s: String)
    ensures
        s@ == "HEAD"@,
{
    owned("HEAD")
}

/// Uploaded sources are deleted unless asked otherwise.
pub fn default_delete_after_upload() -> (b: bool)
    ensures
        b,
{
    true
}

/// How long an upload may take, in milliseconds, unless asked otherwise.
pub fn default_upload_timeout_ms() -> (t: u64)
    ensures
        t == 45000,
{
    45000
}

/// Submit a prompt, waiting at most `submit_timeout_ms`.
#[derive(Debug, Clone, PartialEq, Eq)]
pub struct SubmitPromptPayload {
    pub prompt: String,
    pub submit_timeout_ms: u64,
}

/// Watch a tab: completion checks and telemetry ticks, in milliseconds.
#[derive(Debug, Clone, PartialEq, Eq)]
pub struct MonitorTabPayload {
    pub completion_check_ms: u64,
    pub telemetry_tick_ms: u64,
}

/// Close a tab.
#[derive(Debug, Clone, PartialEq, Eq)]
pub struct CloseTabPayload {
    pub run_before_unload: bool,
}

/// Answer a tool prompt.
#[derive(Debug, Clone, PartialEq, Eq)]
pub struct ApproveOrDenyPayload {
    pub signature: String,
    pub decision: String,
    pub reason: Option<String>,
}

/// Stop the bridge after draining for `drain_timeout_ms`.
#[derive(Debug, Clone, PartialEq, Eq)]
pub struct ShutdownPayload {
    pub drain_timeout_ms: u64,
}

/// What the orchestrator asks of the bridge.
#[derive(Debug, Clone, PartialEq, Eq)]
pub enum BridgeCommand {
    Hello(HelloPayload),
    OpenTab(OpenTabPayload),
    UploadArchive(UploadArchivePayload),
    SubmitPrompt(SubmitPromptPayload),
    MonitorTab(MonitorTabPayload),
    StopGeneration,
    CloseTab(CloseTabPayload),
    ApproveOrDeny(ApproveOrDenyPayload),
    Shutdown(ShutdownPayload),
    Ping,
}

/// The wire name of a command.
pub open spec fn command_kind_spec(c: BridgeCommand) -> Seq<char> {
    match c {
        BridgeCommand::Hello(_) => "hello"@,
        BridgeCommand::OpenTab(_) => "open-tab"@,
        BridgeCommand::UploadArchive(_) => "upload-archive"@,
        BridgeCommand::SubmitPrompt(_) => "submit-prompt"@,
        BridgeCommand::MonitorTab(_) => "monitor-tab"@,
        BridgeCommand::StopGeneration => "stop-generation"@,
        BridgeCommand::CloseTab(_) => "close-tab"@,
        BridgeCommand::ApproveOrDeny(_) => "approve-or-deny"@,
        BridgeCommand::Shutdown(_) => "shutdown"@,
        BridgeCommand::Ping => "ping"@,
    }
}

/// Commands of different kinds have different wire names, so a wire name
/// names one kind of command.
pub proof fn lemma_command_kinds_distinct(a: BridgeCommand, b: BridgeCommand)
    requires
        command_kind_spec(a) == command_kind_spec(b),
    ensures
        (a is Hello) == (b is Hello),
        (a is OpenTab) == (b is OpenTab),
        (a is UploadArchive) == (b is UploadArchive),
        (a is SubmitPrompt) == (b is SubmitPrompt),
        (a is MonitorTab) == (b is MonitorTab),
        (a is StopGeneration) == (b is StopGeneration),
        (a is CloseTab) == (b is CloseTab),
        (a is ApproveOrDeny) == (b is ApproveOrDeny),
        (a is Shutdown) == (b is Shutdown),
        (a is Ping) == (b is Ping),
{
    reveal_strlit("hello");
    reveal_strlit("open-tab");
    reveal_strlit("upload-archive");
    reveal_strlit("submit-prompt");
    reveal_strlit("monitor-tab");
    reveal_strlit("stop-generation");
    reveal_strlit("close-tab");
    reveal_strlit("approve-or-deny");
    reveal_strlit("shutdown");
    reveal_strlit("ping");
    let ka = command_kind_spec(a);
    let kb = command_kind_spec(b);
    assert(ka.len() == kb.len());
    if ka.len() > 0 {
        assert(ka[0] == kb[0]);
    }
    if ka.len() > 1 {
        assert(ka[1] == kb[1]);
    }
}

impl BridgeCommand {
    /// The wire name of this command.
    pub fn kind(&self) -> (s: &'static str)
        ensures
            s@ == command_kind_spec(*self),
    {
        match self {
            BridgeCommand::Hello(_) => "hello",
            BridgeCommand::OpenTab(_) => "open-tab",
            BridgeCommand::UploadArchive(_) => "upload-archive",
            BridgeCommand::SubmitPrompt(_) => "submit-prompt",
            BridgeCommand::MonitorTab(_) => "monitor-tab",
            BridgeCommand::StopGeneration => "stop-generation",
            BridgeCommand::CloseTab(_) => "close-tab",
            BridgeCommand::ApproveOrDeny(_) => "approve-or-deny",
            BridgeCommand::Shutdown(_) => "shutdown",
            BridgeCommand::Ping => "ping",
        }
    }
}

// ---------------------------------------------------------------------
// Events
// ---------------------------------------------------------------------

/// The bridge started: its runtime and browser.
#[derive(Debug, Clone, PartialEq, Eq)]
pub struct BridgeReadyPayload {
    pub node_version: String,
    pub playwright_version: String,
    pub browser: String,
    pub browser_version: String,
    pub capabilities: Vec<String>,
}

/// A tab opened on a page.
#[derive(Debug, Clone, PartialEq, Eq)]
pub struct TabOpenedPayload {
    pub page_url: String,
    pub page_id: String,
}

/// The source archive was uploaded.
#[derive(Debug, Clone, PartialEq, Eq)]
pub struct ArchiveUploadedPayload {
    pub sha256: String,
    pub size_bytes: u64,
    pub commit: String,
    pub archive_filename: String,
    pub deleted_temp: bool,
}

/// The prompt was accepted.
#[derive(Debug, Clone, PartialEq, Eq)]
pub struct PromptSubmittedPayload {
    pub char_count: u32,
}

/// What a progress report is about.
#[derive(Debug, Clone, Copy, PartialEq, Eq)]
pub enum TabProgressKind {
    CompletionCheck,
    Telemetry,
}

/// How the answer in a tab is coming along.
#[derive(Debug, Clone, PartialEq, Eq)]
pub struct TabProgressPayload {
    pub kind: TabProgressKind,
    pub phase: String,
    pub busy_reason: Option<String>,
    pub has_active_stop: bool,
    pub has_final_actions: bool,
    pub last_text_length: u32,
    pub page_url: String,
}

/// Download links were found on the page.
#[derive(Debug, PartialEq)]
pub struct TarDiscoveredPayload {
    pub candidates: serde_json::Value,
    pub selected_index: Option<u32>,
}

/// A download began.
#[derive(Debug, Clone, PartialEq, Eq)]
pub struct DownloadStartedPayload {
    pub candidate_index: u32,
    pub remote_url: String,
    pub target_path: String,
    pub started_at: String,
}

/// A download finished and was saved.
#[derive(Debug, Clone, PartialEq, Eq)]
pub struct DownloadCompletePayload {
    pub sha256: String,
    pub size_bytes: u64,
    pub local_path: String,
    pub receipt_path: String,
    pub original_name: String,
    pub local_name: String,
    pub download_url: Option<String>,
    pub started_at: String,
    pub finished_at: String,
}

/// A tool prompt appeared.
#[derive(Debug, PartialEq)]
pub struct ToolPromptDetectedPayload {
    pub candidate: serde_json::Value,
}

/// A rate limit notice the bridge saw (and whether it dismissed it).
#[derive(Debug, Clone, PartialEq, Eq)]
pub struct RateLimitDetectedPayload {
    pub dismissed: bool,
    pub excerpt: String,
}

/// A tool prompt was answered by policy.
#[derive(Debug, Clone, PartialEq, Eq)]
pub struct PromptPolicyAppliedPayload {
    pub signature: String,
    pub decision: String,
    pub clicked: bool,
    pub reason: Option<String>,
}

/// The answer was stopped.
#[derive(Debug, Clone, PartialEq, Eq)]
pub struct GenerationStoppedPayload {
    pub method: String,
}

/// A tab closed.
#[derive(Debug, Clone, PartialEq, Eq)]
pub struct TabClosedPayload {
    pub page_url: String,
    pub reason: String,
}

/// A log line of the bridge.
#[derive(Debug, Clone, PartialEq, Eq)]
pub struct BridgeLogPayload {
    pub level: String,
    pub phase: String,
    pub message: String,
    pub fields: FieldMap,
}

/// The bridge is going away.
#[derive(Debug, Clone, PartialEq, Eq)]
pub struct BridgeShuttingDownPayload {
    pub reason: String,
}

/// Something failed in the bridge.
#[derive(Debug, Clone, PartialEq, Eq)]
pub struct ErrorPayload {
    pub kind: String,
    pub message: String,
    pub recoverable: bool,
    pub stack: Option<String>,
}

/// What the bridge reports.
#[derive(Debug, PartialEq)]
pub enum BridgeEvent {
    BridgeReady(BridgeReadyPayload),
    TabOpened(TabOpenedPayload),
    ArchiveUploaded(ArchiveUploadedPayload),
    PromptSubmitted(PromptSubmittedPayload),
    TabProgress(TabProgressPayload),
    TarDiscovered(TarDiscoveredPayload),
    DownloadStarted(DownloadStartedPayload),
    DownloadComplete(DownloadCompletePayload),
    ToolPromptDetected(ToolPromptDetectedPayload),
    PromptPolicyApplied(PromptPolicyAppliedPayload),
    GenerationStopped(GenerationStoppedPayload),
    TabClosed(TabClosedPayload),
    BridgeLog(BridgeLogPayload),
    Pong,
    BridgeShuttingDown(BridgeShuttingDownPayload),
    Error(ErrorPayload),
}

/// The wire name of an event.
pub open spec fn event_kind_spec(e: BridgeEvent) -> Seq<char> {
    match e {
        BridgeEvent::BridgeReady(_) => "bridge-ready"@,
        BridgeEvent::TabOpened(_) => "tab-opened"@,
        BridgeEvent::ArchiveUploaded(_) => "archive-uploaded"@,
        BridgeEvent::PromptSubmitted(_) => "prompt-submitted"@,
        BridgeEvent::TabProgress(_) => "tab-progress"@,
        BridgeEvent::TarDiscovered(_) => "tar-discovered"@,
        BridgeEvent::DownloadStarted(_) => "download-started"@,
        BridgeEvent::DownloadComplete(_) => "download-complete"@,
        BridgeEvent::ToolPromptDetected(_) => "tool-prompt-detected"@,
        BridgeEvent::PromptPolicyApplied(_) => "prompt-policy-applied"@,
        BridgeEvent::GenerationStopped(_) => "generation-stopped"@,
        BridgeEvent::TabClosed(_) => "tab-closed"@,
        BridgeEvent::BridgeLog(_) => "bridge-log"@,
        BridgeEvent::Pong => "pong"@,
        BridgeEvent::BridgeShuttingDown(_) => "bridge-shutting-down"@,
        BridgeEvent::Error(_) => "error"@,
    }
}

impl BridgeEvent {
    /// The wire name of this event.
    pub fn kind(&self) -> (s: &'static str)
        ensures
            s@ == event_kind_spec(*self),
    {
        match self {
            BridgeEvent::BridgeReady(_) => "bridge-ready",
            BridgeEvent::TabOpened(_) => "tab-opened",
            BridgeEvent::ArchiveUploaded(_) => "archive-uploaded",
            BridgeEvent::PromptSubmitted(_) => "prompt-submitted",
            BridgeEvent::TabProgress(_) => "tab-progress",
            BridgeEvent::TarDiscovered(_) => "tar-discovered",
            BridgeEvent::DownloadStarted(_) => "download-started",
            BridgeEvent::DownloadComplete(_) => "download-complete",
            BridgeEvent::ToolPromptDetected(_) => "tool-prompt-detected",
            BridgeEvent::PromptPolicyApplied(_) => "prompt-policy-applied",
            BridgeEvent::GenerationStopped(_) => "generation-stopped",
            BridgeEvent::TabClosed(_) => "tab-closed",
            BridgeEvent::BridgeLog(_) => "bridge-log",
            BridgeEvent::Pong => "pong",
            BridgeEvent::BridgeShuttingDown(_) => "bridge-shutting-down",
            BridgeEvent::Error(_) => "error",
        }
    }
}

// ---------------------------------------------------------------------
// Recording bridge events on the event bus
// ---------------------------------------------------------------------

/// `e` is an event of the run (and tab, when given) with this kind,
/// message, severity and fields.
pub open spec fn recorded_as(
    e: JailgunEvent,
    run_id: Seq<char>,
    tab_id: Option<u16>,
    kind: EventKind,
    message: Seq<char>,
    severity: Severity,
    fields: Map<Seq<char>, Seq<char>>,
) -> bool {
    &&& e.wf()
    &&& e.run_id@ == run_id
    &&& e.tab_id == tab_id
    &&& e.kind == kind
    &&& e.message@ == message
    &&& e.severity == severity
    &&& e.fields@ == fields
}

/// `true` or `false`.
pub open spec fn bool_text(b: bool) -> Seq<char> {
    if b {
        "true"@
    } else {
        "false"@
    }
}

fn bool_str(b: bool) -> (s: &'static str)
    ensures
        s@ == bool_text(b),
{
    if b {
        "true"
    } else {
        "false"
    }
}

fn base_event(run_id: &str, tab_id: Option<u16>, kind: EventKind, message: &str) -> (e: JailgunEvent)
    ensures
        recorded_as(e, run_id@, tab_id, kind, message@, Severity::Info, Map::empty()),
{
    let e = JailgunEvent::new(run_id, kind, message);
    match tab_id {
        Some(t) => e.with_tab(t),
        None => e,
    }
}

/// What a bridge event is recorded as on the bus: nothing for the
/// chatter of a running tab, and an event with the payload's key values
/// otherwise.
pub open spec fn maps_to(run_id: Seq<char>, tab_id: Option<u16>, ev: BridgeEvent, r: Option<
    JailgunEvent,
>) -> bool {
    match ev {
        BridgeEvent::TabOpened(p) => r matches Some(e) && recorded_as(
            e,
            run_id,
            tab_id,
            EventKind::TabOpened,
            "tab opened"@,
            Severity::Info,
            Map::empty().insert("page_url"@, p.page_url@),
        ),
        BridgeEvent::ArchiveUploaded(p) => r matches Some(e) && recorded_as(
            e,
            run_id,
            tab_id,
            EventKind::TabOpened,
            "archive uploaded"@,
            Severity::Info,
            Map::empty().insert("sha256"@, p.sha256@).insert(
                "size_bytes"@,
                decimal(p.size_bytes as nat),
            ).insert("commit"@, p.commit@).insert("archive_filename"@, p.archive_filename@),
        ),
        BridgeEvent::PromptSubmitted(p) => r matches Some(e) && recorded_as(
            e,
            run_id,
            tab_id,
            EventKind::PromptSubmitted,
            "prompt submitted"@,
            Severity::Info,
            Map::empty().insert("char_count"@, decimal(p.char_count as nat)),
        ),
        BridgeEvent::TarDiscovered(_) => r matches Some(e) && recorded_as(
            e,
            run_id,
            tab_id,
            EventKind::TarDiscovered,
            "tar link discovered"@,
            Severity::Info,
            Map::empty(),
        ),
        BridgeEvent::DownloadStarted(p) => r matches Some(e) && recorded_as(
            e,
            run_id,
            tab_id,
            EventKind::TarDiscovered,
            "download started"@,
            Severity::Info,
            Map::empty().insert("remote_url"@, p.remote_url@).insert(
                "target_path"@,
                p.target_path@,
            ),
        ),
        BridgeEvent::DownloadComplete(p) => r matches Some(e) && recorded_as(
            e,
            run_id,
            tab_id,
            EventKind::DownloadReceipt,
            "download complete"@,
            Severity::Info,
            Map::empty().insert("sha256"@, p.sha256@).insert(
                "size_bytes"@,
                decimal(p.size_bytes as nat),
            ).insert("local_path"@, p.local_path@).insert("receipt_path"@, p.receipt_path@),
        ),
        BridgeEvent::PromptPolicyApplied(p) => r matches Some(e) && recorded_as(
            e,
            run_id,
            tab_id,
            EventKind::PromptPolicy,
            "policy applied"@,
            Severity::Info,
            Map::empty().insert("signature"@, p.signature@).insert("decision"@, p.decision@).insert(
                "clicked"@,
                bool_text(p.clicked),
            ),
        ),
        BridgeEvent::Error(p) => r matches Some(e) && recorded_as(
            e,
            run_id,
            tab_id,
            EventKind::Error,
            p.message@,
            Severity::Error,
            Map::empty().insert("kind"@, p.kind@).insert("recoverable"@, bool_text(p.recoverable)),
        ),
        _ => r is None,
    }
}

/// The event a bridge event is recorded as, if any.
pub fn map_bridge_event(run_id: &str, tab_id: Option<u16>, event: &BridgeEvent) -> (r: Option<
    JailgunEvent,
>)
    ensures
        maps_to(run_id@, tab_id, *event, r),
{
    match event {
        BridgeEvent::TabOpened(p) => Some(
            base_event(run_id, tab_id, EventKind::TabOpened, "tab opened").with_field(
                "page_url",
                p.page_url.as_str(),
            ),
        ),
        BridgeEvent::ArchiveUploaded(p) => {
            let size = crate::text::decimal_string(p.size_bytes);
            Some(
                base_event(run_id, tab_id, EventKind::TabOpened, "archive uploaded").with_field(
                    "sha256",
                    p.sha256.as_str(),
                ).with_field("size_bytes", size.as_str()).with_field(
                    "commit",
                    p.commit.as_str(),
                ).with_field("archive_filename", p.archive_filename.as_str()),
            )
        },
        BridgeEvent::PromptSubmitted(p) => {
            let n = crate::text::decimal_string(p.char_count as u64);
            Some(
                base_event(run_id, tab_id, EventKind::PromptSubmitted, "prompt submitted").with_field(
                    "char_count",
                    n.as_str(),
                ),
            )
        },
        BridgeEvent::TarDiscovered(_) => Some(
            base_event(run_id, tab_id, EventKind::TarDiscovered, "tar link discovered"),
        ),
        BridgeEvent::DownloadStarted(p) => Some(
            base_event(run_id, tab_id, EventKind::TarDiscovered, "download started").with_field(
                "remote_url",
                p.remote_url.as_str(),
            ).with_field("target_path", p.target_path.as_str()),
        ),
        BridgeEvent::DownloadComplete(p) => {
            let size = crate::text::decimal_string(p.size_bytes);
            Some(
                base_event(run_id, tab_id, EventKind::DownloadReceipt, "download complete").with_field(
                    "sha256",
                    p.sha256.as_str(),
                ).with_field("size_bytes", size.as_str()).with_field(
                    "local_path",
                    p.local_path.as_str(),
                ).with_field("receipt_path", p.receipt_path.as_str()),
            )
        },
        BridgeEvent::PromptPolicyApplied(p) => Some(
            base_event(run_id, tab_id, EventKind::PromptPolicy, "policy applied").with_field(
                "signature",
                p.signature.as_str(),
            ).with_field("decision", p.decision.as_str()).with_field(
                "clicked",
                bool_str(p.clicked),
            ),
        ),
        BridgeEvent::Error(p) => Some(
            base_event(run_id, tab_id, EventKind::Error, p.message.as_str()).with_severity(
                Severity::Error,
            ).with_field("kind", p.kind.as_str()).with_field(
                "recoverable",
                bool_str(p.recoverable),
            ),
        ),
        _ => None,
    }
}

/// The envelope of a command (its payload serialized by the caller),
/// addressed to a tab when given.
pub fn envelope_for_command(command: &BridgeCommand, run_id: &str, ts: &str, tab_id: Option<u16>, payload: serde_json::Value) -> (e: Envelope)
    ensures
        e.v == PROTOCOL_VERSION,
        e.kind@ == command_kind_spec(*command),
        e.id.is_none(),
        e.correlation_id.is_none(),
        e.run_id@ == run_id@,
        e.tab_id == tab_id,
        e.ts@ == ts@,
        e.payload == payload,
{
    let mut e = Envelope::new(command.kind(), run_id, ts, payload);
    e.tab_id = tab_id;
    e
}

/// The envelope of an event (its payload serialized by the caller),
/// from a tab when given.
pub fn envelope_for_event(event: &BridgeEvent, run_id: &str, ts: &str, tab_id: Option<u16>, payload: serde_json::Value) -> (e: Envelope)
    ensures
        e.v == PROTOCOL_VERSION,
        e.kind@ == event_kind_spec(*event),
        e.id.is_none(),
        e.correlation_id.is_none(),
        e.run_id@ == run_id@,
        e.tab_id == tab_id,
        e.ts@ == ts@,
        e.payload == payload,
{
    let mut e = Envelope::new(event.kind(), run_id, ts, payload);
    e.tab_id = tab_id;
    e
}

} // verus!
