//! Progress tracking of one blob download.
//!
//! The application reads the download's progress stream; each thing it observes (a
//! progress event, a stream error, the end of the stream, a quiet period, the running
//! clock, the outcome of exporting the blob to disk) is handed to [`DownloadTracker::step`],
//! which updates the sizes it has learnt, says which progress reports to publish and
//! whether to continue reading, to export the blob, or to stop.
use vstd::prelude::*;
use crate::text::text_of;

verus! {

/// Overall limit on a download, in seconds (two hours).
pub const OVERALL_LIMIT_SECS: u64 = 7200;

/// Without any progress event for this long, while nothing has been downloaded yet,
/// the peer is considered unreachable.
pub const CONNECT_LIMIT_SECS: u64 = 60;

/// Without any progress event for this long the download is considered stalled.
pub const STALL_LIMIT_SECS: u64 = 300;

/// Status word of a progress report.
#[derive(Debug, Clone, Copy, PartialEq, Eq, Structural)]
pub enum TransferStatus {
    Connecting,
    Downloading,
    Completed,
    Failed,
    Idle,
}

/// The word a status is published as.
pub open spec fn status_word(s: TransferStatus) -> Seq<char> {
    match s {
        TransferStatus::Connecting => "connecting"@,
        TransferStatus::Downloading => "downloading"@,
        TransferStatus::Completed => "completed"@,
        TransferStatus::Failed => "failed"@,
        TransferStatus::Idle => "idle"@,
    }
}

/// The word a status is published as.
pub fn status_label(s: TransferStatus) -> (w: &'static str)
    ensures
        w@ == status_word(s),
{
    match s {
        TransferStatus::Connecting => "connecting",
        TransferStatus::Downloading => "downloading",
        TransferStatus::Completed => "completed",
        TransferStatus::Failed => "failed",
        TransferStatus::Idle => "idle",
    }
}

/// One progress report published towards the user interface.
#[derive(Debug, Clone, PartialEq, Eq)]
pub struct ProgressReport {
    pub status: TransferStatus,
    pub downloaded_size: u64,
    pub total_size: u64,
    /// Present on failed reports.
    pub error: Option<String>,
    /// Present on the completed report: where the file was written.
    pub save_path: Option<String>,
}

/// The mathematical content of a [`ProgressReport`].
pub struct ReportView {
    pub status: TransferStatus,
    pub downloaded_size: u64,
    pub total_size: u64,
    pub error: Option<Seq<char>>,
    pub save_path: Option<Seq<char>>,
}

impl View for ProgressReport {
    type V = ReportView;

    open spec fn view(&self) -> ReportView {
        ReportView {
            status: self.status,
            downloaded_size: self.downloaded_size,
            total_size: self.total_size,
            error: text_of(self.error),
            save_path: text_of(self.save_path),
        }
    }
}

pub open spec fn report_views(v: Seq<ProgressReport>) -> Seq<ReportView> {
    v.map_values(|r: ProgressReport| r@)
}

pub open spec fn downloading_report(downloaded: u64, total: u64) -> ReportView {
    ReportView {
        status: TransferStatus::Downloading,
        downloaded_size: downloaded,
        total_size: total,
        error: None,
        save_path: None,
    }
}

pub open spec fn failed_report(message: Seq<char>, downloaded: u64, total: u64) -> ReportView {
    ReportView {
        status: TransferStatus::Failed,
        downloaded_size: downloaded,
        total_size: total,
        error: Some(message),
        save_path: None,
    }
}

pub open spec fn completed_report(path: Seq<char>, downloaded: u64, total: u64) -> ReportView {
    ReportView {
        status: TransferStatus::Completed,
        downloaded_size: downloaded,
        total_size: total,
        error: None,
        save_path: Some(path),
    }
}

/// A span of time as measured by the application's monotonic clock.
#[derive(Debug, Clone, Copy, PartialEq, Eq, Structural)]
pub struct Elapsed {
    pub secs: u64,
    pub nanos: u32,
}

/// Whether the span is strictly longer than `limit` whole seconds.
pub open spec fn longer_than(e: Elapsed, limit: u64) -> bool {
    e.secs > limit || (e.secs == limit && e.nanos > 0)
}

/// Whether the span is strictly longer than `limit` whole seconds.
pub fn exceeds(e: Elapsed, limit: u64) -> (b: bool)
    ensures
        b == longer_than(e, limit),
{
    e.secs > limit || (e.secs == limit && e.nanos > 0)
}

/// Progress of the blob currently being fetched, as the transfer state reports it.
#[derive(Debug, Clone, Copy, PartialEq, Eq, Structural)]
pub enum BlobStage {
    Pending,
    Progressing(u64),
    Done,
}

/// The current blob of a transfer's initial state.
#[derive(Debug, Clone, Copy, PartialEq, Eq, Structural)]
pub struct BlobSnapshot {
    /// Size of the blob, where already known.
    pub size: Option<u64>,
    pub stage: BlobStage,
}

/// One event of the download's progress stream.
#[derive(Debug, Clone, PartialEq, Eq)]
pub enum DownloadEvent {
    /// The transfer's state at the time of subscribing.
    InitialState { connected: bool, current: Option<BlobSnapshot> },
    /// A connection to the provider was established.
    Connected,
    /// The root of a hash sequence was found, with this many children.
    FoundHashSeq { children: u64 },
    /// A blob of this size was found at the provider.
    Found { size: u64 },
    /// This many bytes of the current blob have arrived.
    Progress { offset: u64 },
    /// The blob is already stored locally.
    FoundLocal,
    /// The transfer was aborted; `reason` is the rendered error.
    Abort { reason: String },
    /// The current blob is complete.
    Done,
    /// The whole transfer is complete, having read this many bytes.
    AllDone { bytes_read: u64 },
}

/// How exporting the downloaded blob to its file ended.
#[derive(Debug, Clone, PartialEq, Eq)]
pub enum ExportOutcome {
    /// Written to this path.
    Saved(String),
    /// The export could not be started; rendered error.
    StartFailed(String),
    /// The export started but writing failed; rendered error.
    WriteFailed(String),
}

/// What the application observed and hands to the tracker.
#[derive(Debug, Clone, PartialEq, Eq)]
pub enum TransferInput {
    /// Time since the download started, checked before each read of the stream.
    Clock { since_start: Elapsed },
    /// The stream yielded an event.
    Event(DownloadEvent),
    /// The stream yielded an error, rendered.
    StreamError { reason: String },
    /// The stream ended.
    StreamEnded,
    /// No item arrived within the read timeout; time since the last item.
    Quiet { since_progress: Elapsed },
    /// The export requested by [`TrackerAction::Export`] ended.
    Exported(ExportOutcome),
}

/// What the application does next.
#[derive(Debug, Clone, Copy, PartialEq, Eq, Structural)]
pub enum TrackerAction {
    /// Keep reading the stream.
    Continue,
    /// Export the downloaded blob to the save path and report the outcome.
    Export,
    /// The download is over.
    Stop,
}

/// Phase of the download.
#[derive(Debug, Clone, Copy, PartialEq, Eq, Structural)]
pub enum Phase {
    Running,
    Exporting,
    Finished,
}

/// What one step produced.
#[derive(Debug, Clone, PartialEq, Eq)]
pub struct Step {
    pub reports: Vec<ProgressReport>,
    pub action: TrackerAction,
}

/// Sizes learnt so far and the phase of one download.
pub struct DownloadTracker {
    expected_size: u64,
    downloaded_size: u64,
    total_size: u64,
    phase: Phase,
}

/// The mathematical content of a [`DownloadTracker`].
pub struct TrackerView {
    /// The size announced by the sender, never zero.
    pub expected_size: u64,
    pub downloaded_size: u64,
    pub total_size: u64,
    pub phase: Phase,
}

impl View for DownloadTracker {
    type V = TrackerView;

    closed spec fn view(&self) -> TrackerView {
        TrackerView {
            expected_size: self.expected_size,
            downloaded_size: self.downloaded_size,
            total_size: self.total_size,
            phase: self.phase,
        }
    }
}

/// The size used as total before the blob's own size is known: the announced size,
/// or 1 where none was announced (so that a ratio never divides by zero).
pub open spec fn effective_size(total_size: u64) -> u64 {
    if total_size > 0 {
        total_size
    } else {
        1
    }
}

/// The size used as total before the blob's own size is known.
pub fn effective_total_size(total_size: u64) -> (res: u64)
    ensures
        res == effective_size(total_size),
        res > 0,
{
    if total_size > 0 {
        total_size
    } else {
        1
    }
}

pub open spec fn with_sizes(s: TrackerView, downloaded: u64, total: u64) -> TrackerView {
    TrackerView { downloaded_size: downloaded, total_size: total, ..s }
}

pub open spec fn with_phase(s: TrackerView, phase: Phase) -> TrackerView {
    TrackerView { phase: phase, ..s }
}

pub open spec fn max_u64(a: u64, b: u64) -> u64 {
    if a >= b {
        a
    } else {
        b
    }
}

/// Total size after the initial state: the current blob's size where known.
pub open spec fn initial_total(s: TrackerView, current: Option<BlobSnapshot>) -> u64 {
    match current {
        Some(b) => match b.size {
            Some(size) => size,
            None => s.total_size,
        },
        None => s.total_size,
    }
}

/// Downloaded size after the initial state.
pub open spec fn initial_downloaded(s: TrackerView, current: Option<BlobSnapshot>) -> u64 {
    match current {
        Some(b) => match b.stage {
            BlobStage::Progressing(offset) => offset,
            BlobStage::Done => initial_total(s, current),
            BlobStage::Pending => s.downloaded_size,
        },
        None => s.downloaded_size,
    }
}

/// How a progress event changes the tracker, what it reports, and what comes next.
pub open spec fn event_transition(s: TrackerView, e: DownloadEvent) -> (
    TrackerView,
    Seq<ReportView>,
    TrackerAction,
) {
    let d = s.downloaded_size;
    let t = s.total_size;
    match e {
        DownloadEvent::InitialState { connected, current } => {
            let nd = initial_downloaded(s, current);
            let nt = initial_total(s, current);
            let last = downloading_report(nd, nt);
            (
                with_sizes(s, nd, nt),
                if connected {
                    seq![downloading_report(d, t), last]
                } else {
                    seq![last]
                },
                TrackerAction::Continue,
            )
        },
        DownloadEvent::Connected => (s, seq![downloading_report(0, t)], TrackerAction::Continue),
        DownloadEvent::FoundHashSeq { children } => {
            let nt = max_u64(s.expected_size, children);
            (with_sizes(s, d, nt), seq![downloading_report(d, nt)], TrackerAction::Continue)
        },
        DownloadEvent::Found { size } => (
            with_sizes(s, d, size),
            seq![downloading_report(0, size)],
            TrackerAction::Continue,
        ),
        DownloadEvent::Progress { offset } => (
            with_sizes(s, offset, t),
            seq![downloading_report(offset, t)],
            TrackerAction::Continue,
        ),
        DownloadEvent::FoundLocal => (s, seq![downloading_report(t, t)], TrackerAction::Continue),
        DownloadEvent::Abort { reason } => (
            with_phase(s, Phase::Finished),
            seq![failed_report("下载中止: "@ + reason@, d, t)],
            TrackerAction::Stop,
        ),
        DownloadEvent::Done => (
            with_sizes(s, t, t),
            seq![downloading_report(t, t)],
            TrackerAction::Continue,
        ),
        DownloadEvent::AllDone { bytes_read } => (
            with_phase(with_sizes(s, bytes_read, t), Phase::Exporting),
            seq![],
            TrackerAction::Export,
        ),
    }
}

/// The report that ends the download once the export is over.
pub open spec fn export_report(s: TrackerView, outcome: ExportOutcome) -> ReportView {
    match outcome {
        ExportOutcome::Saved(path) => completed_report(path@, s.downloaded_size, s.total_size),
        ExportOutcome::StartFailed(detail) => failed_report(
            "导出失败: "@ + detail@,
            s.downloaded_size,
            s.total_size,
        ),
        ExportOutcome::WriteFailed(detail) => failed_report(
            "导出写入失败: "@ + detail@,
            s.downloaded_size,
            s.total_size,
        ),
    }
}

/// The whole transition table of the tracker.
pub open spec fn transition(s: TrackerView, input: TransferInput) -> (
    TrackerView,
    Seq<ReportView>,
    TrackerAction,
) {
    let d = s.downloaded_size;
    let t = s.total_size;
    let finished = with_phase(s, Phase::Finished);
    match s.phase {
        Phase::Finished => (s, seq![], TrackerAction::Stop),
        Phase::Exporting => match input {
            TransferInput::Exported(outcome) => (
                finished,
                seq![export_report(s, outcome)],
                TrackerAction::Stop,
            ),
            _ => (s, seq![], TrackerAction::Export),
        },
        Phase::Running => match input {
            TransferInput::Clock { since_start } => if longer_than(
                since_start,
                OVERALL_LIMIT_SECS,
            ) {
                (finished, seq![failed_report("下载超时（2小时）"@, d, t)], TrackerAction::Stop)
            } else {
                (s, seq![], TrackerAction::Continue)
            },
            TransferInput::Event(e) => event_transition(s, e),
            TransferInput::StreamError { reason } => (
                finished,
                seq![failed_report("下载出错: "@ + reason@, 0, t)],
                TrackerAction::Stop,
            ),
            TransferInput::StreamEnded => (
                finished,
                seq![failed_report("下载意外结束"@, d, t)],
                TrackerAction::Stop,
            ),
            TransferInput::Quiet { since_progress } => if d == 0 && longer_than(
                since_progress,
                CONNECT_LIMIT_SECS,
            ) {
                (
                    finished,
                    seq![failed_report("连接超时（60秒无响应），对方节点可能离线或网络不通"@, 0, t)],
                    TrackerAction::Stop,
                )
            } else if longer_than(since_progress, STALL_LIMIT_SECS) {
                (
                    finished,
                    seq![failed_report("下载停滞超时（5分钟无进度）"@, d, t)],
                    TrackerAction::Stop,
                )
            } else {
                (s, seq![], TrackerAction::Continue)
            },
            TransferInput::Exported(_) => (s, seq![], TrackerAction::Continue),
        },
    }
}

fn downloading(downloaded: u64, total: u64) -> (r: ProgressReport)
    ensures
        r@ == downloading_report(downloaded, total),
{
    ProgressReport {
        status: TransferStatus::Downloading,
        downloaded_size: downloaded,
        total_size: total,
        error: None,
        save_path: None,
    }
}

fn failed(message: String, downloaded: u64, total: u64) -> (r: ProgressReport)
    ensures
        r@ == failed_report(message@, downloaded, total),
{
    ProgressReport {
        status: TransferStatus::Failed,
        downloaded_size: downloaded,
        total_size: total,
        error: Some(message),
        save_path: None,
    }
}

fn prefixed(prefix: &str, detail: &str) -> (s: String)
    ensures
        s@ == prefix@ + detail@,
{
    let mut s = String::from_str(prefix);
    s.append(detail);
    s
}

fn single(r: ProgressReport) -> (v: Vec<ProgressReport>)
    ensures
        report_views(v@) == seq![r@],
{
    let mut v: Vec<ProgressReport> = Vec::new();
    v.push(r);
    assert(report_views(v@) =~= seq![r@]);
    v
}

impl DownloadTracker {
    /// A tracker for a download whose sender announced `total_size` bytes (0: unknown).
    pub fn new(total_size: u64) -> (t: Self)
        ensures
            t@.expected_size == effective_size(total_size),
            t@.downloaded_size == 0,
            t@.total_size == effective_size(total_size),
            t@.phase == Phase::Running,
    {
        let e = effective_total_size(total_size);
        DownloadTracker { expected_size: e, downloaded_size: 0, total_size: e, phase: Phase::Running }
    }

    /// The report published as soon as the download was requested.
    pub fn connecting_report(&self) -> (r: ProgressReport)
        ensures
            r@ == (ReportView {
                status: TransferStatus::Connecting,
                downloaded_size: 0,
                total_size: self@.expected_size,
                error: None,
                save_path: None,
            }),
    {
        ProgressReport {
            status: TransferStatus::Connecting,
            downloaded_size: 0,
            total_size: self.expected_size,
            error: None,
            save_path: None,
        }
    }

    /// Bytes downloaded so far, as last learnt.
    pub fn downloaded_size(&self) -> (d: u64)
        ensures
            d == self@.downloaded_size,
    {
        self.downloaded_size
    }

    /// Total size of the download, as last learnt.
    pub fn total_size(&self) -> (t: u64)
        ensures
            t == self@.total_size,
    {
        self.total_size
    }

    /// The phase of the download.
    pub fn phase(&self) -> (p: Phase)
        ensures
            p == self@.phase,
    {
        self.phase
    }

    fn on_event(&mut self, e: DownloadEvent) -> (res: Step)
        requires
            old(self)@.phase == Phase::Running,
        ensures
            ({
                let (ns, reps, act) = event_transition(old(self)@, e);
                &&& final(self)@ == ns
                &&& report_views(res.reports@) == reps
                &&& res.action == act
            }),
    {
        let d = self.downloaded_size;
        let t = self.total_size;
        match e {
            DownloadEvent::InitialState { connected, current } => {
                let mut reports: Vec<ProgressReport> = Vec::new();
                if connected {
                    reports.push(downloading(d, t));
                }
                match current {
                    Some(b) => {
                        match b.size {
                            Some(size) => {
                                self.total_size = size;
                            },
                            None => {},
                        }
                        match b.stage {
                            BlobStage::Progressing(offset) => {
                                self.downloaded_size = offset;
                            },
                            BlobStage::Done => {
                                self.downloaded_size = self.total_size;
                            },
                            BlobStage::Pending => {},
                        }
                    },
                    None => {},
                }
                reports.push(downloading(self.downloaded_size, self.total_size));
                assert(report_views(reports@) =~= event_transition(old(self)@, e).1);
                Step { reports, action: TrackerAction::Continue }
            },
            DownloadEvent::Connected => Step {
                reports: single(downloading(0, t)),
                action: TrackerAction::Continue,
            },
            DownloadEvent::FoundHashSeq { children } => {
                let nt = if self.expected_size >= children {
                    self.expected_size
                } else {
                    children
                };
                self.total_size = nt;
                Step { reports: single(downloading(d, nt)), action: TrackerAction::Continue }
            },
            DownloadEvent::Found { size } => {
                self.total_size = size;
                Step { reports: single(downloading(0, size)), action: TrackerAction::Continue }
            },
            DownloadEvent::Progress { offset } => {
                self.downloaded_size = offset;
                Step { reports: single(downloading(offset, t)), action: TrackerAction::Continue }
            },
            DownloadEvent::FoundLocal => Step {
                reports: single(downloading(t, t)),
                action: TrackerAction::Continue,
            },
            DownloadEvent::Abort { reason } => {
                self.phase = Phase::Finished;
                let msg = prefixed("下载中止: ", reason.as_str());
                Step { reports: single(failed(msg, d, t)), action: TrackerAction::Stop }
            },
            DownloadEvent::Done => {
                self.downloaded_size = t;
                Step { reports: single(downloading(t, t)), action: TrackerAction::Continue }
            },
            DownloadEvent::AllDone { bytes_read } => {
                self.downloaded_size = bytes_read;
                self.phase = Phase::Exporting;
                let reports: Vec<ProgressReport> = Vec::new();
                assert(report_views(reports@) =~= Seq::<ReportView>::empty());
                Step { reports, action: TrackerAction::Export }
            },
        }
    }

    /// Takes one observation of the application into account: updates what the tracker
    /// knows, and returns the reports to publish, in order, and what to do next.
    pub fn step(&mut self, input: TransferInput) -> (res: Step)
        ensures
            ({
                let (ns, reps, act) = transition(old(self)@, input);
                &&& final(self)@ == ns
                &&& report_views(res.reports@) == reps
                &&& res.action == act
            }),
    {
        let d = self.downloaded_size;
        let t = self.total_size;
        let none: Vec<ProgressReport> = Vec::new();
        assert(report_views(none@) =~= Seq::<ReportView>::empty());
        match self.phase {
            Phase::Finished => Step { reports: none, action: TrackerAction::Stop },
            Phase::Exporting => match input {
                TransferInput::Exported(outcome) => {
                    self.phase = Phase::Finished;
                    let r = match outcome {
                        ExportOutcome::Saved(path) => ProgressReport {
                            status: TransferStatus::Completed,
                            downloaded_size: d,
                            total_size: t,
                            error: None,
                            save_path: Some(path),
                        },
                        ExportOutcome::StartFailed(detail) => failed(
                            prefixed("导出失败: ", detail.as_str()),
                            d,
                            t,
                        ),
                        ExportOutcome::WriteFailed(detail) => failed(
                            prefixed("导出写入失败: ", detail.as_str()),
                            d,
                            t,
                        ),
                    };
                    Step { reports: single(r), action: TrackerAction::Stop }
                },
                _ => Step { reports: none, action: TrackerAction::Export },
            },
            Phase::Running => match input {
                TransferInput::Clock { since_start } => {
                    if exceeds(since_start, OVERALL_LIMIT_SECS) {
                        self.phase = Phase::Finished;
                        let msg = String::from_str("下载超时（2小时）");
                        Step { reports: single(failed(msg, d, t)), action: TrackerAction::Stop }
                    } else {
                        Step { reports: none, action: TrackerAction::Continue }
                    }
                },
                TransferInput::Event(e) => self.on_event(e),
                TransferInput::StreamError { reason } => {
                    self.phase = Phase::Finished;
                    let msg = prefixed("下载出错: ", reason.as_str());
                    Step { reports: single(failed(msg, 0, t)), action: TrackerAction::Stop }
                },
                TransferInput::StreamEnded => {
                    self.phase = Phase::Finished;
                    let msg = String::from_str("下载意外结束");
                    Step { reports: single(failed(msg, d, t)), action: TrackerAction::Stop }
                },
                TransferInput::Quiet { since_progress } => {
                    if d == 0 && exceeds(since_progress, CONNECT_LIMIT_SECS) {
                        self.phase = Phase::Finished;
                        let msg = String::from_str(
                            "连接超时（60秒无响应），对方节点可能离线或网络不通",
                        );
                        Step { reports: single(failed(msg, 0, t)), action: TrackerAction::Stop }
                    } else if exceeds(since_progress, STALL_LIMIT_SECS) {
                        self.phase = Phase::Finished;
                        let msg = String::from_str("下载停滞超时（5分钟无进度）");
                        Step { reports: single(failed(msg, d, t)), action: TrackerAction::Stop }
                    } else {
                        Step { reports: none, action: TrackerAction::Continue }
                    }
                },
                TransferInput::Exported(_) => Step { reports: none, action: TrackerAction::Continue },
            },
        }
    }
}

/// Once a download is over, nothing it is handed changes it or makes it publish anything.
pub proof fn law_finished_is_final(s: TrackerView, input: TransferInput)
    requires
        s.phase == Phase::Finished,
    ensures
        transition(s, input).0 == s,
        transition(s, input).1.len() == 0,
        transition(s, input).2 == TrackerAction::Stop,
{
}

/// A step that stops a running or exporting download publishes exactly one report, of
/// status failed or completed, and finishes the download; a step that does not stop it
/// publishes only reports of status downloading and leaves it unfinished.
pub proof fn law_one_final_report(s: TrackerView, input: TransferInput)
    requires
        s.phase != Phase::Finished,
    ensures
        ({
            let (ns, reps, act) = transition(s, input);
            if act == TrackerAction::Stop {
                &&& ns.phase == Phase::Finished
                &&& reps.len() == 1
                &&& (reps[0].status == TransferStatus::Failed || reps[0].status
                    == TransferStatus::Completed)
            } else {
                &&& ns.phase != Phase::Finished
                &&& forall|k: int| 0 <= k < reps.len() ==> #[trigger] reps[k].status
                    == TransferStatus::Downloading
            }
        }),
{
}

/// A completed report is published only when an export requested by the tracker ended
/// with the file written, and it names the path that was written.
pub proof fn law_completed_only_after_export(s: TrackerView, input: TransferInput, k: int)
    requires
        0 <= k < transition(s, input).1.len(),
        transition(s, input).1[k].status == TransferStatus::Completed,
    ensures
        s.phase == Phase::Exporting,
        input matches TransferInput::Exported(ExportOutcome::Saved(path)) && transition(
            s,
            input,
        ).1[k].save_path == Some(path@),
{
}

/// The tracker asks for an export exactly when the transfer reported that everything
/// arrived, and the export starts from what the transfer said it read.
pub proof fn law_export_follows_all_done(s: TrackerView, input: TransferInput)
    requires
        s.phase == Phase::Running,
    ensures
        (transition(s, input).2 == TrackerAction::Export) <==> (input matches TransferInput::Event(
            DownloadEvent::AllDone { .. },
        )),
        input matches TransferInput::Event(DownloadEvent::AllDone { bytes_read })
            ==> transition(s, input).0.downloaded_size == bytes_read,
{
}

/// The size announced by the sender (or 1) is kept for the whole download.
pub proof fn law_expected_size_kept(s: TrackerView, input: TransferInput)
    ensures
        transition(s, input).0.expected_size == s.expected_size,
{
}

/// An error of the progress stream ends a running download with one failed report that
/// counts nothing as downloaded and keeps the total size known at that moment.
pub proof fn law_stream_error_reports_nothing_downloaded(s: TrackerView, reason: String)
    requires
        s.phase == Phase::Running,
    ensures
        transition(s, TransferInput::StreamError { reason }).1 == seq![
            failed_report("下载出错: "@ + reason@, 0, s.total_size),
        ],
{
}

/// The total size shown stays positive (so a percentage can always be computed) unless
/// the transfer itself announces a blob of size zero.
pub proof fn law_total_stays_positive(s: TrackerView, input: TransferInput)
    requires
        s.total_size > 0,
        s.expected_size > 0,
        !(input matches TransferInput::Event(DownloadEvent::Found { size }) && size == 0),
        !(input matches TransferInput::Event(DownloadEvent::InitialState { current: Some(b), .. })
            && b.size == Some(0u64)),
    ensures
        transition(s, input).0.total_size > 0,
        forall|k: int|
            0 <= k < transition(s, input).1.len() ==> #[trigger] transition(s, input).1[k].total_size
                > 0,
{
}

/// Whether a status ends a download.
pub open spec fn is_final_status(st: TransferStatus) -> bool {
    st == TransferStatus::Failed || st == TransferStatus::Completed
}

/// The tracker after a whole sequence of observations, and every report published on
/// the way, in order.
pub open spec fn run(s: TrackerView, inputs: Seq<TransferInput>) -> (TrackerView, Seq<ReportView>)
    decreases inputs.len(),
{
    if inputs.len() == 0 {
        (s, seq![])
    } else {
        let (s1, r1) = run(s, inputs.drop_last());
        let (s2, r2, _a) = transition(s1, inputs.last());
        (s2, r1 + r2)
    }
}

/// Over a whole download, whatever is observed: every report but the last has status
/// downloading; the download is over exactly when a report of status failed or
/// completed was published, and that report is the last one. (The shell publishes the
/// connecting report before all of these.) So at most one final report is published,
/// and nothing follows it.
pub proof fn law_run_has_one_final_report(s: TrackerView, inputs: Seq<TransferInput>)
    requires
        s.phase != Phase::Finished,
    ensures
        ({
            let (sf, reps) = run(s, inputs);
            &&& forall|k: int|
                0 <= k < reps.len() && (k < reps.len() - 1 || sf.phase != Phase::Finished)
                    ==> #[trigger] reps[k].status == TransferStatus::Downloading
            &&& sf.phase == Phase::Finished ==> reps.len() > 0 && is_final_status(reps.last().status)
        }),
    decreases inputs.len(),
{
    if inputs.len() > 0 {
        let (s1, r1) = run(s, inputs.drop_last());
        law_run_has_one_final_report(s, inputs.drop_last());
        let (s2, r2, a) = transition(s1, inputs.last());
        let (sf, reps) = run(s, inputs);
        assert(sf == s2 && reps == r1 + r2);
        if s1.phase == Phase::Finished {
            law_finished_is_final(s1, inputs.last());
            assert(reps =~= r1);
        } else {
            law_one_final_report(s1, inputs.last());
            assert forall|k: int|
                0 <= k < reps.len() && (k < reps.len() - 1 || sf.phase != Phase::Finished) implies
                #[trigger] reps[k].status == TransferStatus::Downloading by {
                if k < r1.len() {
                    assert(reps[k] == r1[k]);
                } else {
                    assert(reps[k] == r2[k - r1.len()]);
                }
            }
            if sf.phase == Phase::Finished {
                assert(reps.last() == r2[0]);
            }
        }
    }
}

/// A report with exactly these fields (used to state the laws below field by field).
pub open spec fn report_with(
    status: TransferStatus,
    downloaded: u64,
    total: u64,
    error: Option<Seq<char>>,
    save_path: Option<Seq<char>>,
) -> ReportView {
    ReportView { status, downloaded_size: downloaded, total_size: total, error, save_path }
}

/// A span is longer than `limit` seconds exactly when, counted in nanoseconds, it exceeds
/// `limit` times a billion (for a span whose sub-second part is below one second).
pub proof fn law_longer_than_counts_nanoseconds(e: Elapsed, limit: u64)
    requires
        e.nanos < 1_000_000_000,
    ensures
        longer_than(e, limit) <==> e.secs * 1_000_000_000 + e.nanos > limit * 1_000_000_000,
{
    if e.secs > limit {
        assert(e.secs * 1_000_000_000 >= (limit + 1) * 1_000_000_000) by (nonlinear_arith)
            requires e.secs > limit;
    } else if e.secs < limit {
        assert(e.secs * 1_000_000_000 + 1_000_000_000 <= limit * 1_000_000_000) by (nonlinear_arith)
            requires e.secs < limit;
    }
}

/// Two hours after the start, a running download is over whatever it downloaded so far:
/// one failed report "下载超时（2小时）" with the sizes known then, and stop. Before
/// that, the clock changes nothing and publishes nothing.
pub proof fn law_two_hour_limit(s: TrackerView, since_start: Elapsed)
    requires
        s.phase == Phase::Running,
    ensures
        since_start.secs > 7200 || (since_start.secs == 7200 && since_start.nanos > 0) ==> {
            let (ns, reps, act) = transition(s, TransferInput::Clock { since_start });
            &&& act == TrackerAction::Stop
            &&& reps == seq![
                report_with(
                    TransferStatus::Failed,
                    s.downloaded_size,
                    s.total_size,
                    Some("下载超时（2小时）"@),
                    None,
                ),
            ]
            &&& ns.phase == Phase::Finished
            &&& ns.downloaded_size == s.downloaded_size
            &&& ns.total_size == s.total_size
        },
        since_start.secs < 7200 || (since_start.secs == 7200 && since_start.nanos == 0) ==> transition(
            s,
            TransferInput::Clock { since_start },
        ) == (s, Seq::<ReportView>::empty(), TrackerAction::Continue),
{
}

/// While nothing arrives: a running download with nothing downloaded fails after more
/// than 60 seconds ("连接超时…", zero downloaded); any running download fails after
/// more than 300 seconds ("下载停滞超时…", with what it downloaded); otherwise it goes on
/// unchanged and silent.
pub proof fn law_quiet_limits(s: TrackerView, since_progress: Elapsed)
    requires
        s.phase == Phase::Running,
    ensures
        ({
            let (ns, reps, act) = transition(s, TransferInput::Quiet { since_progress });
            let over60 = since_progress.secs > 60 || (since_progress.secs == 60 && since_progress.nanos > 0);
            let over300 = since_progress.secs > 300 || (since_progress.secs == 300 && since_progress.nanos
                > 0);
            &&& (s.downloaded_size == 0 && over60) ==> act == TrackerAction::Stop && ns.phase
                == Phase::Finished && reps == seq![
                report_with(
                    TransferStatus::Failed,
                    0,
                    s.total_size,
                    Some("连接超时（60秒无响应），对方节点可能离线或网络不通"@),
                    None,
                ),
            ]
            &&& (s.downloaded_size != 0 && over300) ==> act == TrackerAction::Stop && ns.phase
                == Phase::Finished && reps == seq![
                report_with(
                    TransferStatus::Failed,
                    s.downloaded_size,
                    s.total_size,
                    Some("下载停滞超时（5分钟无进度）"@),
                    None,
                ),
            ]
            &&& !over60 || (s.downloaded_size != 0 && !over300) ==> ns == s && reps.len() == 0 && act
                == TrackerAction::Continue
        }),
{
}

/// How each progress event moves a running download, stated field by field: what is
/// published, what the sizes become, and that it goes on (or, on an abort, stops; on
/// everything having arrived, asks for the export).
pub proof fn law_progress_events(
    s: TrackerView,
    size: u64,
    offset: u64,
    children: u64,
    reason: String,
    bytes_read: u64,
)
    requires
        s.phase == Phase::Running,
    ensures
        ({
            let d = s.downloaded_size;
            let t = s.total_size;
            let connected = transition(s, TransferInput::Event(DownloadEvent::Connected));
            let found = transition(s, TransferInput::Event(DownloadEvent::Found { size }));
            let progress = transition(s, TransferInput::Event(DownloadEvent::Progress { offset }));
            let seq_found = transition(s, TransferInput::Event(DownloadEvent::FoundHashSeq { children }));
            let local = transition(s, TransferInput::Event(DownloadEvent::FoundLocal));
            let done = transition(s, TransferInput::Event(DownloadEvent::Done));
            let abort = transition(s, TransferInput::Event(DownloadEvent::Abort { reason }));
            let all = transition(s, TransferInput::Event(DownloadEvent::AllDone { bytes_read }));
            &&& connected == (s, seq![report_with(TransferStatus::Downloading, 0, t, None, None)], TrackerAction::Continue)
            &&& found.0.total_size == size && found.0.downloaded_size == d && found.0.phase == Phase::Running
            &&& found.1 == seq![report_with(TransferStatus::Downloading, 0, size, None, None)]
            &&& found.2 == TrackerAction::Continue
            &&& progress.0.downloaded_size == offset && progress.0.total_size == t && progress.0.phase == Phase::Running
            &&& progress.1 == seq![report_with(TransferStatus::Downloading, offset, t, None, None)]
            &&& progress.2 == TrackerAction::Continue
            &&& seq_found.0.total_size >= s.expected_size && seq_found.0.total_size >= children
            &&& (seq_found.0.total_size == s.expected_size || seq_found.0.total_size == children)
            &&& seq_found.0.downloaded_size == d && seq_found.0.phase == Phase::Running
            &&& seq_found.1 == seq![report_with(TransferStatus::Downloading, d, seq_found.0.total_size, None, None)]
            &&& seq_found.2 == TrackerAction::Continue
            &&& local == (s, seq![report_with(TransferStatus::Downloading, t, t, None, None)], TrackerAction::Continue)
            &&& done.0.downloaded_size == t && done.0.total_size == t && done.0.phase == Phase::Running
            &&& done.1 == seq![report_with(TransferStatus::Downloading, t, t, None, None)]
            &&& done.2 == TrackerAction::Continue
            &&& abort.0.phase == Phase::Finished && abort.2 == TrackerAction::Stop
            &&& abort.1 == seq![report_with(TransferStatus::Failed, d, t, Some("下载中止: "@ + reason@), None)]
            &&& all.0.downloaded_size == bytes_read && all.0.total_size == t && all.0.phase == Phase::Exporting
            &&& all.1.len() == 0 && all.2 == TrackerAction::Export
        }),
{
}

/// The transfer's initial state: when it says it is connected, the sizes known before are
/// published first; then the current blob's size (where given) becomes the total, its
/// progress (an offset; everything when done; unchanged when pending) the downloaded
/// size, and both are published.
pub proof fn law_initial_state(s: TrackerView, connected: bool, current: Option<BlobSnapshot>)
    requires
        s.phase == Phase::Running,
    ensures
        ({
            let (ns, reps, act) = transition(
                s,
                TransferInput::Event(DownloadEvent::InitialState { connected, current }),
            );
            let nt = match current {
                Some(b) => match b.size {
                    Some(z) => z,
                    None => s.total_size,
                },
                None => s.total_size,
            };
            let nd = match current {
                Some(b) => match b.stage {
                    BlobStage::Progressing(o) => o,
                    BlobStage::Done => nt,
                    BlobStage::Pending => s.downloaded_size,
                },
                None => s.downloaded_size,
            };
            &&& act == TrackerAction::Continue
            &&& ns.phase == Phase::Running && ns.total_size == nt && ns.downloaded_size == nd
            &&& reps.len() == (if connected { 2int } else { 1int })
            &&& connected ==> reps[0] == report_with(
                TransferStatus::Downloading,
                s.downloaded_size,
                s.total_size,
                None,
                None,
            )
            &&& reps.last() == report_with(TransferStatus::Downloading, nd, nt, None, None)
        }),
{
}

/// The end of the stream: an error of the stream fails the download reporting nothing
/// downloaded, with its rendered error after "下载出错: "; an end without everything
/// having arrived fails it with "下载意外结束" and the sizes known then.
pub proof fn law_stream_failures(s: TrackerView, reason: String)
    requires
        s.phase == Phase::Running,
    ensures
        transition(s, TransferInput::StreamError { reason }).1 == seq![
            report_with(TransferStatus::Failed, 0, s.total_size, Some("下载出错: "@ + reason@), None),
        ],
        transition(s, TransferInput::StreamError { reason }).2 == TrackerAction::Stop,
        transition(s, TransferInput::StreamEnded).1 == seq![
            report_with(
                TransferStatus::Failed,
                s.downloaded_size,
                s.total_size,
                Some("下载意外结束"@),
                None,
            ),
        ],
        transition(s, TransferInput::StreamEnded).2 == TrackerAction::Stop,
        transition(s, TransferInput::StreamEnded).0.phase == Phase::Finished,
{
}

/// The end of an export: a file that was written is always reported completed, with the
/// path written and the sizes known then, whatever those sizes are; an export that could
/// not start or could not write is reported failed with its rendered error after
/// "导出失败: " or "导出写入失败: "; either way the download is over.
pub proof fn law_export_outcomes(s: TrackerView, outcome: ExportOutcome)
    requires
        s.phase == Phase::Exporting,
    ensures
        ({
            let (ns, reps, act) = transition(s, TransferInput::Exported(outcome));
            &&& act == TrackerAction::Stop
            &&& ns.phase == Phase::Finished
            &&& ns.downloaded_size == s.downloaded_size && ns.total_size == s.total_size
            &&& reps.len() == 1
            &&& (reps[0].status == TransferStatus::Completed <==> outcome is Saved)
            &&& match outcome {
                ExportOutcome::Saved(path) => reps[0] == report_with(
                    TransferStatus::Completed,
                    s.downloaded_size,
                    s.total_size,
                    None,
                    Some(path@),
                ),
                ExportOutcome::StartFailed(x) => reps[0] == report_with(
                    TransferStatus::Failed,
                    s.downloaded_size,
                    s.total_size,
                    Some("导出失败: "@ + x@),
                    None,
                ),
                ExportOutcome::WriteFailed(x) => reps[0] == report_with(
                    TransferStatus::Failed,
                    s.downloaded_size,
                    s.total_size,
                    Some("导出写入失败: "@ + x@),
                    None,
                ),
            }
        }),
{
}

/// While the export runs, anything else observed changes nothing and publishes nothing;
/// the tracker keeps waiting for the export.
pub proof fn law_export_waits(s: TrackerView, input: TransferInput)
    requires
        s.phase == Phase::Exporting,
        !(input is Exported),
    ensures
        transition(s, input) == (s, Seq::<ReportView>::empty(), TrackerAction::Export),
{
}

/// The size used before the blob's own is known is the announced size when there is
/// one, and 1 when none was announced.
pub proof fn law_effective_size(total_size: u64)
    ensures
        total_size > 0 ==> effective_size(total_size) == total_size,
        total_size == 0 ==> effective_size(total_size) == 1,
{
}

/// The words each status is published as.
pub proof fn law_status_words()
    ensures
        status_word(TransferStatus::Connecting) == "connecting"@,
        status_word(TransferStatus::Downloading) == "downloading"@,
        status_word(TransferStatus::Completed) == "completed"@,
        status_word(TransferStatus::Failed) == "failed"@,
        status_word(TransferStatus::Idle) == "idle"@,
{
}

} // verus!
