use iroh_transfer::download::{
    effective_total_size, exceeds, status_label, BlobSnapshot, BlobStage, DownloadEvent, DownloadTracker, Elapsed, ExportOutcome,
    Phase, ProgressReport, TrackerAction, TransferInput, TransferStatus,
};

fn downloading(d: u64, t: u64) -> ProgressReport {
    ProgressReport { status: TransferStatus::Downloading, downloaded_size: d, total_size: t, error: None, save_path: None }
}

fn failed(msg: &str, d: u64, t: u64) -> ProgressReport {
    ProgressReport {
        status: TransferStatus::Failed,
        downloaded_size: d,
        total_size: t,
        error: Some(msg.to_string()),
        save_path: None,
    }
}

fn secs(s: u64) -> Elapsed {
    Elapsed { secs: s, nanos: 0 }
}

#[test]
fn unknown_size_counts_as_one() {
    assert_eq!(effective_total_size(0), 1);
    assert_eq!(effective_total_size(4096), 4096);
    let t = DownloadTracker::new(0);
    assert_eq!(t.total_size(), 1);
    assert_eq!(
        t.connecting_report(),
        ProgressReport { status: TransferStatus::Connecting, downloaded_size: 0, total_size: 1, error: None, save_path: None }
    );
}

#[test]
fn full_download_then_export() {
    let mut t = DownloadTracker::new(1000);
    let s = t.step(TransferInput::Clock { since_start: secs(1) });
    assert_eq!(s.reports, vec![]);
    assert_eq!(s.action, TrackerAction::Continue);

    let s = t.step(TransferInput::Event(DownloadEvent::Connected));
    assert_eq!(s.reports, vec![downloading(0, 1000)]);

    let s = t.step(TransferInput::Event(DownloadEvent::Found { size: 2048 }));
    assert_eq!(s.reports, vec![downloading(0, 2048)]);

    let s = t.step(TransferInput::Event(DownloadEvent::Progress { offset: 512 }));
    assert_eq!(s.reports, vec![downloading(512, 2048)]);

    let s = t.step(TransferInput::Event(DownloadEvent::Done));
    assert_eq!(s.reports, vec![downloading(2048, 2048)]);

    let s = t.step(TransferInput::Event(DownloadEvent::AllDone { bytes_read: 2100 }));
    assert_eq!(s.reports, vec![]);
    assert_eq!(s.action, TrackerAction::Export);
    assert_eq!(t.phase(), Phase::Exporting);

    let s = t.step(TransferInput::Exported(ExportOutcome::Saved("/d/f.bin".to_string())));
    assert_eq!(
        s.reports,
        vec![ProgressReport {
            status: TransferStatus::Completed,
            downloaded_size: 2100,
            total_size: 2048,
            error: None,
            save_path: Some("/d/f.bin".to_string()),
        }]
    );
    assert_eq!(s.action, TrackerAction::Stop);
    assert_eq!(t.phase(), Phase::Finished);

    let s = t.step(TransferInput::Event(DownloadEvent::Progress { offset: 1 }));
    assert_eq!(s.reports, vec![]);
    assert_eq!(s.action, TrackerAction::Stop);
}

#[test]
fn initial_state_reports() {
    let mut t = DownloadTracker::new(100);
    let s = t.step(TransferInput::Event(DownloadEvent::InitialState {
        connected: true,
        current: Some(BlobSnapshot { size: Some(300), stage: BlobStage::Progressing(120) }),
    }));
    assert_eq!(s.reports, vec![downloading(0, 100), downloading(120, 300)]);

    let s = t.step(TransferInput::Event(DownloadEvent::InitialState {
        connected: false,
        current: Some(BlobSnapshot { size: None, stage: BlobStage::Done }),
    }));
    assert_eq!(s.reports, vec![downloading(300, 300)]);

    let s = t.step(TransferInput::Event(DownloadEvent::InitialState { connected: false, current: None }));
    assert_eq!(s.reports, vec![downloading(300, 300)]);
}

#[test]
fn hash_seq_and_local_blob() {
    let mut t = DownloadTracker::new(50);
    let s = t.step(TransferInput::Event(DownloadEvent::FoundHashSeq { children: 3 }));
    assert_eq!(s.reports, vec![downloading(0, 50)]);
    let s = t.step(TransferInput::Event(DownloadEvent::FoundHashSeq { children: 70 }));
    assert_eq!(s.reports, vec![downloading(0, 70)]);
    let s = t.step(TransferInput::Event(DownloadEvent::FoundLocal));
    assert_eq!(s.reports, vec![downloading(70, 70)]);
    assert_eq!(t.downloaded_size(), 0);
}

#[test]
fn abort_fails() {
    let mut t = DownloadTracker::new(10);
    t.step(TransferInput::Event(DownloadEvent::Progress { offset: 4 }));
    let s = t.step(TransferInput::Event(DownloadEvent::Abort { reason: "peer closed".to_string() }));
    assert_eq!(s.reports, vec![failed("下载中止: peer closed", 4, 10)]);
    assert_eq!(s.action, TrackerAction::Stop);
}

#[test]
fn stream_error_and_end() {
    let mut t = DownloadTracker::new(10);
    t.step(TransferInput::Event(DownloadEvent::Progress { offset: 4 }));
    let s = t.step(TransferInput::StreamError { reason: "rpc".to_string() });
    assert_eq!(s.reports, vec![failed("下载出错: rpc", 0, 10)]);

    let mut t = DownloadTracker::new(10);
    t.step(TransferInput::Event(DownloadEvent::Progress { offset: 4 }));
    let s = t.step(TransferInput::StreamEnded);
    assert_eq!(s.reports, vec![failed("下载意外结束", 4, 10)]);
}

#[test]
fn overall_timeout() {
    let mut t = DownloadTracker::new(10);
    let s = t.step(TransferInput::Clock { since_start: secs(7200) });
    assert_eq!(s.action, TrackerAction::Continue);
    let s = t.step(TransferInput::Clock { since_start: Elapsed { secs: 7200, nanos: 1 } });
    assert_eq!(s.reports, vec![failed("下载超时（2小时）", 0, 10)]);
    assert_eq!(s.action, TrackerAction::Stop);
}

#[test]
fn quiet_periods() {
    let mut t = DownloadTracker::new(10);
    let s = t.step(TransferInput::Quiet { since_progress: secs(45) });
    assert_eq!(s.action, TrackerAction::Continue);
    let s = t.step(TransferInput::Quiet { since_progress: secs(61) });
    assert_eq!(s.reports, vec![failed("连接超时（60秒无响应），对方节点可能离线或网络不通", 0, 10)]);

    let mut t = DownloadTracker::new(10);
    t.step(TransferInput::Event(DownloadEvent::Progress { offset: 4 }));
    let s = t.step(TransferInput::Quiet { since_progress: secs(200) });
    assert_eq!(s.action, TrackerAction::Continue);
    let s = t.step(TransferInput::Quiet { since_progress: secs(301) });
    assert_eq!(s.reports, vec![failed("下载停滞超时（5分钟无进度）", 4, 10)]);
}

#[test]
fn export_failures() {
    let mut t = DownloadTracker::new(10);
    t.step(TransferInput::Event(DownloadEvent::AllDone { bytes_read: 10 }));
    let s = t.step(TransferInput::StreamEnded);
    assert_eq!(s.action, TrackerAction::Export);
    let s = t.step(TransferInput::Exported(ExportOutcome::StartFailed("no space".to_string())));
    assert_eq!(s.reports, vec![failed("导出失败: no space", 10, 10)]);

    let mut t = DownloadTracker::new(10);
    t.step(TransferInput::Event(DownloadEvent::AllDone { bytes_read: 9 }));
    let s = t.step(TransferInput::Exported(ExportOutcome::WriteFailed("denied".to_string())));
    assert_eq!(s.reports, vec![failed("导出写入失败: denied", 9, 10)]);
}

#[test]
fn elapsed_comparison() {
    assert!(!exceeds(secs(60), 60));
    assert!(exceeds(Elapsed { secs: 60, nanos: 1 }, 60));
    assert!(exceeds(secs(61), 60));
}

#[test]
fn status_words() {
    assert_eq!(status_label(TransferStatus::Connecting), "connecting");
    assert_eq!(status_label(TransferStatus::Downloading), "downloading");
    assert_eq!(status_label(TransferStatus::Completed), "completed");
    assert_eq!(status_label(TransferStatus::Failed), "failed");
    assert_eq!(status_label(TransferStatus::Idle), "idle");
}
