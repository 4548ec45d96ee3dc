use iroh_transfer::download::TransferStatus;
use iroh_transfer::session::{rpc_lock_stale, Session, StartPlan};

#[test]
fn fresh_session_launches() {
    let s: Session<u32, String> = Session::new();
    assert!(matches!(s.start_plan(), StartPlan::Launch));
    assert_eq!(s.send_context(), Err("iroh节点未启动".to_string()));
    assert_eq!(s.download_status().status, TransferStatus::Idle);
    assert_eq!(s.node_id(), None);
}

#[test]
fn launch_then_send_then_stop() {
    let mut s: Session<u32, String> = Session::new();
    s.install(7, "client".to_string(), "nodeid".to_string());
    match s.start_plan() {
        StartPlan::Reuse(c) => assert_eq!(c, "client"),
        StartPlan::Launch => panic!("expected reuse"),
    }
    assert_eq!(s.send_context(), Ok(("client".to_string(), "nodeid".to_string())));
    assert_eq!(s.release_node(), Some(7));
    assert_eq!(s.send_context(), Err("iroh节点未启动".to_string()));
    assert_eq!(s.node_id(), Some("nodeid".to_string()));
    s.forget_node_id();
    assert_eq!(s.release_node(), None);
    assert_eq!(s.node_id(), None);
    assert_eq!(s.send_context(), Err("iroh节点未启动".to_string()));
}

#[test]
fn reused_client_records_id() {
    let mut s: Session<u32, String> = Session::new();
    s.install(1, "c".to_string(), "a".to_string());
    s.record_node_id("b".to_string());
    assert_eq!(s.node_id(), Some("b".to_string()));
}

#[test]
fn download_flag_is_sticky() {
    let mut s: Session<u32, String> = Session::new();
    assert_eq!(s.begin_download(), Err("iroh节点未启动".to_string()));
    let r = s.download_status();
    assert_eq!(r.status, TransferStatus::Downloading);
    assert_eq!((r.downloaded_size, r.total_size), (0, 0));
    s.install(1, "c".to_string(), "a".to_string());
    assert_eq!(s.begin_download(), Ok("c".to_string()));
    s.release_node();
    s.forget_node_id();
    assert_eq!(s.download_status().status, TransferStatus::Downloading);
}

#[test]
fn stale_lock_messages() {
    assert!(rpc_lock_stale("iroh is already running at this path"));
    assert!(rpc_lock_stale("failed to acquire rpc.lock"));
    assert!(!rpc_lock_stale("address already in use"));
}
