use iroh_transfer::deps::{choose_iroh_path, dependency_report, install_guide, IrohProbe, TargetOs};
use iroh_transfer::send::{send_receipt, sent_file_name};

#[test]
fn guides() {
    assert_eq!(install_guide(TargetOs::MacOs, true), "在终端运行: cargo install iroh-cli");
    assert_eq!(install_guide(TargetOs::Windows, true), "在终端运行: cargo install iroh-cli");
    assert_eq!(
        install_guide(TargetOs::Windows, false),
        "1. 安装Rust: 访问 https://rustup.rs 下载安装\n2. 安装iroh: cargo install iroh-cli"
    );
    assert!(install_guide(TargetOs::Other, false).ends_with("sudo apt install build-essential pkg-config libssl-dev"));
    assert!(install_guide(TargetOs::MacOs, false).starts_with("1. 安装Rust: curl"));
}

#[test]
fn report_fields() {
    let r = dependency_report(Some("/bin/iroh".to_string()), Some(" iroh 0.28.1\n".to_string()), false, TargetOs::Other);
    assert!(r.iroh_found);
    assert_eq!(r.iroh_path, "/bin/iroh");
    assert_eq!(r.iroh_version, "iroh 0.28.1");
    assert!(!r.cargo_found);
    assert_eq!(r.install_guide, install_guide(TargetOs::Other, false));
    let r = dependency_report(None, None, true, TargetOs::MacOs);
    assert!(!r.iroh_found);
    assert_eq!(r.iroh_path, "");
    assert_eq!(r.iroh_version, "");
}

#[test]
fn first_existing_candidate_wins() {
    let probes = vec![
        IrohProbe::Candidate { path: "/env/iroh".to_string(), exists: false },
        IrohProbe::Candidate { path: "/app/binaries/iroh".to_string(), exists: true },
        IrohProbe::Candidate { path: "/home/u/.cargo/bin/iroh".to_string(), exists: true },
    ];
    assert_eq!(choose_iroh_path(&probes), Ok("/app/binaries/iroh".to_string()));
}

#[test]
fn lookup_output_is_trimmed() {
    let probes = vec![
        IrohProbe::Candidate { path: "/env/iroh".to_string(), exists: false },
        IrohProbe::LookupRan { success: true, stdout: "/usr/bin/iroh\n".to_string() },
    ];
    assert_eq!(choose_iroh_path(&probes), Ok("/usr/bin/iroh".to_string()));
}

#[test]
fn lookup_failures() {
    let probes = vec![IrohProbe::LookupRan { success: true, stdout: "  \n".to_string() }];
    assert_eq!(choose_iroh_path(&probes), Err("未找到iroh，请先安装: cargo install iroh-cli".to_string()));
    let probes = vec![IrohProbe::LookupRan { success: false, stdout: "/x".to_string() }];
    assert_eq!(choose_iroh_path(&probes), Err("未找到iroh，请先安装: cargo install iroh-cli".to_string()));
    let probes = vec![IrohProbe::LookupFailed { reason: "No such file".to_string() }];
    assert_eq!(choose_iroh_path(&probes), Err("查找iroh失败: No such file".to_string()));
    assert_eq!(choose_iroh_path(&vec![]), Err("未找到iroh，请先安装: cargo install iroh-cli".to_string()));
}

#[test]
fn announced_file_names() {
    assert_eq!(sent_file_name("/home/u/photo.png"), "photo.png");
    assert_eq!(sent_file_name("/"), "downloaded");
    assert_eq!(sent_file_name("/a/.."), "downloaded");
    let r = send_receipt("/x/y.txt", "nid".to_string(), "hash".to_string(), "blobT".to_string(), 42);
    assert_eq!(r.file_name, "y.txt");
    assert_eq!(r.node_id, "nid");
    assert_eq!(r.blob_id, "hash");
    assert_eq!(r.ticket, "blobT");
    assert_eq!(r.file_size, 42);
}
