use iroh_base::hash::BlobFormat;
use iroh_base::key::SecretKey;
use iroh_base::node_addr::{NodeAddr, RelayUrl};
use iroh_base::ticket::BlobTicket;
use iroh_transfer::ticket::{
    export_kind_for, parse_failure_message, parse_ticket, ticket_text, BlobKind, ExportKind, TicketFields,
};

fn sample_ticket(format: BlobFormat) -> BlobTicket {
    let relay: RelayUrl = "https://relay.example.org".parse().unwrap();
    let node = NodeAddr::from_parts(
        SecretKey::from_bytes(&[7u8; 32]).public(),
        Some(relay),
        ["192.168.1.7:4433".parse().unwrap(), "[::1]:9000".parse().unwrap()],
    );
    BlobTicket::new(node, iroh_base::hash::Hash::new(b"hello iroh"), format).unwrap()
}

fn fields_of(t: &BlobTicket, kind: BlobKind) -> TicketFields {
    TicketFields {
        node_id: t.node_addr().node_id.as_bytes().to_vec(),
        relay_url: t.node_addr().relay_url().map(|u| u.to_string()),
        direct_addresses: t.node_addr().direct_addresses().map(|a| a.to_string()).collect(),
        hash: t.hash().as_bytes().to_vec(),
        kind,
    }
}

#[test]
fn plain_ticket_parses() {
    let t = sample_ticket(BlobFormat::Raw);
    let text = t.to_string();
    assert!(text.starts_with("blob"));
    let f = parse_ticket(&text).unwrap();
    assert_eq!(f, fields_of(&t, BlobKind::Raw));
    assert_eq!(f.relay_url.as_deref(), Some("https://relay.example.org./"));
    assert_eq!(f.direct_addresses, vec!["192.168.1.7:4433".to_string(), "[::1]:9000".to_string()]);
    assert_eq!(f.node_id.len(), 32);
    assert_eq!(f.hash, iroh_base::hash::Hash::new(b"hello iroh").as_bytes().to_vec());
}

#[test]
fn link_ticket_parses_after_last_bar() {
    let t = sample_ticket(BlobFormat::HashSeq);
    let text = format!("iroh://photo.png|1234|{}", t);
    let f = parse_ticket(&text).unwrap();
    assert_eq!(f, fields_of(&t, BlobKind::HashSeq));
    assert_eq!(Ok(f), parse_ticket(&t.to_string()));
}

#[test]
fn ticket_text_extraction() {
    assert_eq!(ticket_text("iroh://name|size|blobabc"), "blobabc");
    assert_eq!(ticket_text("iroh://no-bar"), "iroh://no-bar");
    assert_eq!(ticket_text("blobabc"), "blobabc");
    assert_eq!(ticket_text("x|blobabc"), "x|blobabc");
    assert_eq!(ticket_text("iroh://a|"), "");
}

#[test]
fn wrong_kind_is_refused() {
    let err = parse_ticket("nodeabcdef").unwrap_err();
    assert_eq!(err, "解析ticket失败: wrong prefix, expected blob");
}

#[test]
fn corrupt_ticket_is_refused() {
    let err = parse_ticket("blob!!!!").unwrap_err();
    assert!(err.starts_with("解析ticket失败: decoding failed"));
    assert!(parse_ticket("iroh://a|blobzz").is_err());
}

#[test]
fn failure_message_prefix() {
    assert_eq!(parse_failure_message("bad"), "解析ticket失败: bad");
}

#[test]
fn export_kinds() {
    assert_eq!(export_kind_for(BlobKind::HashSeq), ExportKind::Collection);
    assert_eq!(export_kind_for(BlobKind::Raw), ExportKind::Blob);
}
