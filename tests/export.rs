use pingmon::export::{
    authorization, export_succeeded, prepare_export, write_url, ACCEPT, CONTENT_TYPE, MEASUREMENT,
};
use pingmon::record::{batch_to_line, NodeType, SHop};

fn hop(seq: u64, host: &str, ip: &str, timeout: bool, rtt: u64, node_type: NodeType) -> SHop {
    SHop {
        rtt,
        seq,
        host: host.to_string(),
        ip: ip.to_string(),
        timeout,
        final_dest: "8.8.8.8".to_string(),
        node_type,
        time: 1_700_000_000_000_000_000,
    }
}

#[test]
fn line_protocol_of_fixed_record() {
    let h = hop(2, "gw.local", "10.0.0.1", false, 12_345_000, NodeType::Relay);
    assert_eq!(
        h.to_line_protocol_v2("pingmon"),
        "pingmon,seq=2,host=\"gw.local\",ip=\"10.0.0.1\",timeout=false,final_dest=\"8.8.8.8\",node_type=\"Relay\" rtt=12345000 1700000000000000000"
    );
}

#[test]
fn line_protocol_of_timeout_record() {
    let h = hop(7, "", "", true, 0, NodeType::Relay);
    assert_eq!(
        h.to_line_protocol_v2("m"),
        "m,seq=7,host=\"\",ip=\"\",timeout=true,final_dest=\"8.8.8.8\",node_type=\"Relay\" rtt=0 1700000000000000000"
    );
}

#[test]
fn node_type_names() {
    assert_eq!(NodeType::DefaultGateway.as_str(), "DefaultGateway");
    assert_eq!(NodeType::Relay.as_str(), "Relay");
    assert_eq!(NodeType::Destination.as_str(), "Destination");
}

#[test]
fn batch_lines_are_newline_joined() {
    let a = hop(1, "gw", "192.168.0.1", false, 1000, NodeType::DefaultGateway);
    let b = hop(2, "dns.google", "8.8.8.8", false, 2000, NodeType::Destination);
    let text = batch_to_line(vec![a.clone(), b.clone()], "pingmon");
    assert_eq!(text, format!("{}\n{}", a.to_line_protocol_v2("pingmon"), b.to_line_protocol_v2("pingmon")));
    assert_eq!(text.lines().count(), 2);
    assert!(text.ends_with("node_type=\"Destination\" rtt=2000 1700000000000000000"));
}

#[test]
fn batch_of_one_and_of_none() {
    let a = hop(1, "gw", "192.168.0.1", false, 1000, NodeType::DefaultGateway);
    assert_eq!(batch_to_line(vec![a.clone()], "pingmon"), a.to_line_protocol_v2("pingmon"));
    assert_eq!(batch_to_line(Vec::new(), "pingmon"), "");
}

#[test]
fn write_url_and_authorization() {
    assert_eq!(
        write_url("http://localhost:8086", "none", "pingmon"),
        "http://localhost:8086/api/v2/write?org=none&bucket=pingmon&precision=ns"
    );
    assert_eq!(authorization("abc"), "Token abc");
    assert_eq!(CONTENT_TYPE, "text/plain; charset=utf-8");
    assert_eq!(ACCEPT, "application/json");
    assert_eq!(MEASUREMENT, "pingmon");
}

#[test]
fn prepare_export_of_batch() {
    let a = hop(1, "gw", "192.168.0.1", false, 1000, NodeType::DefaultGateway);
    let q = prepare_export("key", "http://db:8086", "org", "bkt", vec![a.clone()]).unwrap();
    assert_eq!(q.destination, "8.8.8.8");
    assert_eq!(q.url, "http://db:8086/api/v2/write?org=org&bucket=bkt&precision=ns");
    assert_eq!(q.authorization, "Token key");
    assert_eq!(q.body, a.to_line_protocol_v2("pingmon"));
}

#[test]
fn prepare_export_of_empty_batch_is_none() {
    assert!(prepare_export("key", "http://db:8086", "org", "bkt", Vec::new()).is_none());
}

#[test]
fn export_status_codes() {
    assert!(export_succeeded(200));
    assert!(export_succeeded(204));
    assert!(!export_succeeded(201));
    assert!(!export_succeeded(400));
    assert!(!export_succeeded(500));
}
