use brio_kernel::mesh;
use brio_kernel::service_mesh::{call, from_kernel_payload, to_kernel_payload, Payload};
use brio_kernel::sql_state::{execute, query};
use brio_kernel::types::{NodeAddress, NodeId, NodeInfo};

#[test]
fn sql_stubs_succeed_with_nothing() {
    let rows = query("SELECT 1", &["a".to_string()]).unwrap();
    assert!(rows.is_empty());
    assert_eq!(execute("DELETE FROM t", &[]), Ok(0));
}

#[test]
fn mesh_stub_reports_acceptance() {
    match call("B", "ping", Payload::Binary(vec![1])) {
        Ok(Payload::Json(s)) => assert_eq!(s, r#"{"status":"accepted"}"#),
        other => panic!("unexpected {:?}", other),
    }
}

#[test]
fn payload_conversions_keep_contents() {
    match to_kernel_payload(Payload::Json("j".to_string())) {
        mesh::Payload::Json(s) => assert_eq!(s, "j"),
        _ => panic!(),
    }
    match from_kernel_payload(mesh::Payload::Binary(vec![3, 4])) {
        Payload::Binary(b) => assert_eq!(b, vec![3, 4]),
        _ => panic!(),
    }
}

#[test]
fn node_ids_are_random_uuids() {
    let a = NodeId::new();
    let b = NodeId::new();
    assert_eq!(a.0.len(), 36);
    assert_ne!(a, b);
    assert_eq!(NodeId::from("n1".to_string()).to_string(), "n1");
    assert_eq!(NodeAddress("h:1".to_string()).to_string(), "h:1");
}

#[test]
fn node_staleness_and_capabilities() {
    let n = NodeInfo {
        id: NodeId::from("n".to_string()),
        address: NodeAddress("h:1".to_string()),
        capabilities: vec!["a".to_string(), "b".to_string()],
        last_seen: 100,
    };
    assert!(n.serves("b"));
    assert!(!n.serves("c"));
    assert!(!n.is_stale(130, 30));
    assert!(n.is_stale(131, 30));
    assert!(!n.is_stale(50, 0));
}
