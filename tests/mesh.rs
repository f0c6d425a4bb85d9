use brio_kernel::host::HostKernel;
use brio_kernel::mesh::{call_outcome, remote_outcome, Delivery, MeshError, MeshMessage, Payload};
use brio_kernel::router::{MeshRouter, Route};
use brio_kernel::types::{NodeAddress, NodeId, NodeInfo};
use tokio::sync::mpsc;

fn node(caps: &[&str]) -> NodeInfo {
    NodeInfo {
        id: NodeId::from("n2".to_string()),
        address: NodeAddress("10.0.0.2:50051".to_string()),
        capabilities: caps.iter().map(|c| c.to_string()).collect(),
        last_seen: 10,
    }
}

#[test]
fn component_call_gets_reply_from_target() {
    let rt = tokio::runtime::Builder::new_current_thread()
        .build()
        .unwrap();
    rt.block_on(async {
        let mut kernel: HostKernel<mpsc::Sender<MeshMessage>, ()> = HostKernel::new(
            brio_kernel::registry::ProviderRegistry::new(),
        );
        let (a_tx, _a_rx) = mpsc::channel::<MeshMessage>(8);
        let (b_tx, mut b_rx) = mpsc::channel::<MeshMessage>(8);
        kernel.register_component("A".to_string(), a_tx);
        kernel.register_component("B".to_string(), b_tx);

        let b = tokio::spawn(async move {
            let msg = b_rx.recv().await.unwrap();
            assert_eq!(msg.target, "B");
            assert_eq!(msg.method, "ping");
            assert_eq!(msg.payload, Payload::Json("hi".to_string()));
            assert!(msg.respond(Ok(Payload::Json("pong".to_string()))));
            assert!(b_rx.try_recv().is_err());
        });

        let (sender, msg, reply) = match kernel.prepare_call(
            "B",
            "ping",
            Payload::Json("hi".to_string()),
        ) {
            Ok((s, m, r)) => (s.clone(), m, r),
            Err(e) => panic!("B is registered: {:?}", e),
        };
        assert!(sender.send(msg).await.is_ok());
        let delivery = match reply.await {
            Ok(r) => Delivery::Replied(r),
            Err(_) => Delivery::Dropped,
        };
        let result = call_outcome("B".to_string(), delivery);
        assert_eq!(result, Ok(Payload::Json("pong".to_string())));
        b.await.unwrap();
    });
}

#[test]
fn dropped_reply_slot_is_an_error() {
    let rt = tokio::runtime::Builder::new_current_thread()
        .build()
        .unwrap();
    rt.block_on(async {
        let (msg, reply) = MeshMessage::new(
            "B".to_string(),
            "ping".to_string(),
            Payload::Binary(vec![1, 2]),
        );
        drop(msg);
        let delivery = match reply.await {
            Ok(r) => Delivery::Replied(r),
            Err(_) => Delivery::Dropped,
        };
        assert_eq!(
            call_outcome("B".to_string(), delivery),
            Err(MeshError::ReplyDropped("B".to_string()))
        );
    });
}

#[test]
fn respond_after_caller_left_reports_false() {
    let (msg, reply) = MeshMessage::new(
        "B".to_string(),
        "m".to_string(),
        Payload::Json("x".to_string()),
    );
    drop(reply);
    assert!(!msg.respond(Ok(Payload::Json("late".to_string()))));
}

#[test]
fn call_outcomes_for_each_delivery() {
    assert_eq!(
        call_outcome("T".to_string(), Delivery::Rejected),
        Err(MeshError::TargetUnavailable("T".to_string()))
    );
    assert_eq!(
        call_outcome("T".to_string(), Delivery::Replied(Err("boom".to_string()))),
        Err(MeshError::TargetFailed {
            target: "T".to_string(),
            message: "boom".to_string()
        })
    );
    assert_eq!(
        call_outcome("T".to_string(), Delivery::Replied(Ok(Payload::Binary(vec![7])))),
        Ok(Payload::Binary(vec![7]))
    );
    assert_eq!(
        remote_outcome("T".to_string(), Err("unreachable".to_string())),
        Err(MeshError::Transport {
            target: "T".to_string(),
            message: "unreachable".to_string()
        })
    );
    assert_eq!(
        remote_outcome("T".to_string(), Ok(Payload::Json("r".to_string()))),
        Ok(Payload::Json("r".to_string()))
    );
}

#[test]
fn call_to_unregistered_component_fails_at_once() {
    let kernel: HostKernel<mpsc::Sender<MeshMessage>, ()> =
        HostKernel::new(brio_kernel::registry::ProviderRegistry::new());
    match kernel.prepare_call("nobody", "ping", Payload::Json("hi".to_string())) {
        Err(e) => assert_eq!(e, MeshError::TargetNotFound("nobody".to_string())),
        Ok(_) => panic!("no component registered"),
    }
}

#[test]
fn unregistered_target_is_not_found() {
    let mut r: MeshRouter<u32> = MeshRouter::new();
    r.register("A".to_string(), 1);
    match r.route("missing", None) {
        Err(e) => assert_eq!(e, MeshError::TargetNotFound("missing".to_string())),
        Ok(_) => panic!("no route expected"),
    }
    match r.route("missing", Some(node(&["other"]))) {
        Err(e) => assert_eq!(e, MeshError::TargetNotFound("missing".to_string())),
        Ok(_) => panic!("peer does not serve the target"),
    }
}

#[test]
fn remote_peer_serving_target_is_chosen() {
    let r: MeshRouter<u32> = MeshRouter::new();
    match r.route("svc", Some(node(&["x", "svc"]))) {
        Ok(Route::Remote(n)) => assert_eq!(n.id, NodeId::from("n2".to_string())),
        _ => panic!("remote route expected"),
    }
}

#[test]
fn local_registration_wins_over_peer_and_last_registration_wins() {
    let mut r: MeshRouter<u32> = MeshRouter::new();
    r.register("svc".to_string(), 1);
    r.register("svc".to_string(), 2);
    assert_eq!(r.len(), 1);
    assert_eq!(r.lookup("svc"), Some(&2));
    match r.route("svc", Some(node(&["svc"]))) {
        Ok(Route::Local(e)) => assert_eq!(*e, 2),
        _ => panic!("local route expected"),
    }
}
