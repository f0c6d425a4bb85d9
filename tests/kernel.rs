use brio_kernel::host::HostKernel;
use brio_kernel::registry::ProviderRegistry;
use brio_kernel::router::Route;
use brio_kernel::session::SessionError;
use brio_kernel::store::StoreOp;
use brio_kernel::ws::{BroadcastMessage, WsPatch};

#[test]
fn kernel_routes_sessions_store_and_broadcast() {
    let mut k: HostKernel<u32, ()> = HostKernel::new(ProviderRegistry::new());
    k.register_component("A".to_string(), 1);
    k.register_component("B".to_string(), 2);
    match k.route_call("B", None) {
        Ok(Route::Local(e)) => assert_eq!(*e, 2),
        _ => panic!("B is registered"),
    }
    assert!(k.route_call("C", None).is_err());

    let id = k.begin_session("/ws".to_string()).unwrap();
    assert_eq!(k.commit_session(id.clone()), Ok(()));
    assert_eq!(
        k.commit_session(id.clone()),
        Err(SessionError::UnknownSession(id))
    );

    let store = k.get_store("comp");
    assert_eq!(
        store.prepare(StoreOp::Read { key: "x".to_string() }),
        Ok(StoreOp::Read { key: "comp:x".to_string() })
    );

    let patch = WsPatch {
        path: "/p".to_string(),
        content: "{}".to_string(),
    };
    assert!(k.broadcast_patch(patch.clone()).is_ok());
    let mut rx = k.subscribe();
    assert_eq!(k.broadcaster().client_count(), 1);
    assert!(k.broadcast_patch(patch.clone()).is_ok());
    assert_eq!(rx.try_recv(), Ok(Some(BroadcastMessage::Patch(patch))));
    drop(rx);
    assert_eq!(k.broadcaster().client_count(), 0);

    k.register_provider("extra".to_string(), ());
    assert_eq!(k.inference_by_name("extra"), Some(&()));
    assert_eq!(k.inference(), None);
    k.set_default_provider("extra".to_string());
    assert_eq!(k.inference(), Some(&()));
}
