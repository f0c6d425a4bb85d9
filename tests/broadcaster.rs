use brio_kernel::ws::{BroadcastMessage, Broadcaster, RecvEvent, WsError, WsPatch};

fn patch(path: &str) -> WsPatch {
    WsPatch {
        path: path.to_string(),
        content: "[{\"op\":\"add\"}]".to_string(),
    }
}

#[test]
fn broadcaster_tracks_client_count() {
    let broadcaster = Broadcaster::new();
    assert_eq!(broadcaster.client_count(), 0);

    let _rx1 = broadcaster.subscribe();
    assert_eq!(broadcaster.client_count(), 1);

    let _rx2 = broadcaster.subscribe();
    assert_eq!(broadcaster.client_count(), 2);

    drop(_rx1);
    assert_eq!(broadcaster.client_count(), 1);
}

#[test]
fn broadcast_reaches_subscribers() {
    let mut broadcaster = Broadcaster::new();
    let mut rx = broadcaster.subscribe();

    broadcaster.broadcast(BroadcastMessage::Shutdown).unwrap();

    let msg = rx.try_recv().unwrap().unwrap();
    assert!(matches!(msg, BroadcastMessage::Shutdown));
}

#[test]
fn broadcast_with_no_subscribers_succeeds() {
    let mut broadcaster = Broadcaster::new();
    let result = broadcaster.broadcast(BroadcastMessage::Shutdown);
    assert!(result.is_ok());
}

#[test]
fn broadcaster_is_clone() {
    let broadcaster = Broadcaster::new();
    let cloned = broadcaster.clone();
    assert_eq!(broadcaster.client_count(), cloned.client_count());
}

#[test]
fn patch_delivered_exactly_to_subscriber() {
    let mut b = Broadcaster::new();
    let mut rx = b.subscribe();
    b.broadcast(BroadcastMessage::Patch(patch("/a"))).unwrap();
    assert_eq!(rx.try_recv(), Ok(Some(BroadcastMessage::Patch(patch("/a")))));
    assert_eq!(rx.try_recv(), Ok(None));
}

#[test]
fn two_subscribers_get_identical_copies() {
    let mut b = Broadcaster::new();
    let mut rx1 = b.subscribe();
    let mut rx2 = b.subscribe();
    assert_eq!(b.client_count(), 2);
    b.broadcast(BroadcastMessage::Patch(patch("/doc"))).unwrap();
    let m1 = rx1.try_recv().unwrap().unwrap();
    let m2 = rx2.try_recv().unwrap().unwrap();
    assert_eq!(m1, m2);
    assert_eq!(m1, BroadcastMessage::Patch(patch("/doc")));
    assert_eq!(b.client_count(), 2);
    drop(rx1);
    assert_eq!(b.client_count(), 1);
    drop(rx2);
    assert_eq!(b.client_count(), 0);
}

#[test]
fn clones_share_one_subscriber_count() {
    let b = Broadcaster::new();
    let mut c = b.clone();
    let rx = c.subscribe();
    assert_eq!(b.client_count(), 1);
    assert_eq!(c.client_count(), 1);
    let mut rx = rx;
    c.broadcast(BroadcastMessage::Shutdown).unwrap();
    assert_eq!(rx.try_recv(), Ok(Some(BroadcastMessage::Shutdown)));
    drop(rx);
    assert_eq!(b.client_count(), 0);
}

#[test]
fn receiver_dropped_inside_a_task_is_released() {
    let rt = tokio::runtime::Builder::new_current_thread()
        .build()
        .unwrap();
    let b = Broadcaster::new();
    let rx = b.subscribe();
    assert_eq!(b.client_count(), 1);
    rt.block_on(async move {
        let task = tokio::spawn(async move {
            let _held = rx;
            std::future::pending::<()>().await;
        });
        tokio::task::yield_now().await;
        task.abort();
        let _ = task.await;
    });
    assert_eq!(b.client_count(), 0);
}

#[test]
fn resolve_absorbs_one_lag_and_reads_on() {
    let mut b = Broadcaster::new();
    let mut rx = b.subscribe();
    let r = rx.resolve(
        RecvEvent::Lagged(3),
        Some(RecvEvent::Message(BroadcastMessage::Shutdown)),
    );
    assert_eq!(r, Ok(Some(BroadcastMessage::Shutdown)));
    assert_eq!(rx.skipped_count(), 3);
    assert_eq!(rx.resolve(RecvEvent::Closed, None), Err(WsError::ChannelClosed));
    assert_eq!(
        rx.resolve(RecvEvent::Empty, Some(RecvEvent::Message(BroadcastMessage::Shutdown))),
        Ok(None)
    );
    assert_eq!(rx.resolve(RecvEvent::Lagged(u64::MAX), None), Ok(None));
    assert_eq!(rx.skipped_count(), u64::MAX);
    b.broadcast(BroadcastMessage::Shutdown).unwrap();
}

#[test]
fn lagging_subscriber_skips_oldest_and_goes_on() {
    let mut b = Broadcaster::new();
    let mut slow = b.subscribe();
    for i in 0..300 {
        b.broadcast(BroadcastMessage::Patch(patch(&format!("/{}", i))))
            .unwrap();
    }
    let first = slow.try_recv().unwrap().unwrap();
    assert_eq!(first, BroadcastMessage::Patch(patch("/44")));
    assert_eq!(slow.skipped_count(), 44);
    let next = slow.try_recv().unwrap().unwrap();
    assert_eq!(next, BroadcastMessage::Patch(patch("/45")));
}

#[test]
fn receiver_reports_closed_channel() {
    let mut b = Broadcaster::new();
    let mut rx = b.subscribe();
    drop(b);
    assert_eq!(rx.try_recv(), Err(WsError::ChannelClosed));
}
