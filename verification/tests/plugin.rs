use slot_broadcaster::broadcaster::{
    shutdown_result, within_deadline, BindError, Broadcaster, ShutdownError,
};
use slot_broadcaster::channel::{delivery_channel, SendError};
use slot_broadcaster::message::{SlotMessage, SlotStatus};
use slot_broadcaster::plugin::{
    plugin_name, status_update_result, Plugin, PluginInner, SlotStatusUpdateError, NOT_LOADED,
    SHUTDOWN_TIMEOUT_SECS,
};
use solana_time_utils::timestamp;
use tokio::runtime::{Builder, Runtime};
use tokio::sync::mpsc::error::{TryRecvError, TrySendError};
use tokio::sync::mpsc::Receiver;
use tokio_util::sync::CancellationToken;

fn runtime() -> Runtime {
    Builder::new_current_thread().build().unwrap()
}

fn loaded(capacity: usize) -> (PluginInner, Receiver<SlotMessage>, CancellationToken) {
    let runtime = runtime();
    let (sender, receiver) = delivery_channel(capacity).unwrap();
    let token = CancellationToken::new();
    let handle = runtime.spawn(std::future::ready(Ok(())));
    let service = Broadcaster::new(handle, token.clone());
    (PluginInner::new(runtime, sender, service, token.clone()), receiver, token)
}

fn record(slot: u64) -> SlotMessage {
    SlotMessage::new(slot, None, &SlotStatus::Processed, 10 + slot)
}

#[test]
fn no_queue_for_no_record() {
    assert!(delivery_channel(0).is_none());
}

#[test]
fn no_queue_beyond_the_largest_capacity() {
    assert!(delivery_channel(usize::MAX).is_none());
    assert!(delivery_channel(usize::MAX / 8 + 1).is_none());
    assert!(delivery_channel(usize::MAX / 8).is_some());
}

#[test]
fn queue_has_the_capacity_asked_for() {
    let (sender, _receiver) = delivery_channel(3).unwrap();
    assert_eq!(sender.max_capacity(), 3);
    assert_eq!(sender.capacity(), 3);
}

#[test]
fn send_message_queues_in_order() {
    let (inner, mut receiver, _token) = loaded(4);
    for slot in 1..=4 {
        assert!(inner.send_message(record(slot)).is_ok());
    }
    for slot in 1..=4 {
        assert_eq!(receiver.try_recv(), Ok(record(slot)));
    }
    assert_eq!(receiver.try_recv(), Err(TryRecvError::Empty));
}

#[test]
fn full_queue_hands_the_record_back_at_once() {
    let (inner, mut receiver, _token) = loaded(1);
    assert!(inner.send_message(record(1)).is_ok());
    match inner.send_message(record(2)) {
        Err(SendError::Full(back)) => assert_eq!(back, record(2)),
        other => panic!("unexpected result {:?}", other),
    }
    assert_eq!(receiver.try_recv(), Ok(record(1)));
    assert_eq!(receiver.try_recv(), Err(TryRecvError::Empty));
    assert!(inner.send_message(record(3)).is_ok());
    assert_eq!(receiver.try_recv(), Ok(record(3)));
}

#[test]
fn closed_queue_hands_the_record_back() {
    let (inner, receiver, _token) = loaded(2);
    drop(receiver);
    match inner.send_message(record(1)) {
        Err(SendError::Closed(back)) => assert_eq!(back, record(1)),
        other => panic!("unexpected result {:?}", other),
    }
}

#[test]
fn send_errors_read_as_those_of_the_channel() {
    assert_eq!(SendError::Full(record(1)).message(), "no available capacity");
    assert_eq!(SendError::Closed(record(1)).message(), "channel closed");
    assert_eq!(SendError::Full(record(1)).message(), TrySendError::Full(()).to_string());
    assert_eq!(SendError::Closed(record(1)).message(), TrySendError::Closed(()).to_string());
    assert_eq!(SendError::Full(record(1)).into_inner(), record(1));
    assert_eq!(SendError::Closed(record(2)).into_inner(), record(2));
}

#[test]
fn status_update_result_tells_why() {
    assert_eq!(status_update_result(Ok(())), Ok(()));
    assert_eq!(
        status_update_result(Err(SendError::Full(record(1)))),
        Err(SlotStatusUpdateError { msg: "no available capacity".to_string() })
    );
    assert_eq!(
        status_update_result(Err(SendError::Closed(record(1)))),
        Err(SlotStatusUpdateError { msg: "channel closed".to_string() })
    );
}

#[test]
fn plugin_starts_unloaded() {
    let mut plugin = Plugin::default();
    assert!(!plugin.loaded());
    assert!(plugin.unload().is_none());
    assert!(!plugin.loaded());
}

#[test]
fn plugin_is_loaded_until_unloaded() {
    let (inner, _receiver, _token) = loaded(1);
    let mut plugin = Plugin::default();
    plugin.load(inner);
    assert!(plugin.loaded());
    assert!(plugin.unload().is_some());
    assert!(!plugin.loaded());
    assert!(plugin.unload().is_none());
}

#[test]
fn update_slot_status_queues_the_record() {
    let (inner, mut receiver, _token) = loaded(2);
    let mut plugin = Plugin::default();
    plugin.load(inner);

    let before = timestamp();
    let status = SlotStatus::Dead("bad".to_string());
    assert_eq!(plugin.update_slot_status(12, Some(11), &status), Ok(()));
    let after = timestamp();

    let queued = receiver.try_recv().unwrap();
    assert_eq!(queued, SlotMessage::new(12, Some(11), &status, queued.created_at));
    assert!(before <= queued.created_at && queued.created_at <= after);
    assert_eq!(receiver.try_recv(), Err(TryRecvError::Empty));
}

#[test]
fn update_slot_status_does_not_wait_for_room() {
    let (inner, mut receiver, _token) = loaded(1);
    let mut plugin = Plugin::default();
    plugin.load(inner);

    assert_eq!(plugin.update_slot_status(1, None, &SlotStatus::Processed), Ok(()));
    assert_eq!(
        plugin.update_slot_status(2, Some(1), &SlotStatus::Processed),
        Err(SlotStatusUpdateError { msg: "no available capacity".to_string() })
    );
    assert_eq!(receiver.try_recv().map(|message| message.slot), Ok(1));
    assert_eq!(receiver.try_recv(), Err(TryRecvError::Empty));

    drop(receiver);
    assert_eq!(
        plugin.update_slot_status(3, Some(2), &SlotStatus::Processed),
        Err(SlotStatusUpdateError { msg: "channel closed".to_string() })
    );
}

#[test]
fn unloaded_plugin_refuses_a_notification_at_once() {
    assert_eq!(NOT_LOADED, "plugin is not loaded");
    let plugin = Plugin::default();
    assert_eq!(
        plugin.update_slot_status(1, None, &SlotStatus::Processed),
        Err(SlotStatusUpdateError { msg: "plugin is not loaded".to_string() })
    );
    assert!(!plugin.loaded());
}

#[test]
fn plugin_refuses_notifications_after_it_is_unloaded() {
    let (inner, mut receiver, _token) = loaded(2);
    let mut plugin = Plugin::default();
    plugin.load(inner);
    assert_eq!(plugin.update_slot_status(1, None, &SlotStatus::Processed), Ok(()));
    let held = plugin.unload();
    assert_eq!(
        plugin.update_slot_status(2, Some(1), &SlotStatus::Dead("late".to_string())),
        Err(SlotStatusUpdateError { msg: "plugin is not loaded".to_string() })
    );
    assert!(!plugin.loaded());
    assert_eq!(receiver.try_recv().map(|message| message.slot), Ok(1));
    assert_eq!(receiver.try_recv(), Err(TryRecvError::Empty));
    drop(held);
}

#[test]
fn queue_keeps_the_capacity_it_was_made_for() {
    for capacity in [1, 2, 7, 1024] {
        let (sender, receiver) = delivery_channel(capacity).unwrap();
        assert_eq!(sender.max_capacity(), capacity);
        assert_eq!(receiver.max_capacity(), capacity);
        sender.try_send(record(1)).unwrap();
        assert_eq!(sender.max_capacity(), capacity);
    }
}

#[test]
fn plugin_asks_for_slot_status_only() {
    let plugin = Plugin::default();
    assert!(!plugin.account_data_notifications_enabled());
    assert!(!plugin.account_data_snapshot_notifications_enabled());
    assert!(!plugin.transaction_notifications_enabled());
    assert!(!plugin.entry_notifications_enabled());
}

#[test]
fn plugin_name_joins_package_version_and_revision() {
    assert_eq!(plugin_name("broadcaster", "1.2.3", "abc123"), "broadcaster-1.2.3+abc123");
    assert_eq!(plugin_name("", "", ""), "-+");
}

#[test]
fn unloading_waits_thirty_seconds() {
    assert_eq!(SHUTDOWN_TIMEOUT_SECS, 30);
}

#[test]
fn plugin_shutdown_sets_the_stop_signal() {
    let (inner, _receiver, token) = loaded(1);
    assert!(!token.is_cancelled());
    let (runtime, service, sender) = inner.begin_shutdown();
    assert!(token.is_cancelled());
    assert!(!sender.is_closed());
    let joined = runtime.block_on(service.begin_shutdown());
    assert!(matches!(joined, Ok(Ok(()))));
}

#[test]
fn broadcaster_shutdown_sets_the_stop_signal_and_hands_out_the_task() {
    let runtime = runtime();
    let token = CancellationToken::new();
    let handle = runtime.spawn(std::future::ready(Err(anyhow::Error::msg("socket lost"))));
    let service = Broadcaster::new(handle, token.clone());
    assert!(!token.is_cancelled());
    let handle = service.begin_shutdown();
    assert!(token.is_cancelled());
    let joined = runtime.block_on(handle).unwrap();
    assert_eq!(joined.unwrap_err().to_string(), "socket lost");
}

#[test]
fn shutdown_result_tells_how_the_task_ended() {
    assert_eq!(shutdown_result(Ok(Ok(()))), Ok(()));
    assert_eq!(
        shutdown_result(Ok(Err("socket lost".to_string()))),
        Err(ShutdownError::Task("socket lost".to_string()))
    );
    assert_eq!(
        shutdown_result(Err("task panicked".to_string())),
        Err(ShutdownError::Join("task panicked".to_string()))
    );
}

#[test]
fn shutdown_past_the_deadline_is_a_timeout() {
    assert_eq!(within_deadline(None), Err(ShutdownError::Timeout));
    assert_eq!(within_deadline(Some(Ok(()))), Ok(()));
    assert_eq!(
        within_deadline(Some(Err(ShutdownError::Task("x".to_string())))),
        Err(ShutdownError::Task("x".to_string()))
    );
}

#[test]
fn shutdown_errors_describe_themselves() {
    assert_eq!(ShutdownError::Timeout.message(), "shutdown timed out");
    assert_eq!(ShutdownError::Task("socket lost".to_string()).message(), "socket lost");
    assert_eq!(ShutdownError::Join("task panicked".to_string()).message(), "task panicked");
}

#[test]
fn bind_error_names_the_address() {
    let error = BindError { address: "127.0.0.1:8000".to_string() };
    assert_eq!(error.message(), "failed to bind to address 127.0.0.1:8000");
}
