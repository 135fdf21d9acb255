use std::sync::{Arc, Mutex};

use dell_controller::advanced_color::{AdvancedColorEventSource, WatcherCoordinator};
use dell_controller::hdr::DisplayMonitorHandle;

type SnapshotCallback = Arc<dyn Fn() + Send + Sync>;

#[derive(Default)]
struct FakeSource {
    registered: Vec<DisplayMonitorHandle>,
    unregistered: Vec<DisplayMonitorHandle>,
    callback: Option<SnapshotCallback>,
    fail_on: Option<DisplayMonitorHandle>,
}

impl AdvancedColorEventSource for FakeSource {
    type Subscription = DisplayMonitorHandle;
    type Callback = SnapshotCallback;

    fn subscribe(
        &mut self,
        handle: DisplayMonitorHandle,
        callback: SnapshotCallback,
    ) -> Result<DisplayMonitorHandle, String> {
        if self.fail_on == Some(handle) {
            return Err("registration failed".into());
        }
        self.registered.push(handle);
        self.callback = Some(callback);
        Ok(handle)
    }

    fn unsubscribe(&mut self, subscription: DisplayMonitorHandle) {
        self.unregistered.push(subscription);
    }
}

#[test]
fn registration_is_replaced_only_when_the_monitor_changes() {
    let callback: SnapshotCallback = Arc::new(|| {});
    let mut coordinator = WatcherCoordinator::new(FakeSource::default(), callback);
    let first = DisplayMonitorHandle::new(1);
    let second = DisplayMonitorHandle::new(2);

    coordinator.update_target(Some(first)).unwrap();
    coordinator.update_target(Some(first)).unwrap();
    coordinator.update_target(Some(second)).unwrap();
    coordinator.update_target(None).unwrap();

    let source = coordinator.into_source();
    assert_eq!(source.registered, vec![first, second]);
    assert_eq!(source.unregistered, vec![first, second]);
}

#[test]
fn event_callback_requests_one_snapshot_per_callback() {
    let callback_count = Arc::new(Mutex::new(0_u32));
    let callback_count_for_event = callback_count.clone();
    let callback: SnapshotCallback = Arc::new(move || {
        *callback_count_for_event.lock().unwrap() += 1;
    });
    let mut coordinator = WatcherCoordinator::new(FakeSource::default(), callback);

    coordinator.update_target(Some(DisplayMonitorHandle::new(1))).unwrap();
    let callback = coordinator.source().callback.clone().unwrap();
    callback();
    callback();

    assert_eq!(*callback_count.lock().unwrap(), 2);
}

#[test]
fn failed_registration_leaves_no_monitor_watched() {
    let callback: SnapshotCallback = Arc::new(|| {});
    let second = DisplayMonitorHandle::new(2);
    let source = FakeSource {
        fail_on: Some(second),
        ..Default::default()
    };
    let mut coordinator = WatcherCoordinator::new(source, callback);

    coordinator.update_target(Some(DisplayMonitorHandle::new(1))).unwrap();
    assert!(coordinator.update_target(Some(second)).is_err());
    assert_eq!(coordinator.target(), None);

    let source = coordinator.into_source();
    assert_eq!(source.registered, vec![DisplayMonitorHandle::new(1)]);
    assert_eq!(source.unregistered, vec![DisplayMonitorHandle::new(1)]);
}
