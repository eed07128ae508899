use capture_core::bus::{
    publish_outcome, stream_action, Delivery, EventBus, PublishOutcome, StreamAction,
    EVENT_BUS_CAPACITY,
};
use capture_core::capture::{CaptureState, RawEvent};
use capture_core::event::{CapturedEvent, EventKind};
use capture_core::service::{baseline_event, MyCaptureService};
use capture_core::system_info::{NetworkInfo, ProcessorInfo, SystemInfo, SystemInfoCore};
use capture_core::telemetry::TelemetryMonitor;

fn text(value: &str) -> String {
    value.to_string()
}

fn event(details: &str) -> CapturedEvent {
    CapturedEvent::new(EventKind::KeyPress, text("t"), text(details))
}

fn details_of(action: StreamAction) -> String {
    match action {
        StreamAction::Yield(event) => event.details,
        other => panic!("expected an event, got {:?}", other),
    }
}

fn snapshot(memory_mb: u64) -> SystemInfo {
    SystemInfo {
        system_info: SystemInfoCore {
            directx_version: text("DirectX 12"),
            os_version: text("10.0"),
            real_os: text("Windows"),
            memory_mb,
            physical_model: text("model"),
            machine_signature: text("{id}"),
            user: text("user"),
            monitor_start_time: text("now"),
        },
        pci_devices: vec![],
        drives: vec![],
        network_info: NetworkInfo { local_ip: text("Unknown"), public_ip: text("Unknown") },
        video_cards: vec![],
        monitors: vec![],
        usb_input_devices: vec![],
        processor_info: ProcessorInfo { cpu_model: text(""), cpu_cores: 0 },
    }
}

#[test]
fn publishing_to_nobody_is_no_fault() {
    let mut bus = EventBus::new();
    for i in 0..(2 * EVENT_BUS_CAPACITY) {
        assert!(matches!(bus.publish(event(&i.to_string())), PublishOutcome::NoSubscribers));
    }
}

#[test]
fn publishing_reports_the_number_of_subscribers() {
    let mut bus = EventBus::new();
    let _first = bus.subscribe();
    assert!(matches!(bus.publish(event("a")), PublishOutcome::Delivered(1)));
    let _second = bus.subscribe();
    assert!(matches!(bus.publish(event("b")), PublishOutcome::Delivered(2)));
    drop(_first);
    drop(_second);
    assert!(matches!(bus.publish(event("c")), PublishOutcome::NoSubscribers));
}

#[test]
fn subscriber_sees_only_what_is_published_after_it_joined() {
    let mut bus = EventBus::new();
    let mut early = bus.subscribe();
    for i in 0..5 {
        bus.publish(event(&format!("old{}", i)));
    }
    let mut late = bus.subscribe();
    assert!(matches!(late.poll(), StreamAction::Wait));
    bus.publish(event("new0"));
    bus.publish(event("new1"));
    assert_eq!(details_of(late.poll()), "new0");
    assert_eq!(details_of(late.poll()), "new1");
    assert!(matches!(late.poll(), StreamAction::Wait));
    for i in 0..5 {
        assert_eq!(details_of(early.poll()), format!("old{}", i));
    }
    assert_eq!(details_of(early.poll()), "new0");
    assert_eq!(details_of(early.poll()), "new1");
    assert!(matches!(early.poll(), StreamAction::Wait));
}

#[test]
fn every_subscriber_sees_the_events_in_publish_order() {
    let mut bus = EventBus::new();
    let mut subscribers = vec![bus.subscribe(), bus.subscribe(), bus.subscribe()];
    for i in 0..100 {
        bus.publish(event(&i.to_string()));
    }
    for subscriber in subscribers.iter_mut() {
        for i in 0..100 {
            assert_eq!(details_of(subscriber.poll()), i.to_string());
        }
        assert!(matches!(subscriber.poll(), StreamAction::Wait));
    }
}

#[test]
fn subscriber_that_falls_behind_skips_to_what_is_retained() {
    let mut bus = EventBus::with_capacity(4);
    let mut slow = bus.subscribe();
    for i in 0..10 {
        bus.publish(event(&i.to_string()));
    }
    assert!(matches!(slow.poll(), StreamAction::Skip));
    assert_eq!(details_of(slow.poll()), "6");
    assert_eq!(details_of(slow.poll()), "7");
    assert_eq!(details_of(slow.poll()), "8");
    assert_eq!(details_of(slow.poll()), "9");
    assert!(matches!(slow.poll(), StreamAction::Wait));
}

#[test]
fn standard_bus_retains_its_capacity() {
    let mut bus = EventBus::new();
    let mut subscriber = bus.subscribe();
    for i in 0..EVENT_BUS_CAPACITY {
        bus.publish(event(&i.to_string()));
    }
    assert_eq!(details_of(subscriber.poll()), "0");
    let mut behind = bus.subscribe();
    for i in 0..(EVENT_BUS_CAPACITY + 1) {
        bus.publish(event(&i.to_string()));
    }
    assert!(matches!(behind.poll(), StreamAction::Skip));
    assert_eq!(details_of(behind.poll()), "1");
}

#[test]
fn stream_ends_without_error_when_the_bus_is_torn_down() {
    let mut bus = EventBus::new();
    let mut subscriber = bus.subscribe();
    bus.publish(event("last"));
    drop(bus);
    assert_eq!(details_of(subscriber.poll()), "last");
    assert!(matches!(subscriber.poll(), StreamAction::End));
    assert!(matches!(subscriber.poll(), StreamAction::End));
}

#[test]
fn outcomes_follow_the_result_of_the_send() {
    assert!(matches!(publish_outcome(Ok(3)), PublishOutcome::Delivered(3)));
    assert!(matches!(publish_outcome(Err(event("x"))), PublishOutcome::NoSubscribers));
}

#[test]
fn stream_actions_follow_the_delivery() {
    assert_eq!(details_of(stream_action(Delivery::Event(event("e")))), "e");
    assert!(matches!(stream_action(Delivery::Lagged(7)), StreamAction::Skip));
    assert!(matches!(stream_action(Delivery::Empty), StreamAction::Wait));
    assert!(matches!(stream_action(Delivery::Closed), StreamAction::End));
}

#[test]
fn handles_publish_to_the_same_bus() {
    let mut first = EventBus::new();
    let mut second = first.handle();
    let mut subscriber = second.subscribe();
    first.publish(event("from first"));
    second.publish(event("from second"));
    drop(first);
    assert_eq!(details_of(subscriber.poll()), "from first");
    assert_eq!(details_of(subscriber.poll()), "from second");
    assert!(matches!(subscriber.poll(), StreamAction::Wait));
    drop(second);
    assert!(matches!(subscriber.poll(), StreamAction::End));
}

#[test]
fn receiver_of_a_subscription_can_be_taken_out() {
    let mut bus = EventBus::new();
    let subscription = bus.subscribe();
    bus.publish(event("direct"));
    let mut receiver = subscription.into_receiver();
    assert_eq!(receiver.try_recv().unwrap().details, "direct");
}

#[test]
fn captured_input_reaches_the_subscribers() {
    let mut bus = EventBus::new();
    let mut subscriber = bus.subscribe();
    let mut state = CaptureState::new();
    let key = RawEvent::KeyPress(text("A"));
    assert!(matches!(state.capture(&mut bus, true, &key, 0), Some(PublishOutcome::Delivered(1))));
    assert!(state.capture(&mut bus, true, &key, 1).is_none());
    assert!(state.capture(&mut bus, false, &RawEvent::KeyRelease(text("A")), 2).is_none());
    assert!(state.capture(&mut bus, true, &RawEvent::KeyRelease(text("A")), 3).is_some());
    match subscriber.poll() {
        StreamAction::Yield(event) => {
            assert_eq!(event.name, EventKind::KeyPress);
            assert_eq!(event.details, "A");
            assert_eq!(event.timestamp.len(), 23);
            assert_eq!(&event.timestamp[4..5], "-");
            assert_eq!(&event.timestamp[10..11], " ");
            assert_eq!(&event.timestamp[19..20], ".");
        }
        other => panic!("expected an event, got {:?}", other),
    }
    match subscriber.poll() {
        StreamAction::Yield(event) => assert_eq!(event.name, EventKind::KeyRelease),
        other => panic!("expected an event, got {:?}", other),
    }
    assert!(matches!(subscriber.poll(), StreamAction::Wait));
}

#[test]
fn stopped_capture_publishes_nothing() {
    let mut service = MyCaptureService::new(EventBus::new());
    let mut subscriber = service.stream_events();
    service.start();
    service.stop();
    let mut state = CaptureState::new();
    let mut bus = service.broadcaster();
    let inputs = [
        RawEvent::KeyPress(text("A")),
        RawEvent::KeyRelease(text("A")),
        RawEvent::MouseMove { x: text("1"), y: text("2") },
        RawEvent::Wheel { delta_x: 1, delta_y: 1 },
    ];
    for (i, input) in inputs.iter().enumerate() {
        let capturing = service.is_capturing();
        assert!(state.capture(&mut bus, capturing, input, i as u64).is_none());
    }
    assert!(matches!(subscriber.poll(), StreamAction::Wait));
}

#[test]
fn first_event_after_start_is_the_baseline() {
    let mut service = MyCaptureService::new(EventBus::new());
    let reply = service.start();
    assert!(reply.publish_baseline);
    let mut subscriber = service.stream_events();
    let published = service.publish_baseline(Ok(snapshot(4096)), text("{\"memory_mb\": 4096}"));
    assert!(matches!(published, Some(PublishOutcome::Delivered(1))));
    let mut state = CaptureState::new();
    let mut bus = service.broadcaster();
    state.capture(&mut bus, service.is_capturing(), &RawEvent::KeyPress(text("A")), 0);
    match subscriber.poll() {
        StreamAction::Yield(event) => {
            assert_eq!(event.name, EventKind::SystemInfo);
            assert_eq!(event.name.name(), "SystemInfo");
            assert_eq!(event.details, "{\"memory_mb\": 4096}");
        }
        other => panic!("expected the baseline, got {:?}", other),
    }
    assert_eq!(details_of(subscriber.poll()), "A");
    assert_eq!(service.system_info().unwrap().system_info.memory_mb, 4096);
}

#[test]
fn failed_baseline_publishes_nothing() {
    let mut service = MyCaptureService::new(EventBus::new());
    service.start();
    let mut subscriber = service.stream_events();
    assert!(service.publish_baseline(Err(text("no wmic")), text("")).is_none());
    assert!(service.system_info().is_none());
    assert!(matches!(subscriber.poll(), StreamAction::Wait));
    assert!(service.is_capturing());
}

#[test]
fn baseline_without_subscribers_is_still_retained() {
    let mut service = MyCaptureService::new(EventBus::new());
    service.start();
    let published = service.publish_baseline(Ok(snapshot(1)), text("details"));
    assert!(matches!(published, Some(PublishOutcome::NoSubscribers)));
    assert_eq!(service.system_info().unwrap().system_info.memory_mb, 1);
}

#[test]
fn baseline_event_carries_the_formatted_snapshot() {
    let event = baseline_event(text("2024-01-01 00:00:00.000"), text("{}"));
    assert_eq!(event.name, EventKind::SystemInfo);
    assert_eq!(event.timestamp, "2024-01-01 00:00:00.000");
    assert_eq!(event.details, "{}");
}

#[test]
fn telemetry_changes_reach_the_subscribers() {
    let mut bus = EventBus::new();
    let mut subscriber = bus.subscribe();
    let mut monitor = TelemetryMonitor::new();
    assert!(monitor.observe_and_publish(&mut bus, Ok(snapshot(1024))).is_none());
    assert!(monitor.observe_and_publish(&mut bus, Ok(snapshot(1024))).is_none());
    assert!(monitor.observe_and_publish(&mut bus, Err(text("failed"))).is_none());
    assert!(matches!(
        monitor.observe_and_publish(&mut bus, Ok(snapshot(2048))),
        Some(PublishOutcome::Delivered(1))
    ));
    match subscriber.poll() {
        StreamAction::Yield(event) => {
            assert_eq!(event.name, EventKind::SystemInfoChange);
            assert_eq!(event.details, "Memory changed: 1024 MB -> 2048 MB");
        }
        other => panic!("expected a change event, got {:?}", other),
    }
    assert!(matches!(subscriber.poll(), StreamAction::Wait));
}

#[test]
fn start_and_stop_are_idempotent() {
    let mut service = MyCaptureService::new(EventBus::new());
    assert!(!service.is_capturing());
    let reply = service.stop();
    assert_eq!(reply.message, "Stopped");
    assert!(!reply.publish_baseline);
    assert!(!service.is_capturing());
    let reply = service.start();
    assert_eq!(reply.message, "Started");
    assert!(reply.publish_baseline);
    assert!(service.is_capturing());
    let reply = service.start();
    assert_eq!(reply.message, "Started");
    assert!(reply.publish_baseline);
    assert!(service.is_capturing());
    service.stop();
    service.stop();
    assert!(!service.is_capturing());
}

#[test]
fn subscriptions_outlive_a_stop() {
    let mut service = MyCaptureService::new(EventBus::new());
    service.start();
    let mut subscriber = service.stream_events();
    service.stop();
    service.start();
    service.publish_baseline(Ok(snapshot(1)), text("again"));
    assert_eq!(details_of(subscriber.poll()), "again");
}

#[test]
fn handles_and_subscriptions_of_one_bus_share_its_channel() {
    let bus = EventBus::with_capacity(8);
    let service = MyCaptureService::new(bus.handle());
    let direct = bus.subscribe().into_receiver();
    let through_handle = bus.handle().subscribe().into_receiver();
    let through_service = service.stream_events().into_receiver();
    let through_broadcaster = service.broadcaster().subscribe().into_receiver();
    assert!(direct.same_channel(&through_handle));
    assert!(direct.same_channel(&through_service));
    assert!(direct.same_channel(&through_broadcaster));
    let elsewhere = EventBus::with_capacity(8).subscribe().into_receiver();
    assert!(!direct.same_channel(&elsewhere));
}

#[test]
fn subscription_stays_on_its_bus_after_a_lag() {
    let mut bus = EventBus::with_capacity(2);
    let mut slow = bus.subscribe();
    for i in 0..5 {
        bus.publish(event(&i.to_string()));
    }
    assert!(matches!(slow.poll(), StreamAction::Skip));
    assert_eq!(details_of(slow.poll()), "3");
    assert_eq!(details_of(slow.poll()), "4");
    bus.publish(event("after"));
    assert_eq!(details_of(slow.poll()), "after");
    assert!(matches!(slow.poll(), StreamAction::Wait));
    let fresh = bus.subscribe().into_receiver();
    assert!(slow.into_receiver().same_channel(&fresh));
}
