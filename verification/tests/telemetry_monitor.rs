use capture_core::event::EventKind;
use capture_core::system_info::{
    DriveInfo, Monitor, NetworkInfo, PciDevice, ProcessorInfo, SystemInfo, SystemInfoCore,
    UsbDevice, VideoCard,
};
use capture_core::telemetry::{
    compare_system_info, TelemetryMonitor, TickAction, TELEMETRY_INTERVAL_SECS,
};

fn text(value: &str) -> String {
    value.to_string()
}

fn snapshot() -> SystemInfo {
    SystemInfo {
        system_info: SystemInfoCore {
            directx_version: text("DirectX 12"),
            os_version: text("10.0.19045"),
            real_os: text("Microsoft Windows 10 Pro"),
            memory_mb: 16384,
            physical_model: text("Dell Inc. XPS 15 ABC123"),
            machine_signature: text("{4C4C4544-0000}"),
            user: text("host\\user"),
            monitor_start_time: text("2024-01-01T00:00:00+00:00"),
        },
        pci_devices: vec![PciDevice { id: text("8086-1234"), device_type: text("unknown") }],
        drives: vec![DriveInfo { serial: text("S1") }],
        network_info: NetworkInfo { local_ip: text("192.168.1.10"), public_ip: text("1.2.3.4") },
        video_cards: vec![VideoCard { name: text("GPU"), driver_version: text("1.0") }],
        monitors: vec![Monitor { name: text("Generic PnP Monitor"), serial: text("Unknown") }],
        usb_input_devices: vec![UsbDevice {
            name: text("USB Device"),
            vendor_id: text("046D"),
            product_id: text("C52B"),
        }],
        processor_info: ProcessorInfo { cpu_model: text("Intel"), cpu_cores: 8 },
    }
}

#[test]
fn equal_snapshots_have_an_empty_diff() {
    assert_eq!(compare_system_info(&snapshot(), &snapshot()), "");
}

#[test]
fn fields_that_are_not_compared_do_not_show() {
    let old = snapshot();
    let mut new = snapshot();
    new.system_info.real_os = text("Other");
    new.system_info.physical_model = text("Other");
    new.system_info.machine_signature = text("Other");
    new.system_info.user = text("Other");
    new.system_info.monitor_start_time = text("Other");
    new.drives.push(DriveInfo { serial: text("S2") });
    new.processor_info.cpu_cores = 16;
    new.pci_devices[0].id = text("10DE-0001");
    new.monitors[0].serial = text("SN");
    assert_eq!(compare_system_info(&old, &new), "");
}

#[test]
fn memory_change_alone_gives_the_memory_line() {
    let old = snapshot();
    let mut new = snapshot();
    new.system_info.memory_mb = 32768;
    assert_eq!(compare_system_info(&old, &new), "Memory changed: 16384 MB -> 32768 MB");
}

#[test]
fn each_compared_field_has_its_line() {
    let old = snapshot();

    let mut new = snapshot();
    new.system_info.directx_version = text("DirectX 11");
    assert_eq!(
        compare_system_info(&old, &new),
        "DirectX version changed: DirectX 12 -> DirectX 11"
    );

    let mut new = snapshot();
    new.system_info.os_version = text("10.0.22631");
    assert_eq!(compare_system_info(&old, &new), "OS version changed: 10.0.19045 -> 10.0.22631");

    let mut new = snapshot();
    new.network_info.local_ip = text("10.0.0.2");
    assert_eq!(compare_system_info(&old, &new), "Local IP changed: 192.168.1.10 -> 10.0.0.2");

    let mut new = snapshot();
    new.network_info.public_ip = text("Unknown");
    assert_eq!(compare_system_info(&old, &new), "Public IP changed: 1.2.3.4 -> Unknown");

    let mut new = snapshot();
    new.usb_input_devices.clear();
    assert_eq!(compare_system_info(&old, &new), "USB devices count changed: 1 -> 0");

    let mut new = snapshot();
    new.monitors.push(Monitor { name: text("Second"), serial: text("Unknown") });
    assert_eq!(compare_system_info(&old, &new), "Monitor count changed: 1 -> 2");

    let mut new = snapshot();
    new.video_cards.clear();
    assert_eq!(compare_system_info(&old, &new), "Video cards count changed: 1 -> 0");

    let mut new = snapshot();
    for i in 0..11 {
        new.pci_devices.push(PciDevice { id: i.to_string(), device_type: text("unknown") });
    }
    assert_eq!(compare_system_info(&old, &new), "PCI devices count changed: 1 -> 12");
}

#[test]
fn several_changes_are_joined_by_newlines_in_field_order() {
    let old = snapshot();
    let mut new = snapshot();
    new.pci_devices.clear();
    new.network_info.public_ip = text("5.6.7.8");
    new.system_info.memory_mb = 8192;
    new.system_info.directx_version = text("DirectX 11");
    assert_eq!(
        compare_system_info(&old, &new),
        "DirectX version changed: DirectX 12 -> DirectX 11\n\
         Memory changed: 16384 MB -> 8192 MB\n\
         Public IP changed: 1.2.3.4 -> 5.6.7.8\n\
         PCI devices count changed: 1 -> 0"
    );
}

#[test]
fn first_snapshot_is_retained_without_an_event() {
    let mut monitor = TelemetryMonitor::new();
    assert!(monitor.last().is_none());
    assert!(monitor.observe(Ok(snapshot()), text("t0")).is_none());
    assert_eq!(monitor.last().unwrap().system_info.memory_mb, 16384);
}

#[test]
fn unchanged_snapshot_gives_no_event() {
    let mut monitor = TelemetryMonitor::new();
    assert!(monitor.observe(Ok(snapshot()), text("t0")).is_none());
    assert!(monitor.observe(Ok(snapshot()), text("t1")).is_none());
}

#[test]
fn changed_snapshot_gives_a_change_event_and_is_retained() {
    let mut monitor = TelemetryMonitor::new();
    assert!(monitor.observe(Ok(snapshot()), text("t0")).is_none());
    let mut changed = snapshot();
    changed.system_info.memory_mb = 32768;
    let event = monitor.observe(Ok(changed), text("2024-01-01 10:00:05.000")).unwrap();
    assert_eq!(event.name, EventKind::SystemInfoChange);
    assert_eq!(event.timestamp, "2024-01-01 10:00:05.000");
    assert_eq!(event.details, "Memory changed: 16384 MB -> 32768 MB");
    assert_eq!(monitor.last().unwrap().system_info.memory_mb, 32768);
    let mut same = snapshot();
    same.system_info.memory_mb = 32768;
    assert!(monitor.observe(Ok(same), text("t2")).is_none());
}

#[test]
fn failed_collection_keeps_the_retained_snapshot() {
    let mut monitor = TelemetryMonitor::new();
    assert!(monitor.observe(Err(text("wmic not found")), text("t0")).is_none());
    assert!(monitor.last().is_none());
    assert!(monitor.observe(Ok(snapshot()), text("t1")).is_none());
    assert!(monitor.observe(Err(text("wmic not found")), text("t2")).is_none());
    assert_eq!(monitor.last().unwrap().system_info.memory_mb, 16384);
    let mut changed = snapshot();
    changed.network_info.local_ip = text("10.0.0.2");
    let event = monitor.observe(Ok(changed), text("t3")).unwrap();
    assert_eq!(event.details, "Local IP changed: 192.168.1.10 -> 10.0.0.2");
}

#[test]
fn snapshots_are_taken_only_while_capturing() {
    let monitor = TelemetryMonitor::new();
    assert_eq!(monitor.on_tick(true), TickAction::Collect);
    assert_eq!(monitor.on_tick(false), TickAction::Idle);
    assert_eq!(TELEMETRY_INTERVAL_SECS, 5);
}
