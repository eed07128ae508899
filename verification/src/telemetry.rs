//! The telemetry monitor: compares each fresh host snapshot with the one
//! before and reports the fields that changed.

use vstd::prelude::*;
use vstd::string::StringExecFns;
use crate::bus::{grew_by, EventBus, PublishOutcome};
use crate::clock::local_timestamp;
use crate::event::{CapturedEvent, CapturedEventView, EventKind};
use crate::system_info::{SystemInfo, SystemInfoView};
use crate::text::{decimal_nat, decimal_string};

verus! {

/// The seconds between two telemetry ticks.
pub const TELEMETRY_INTERVAL_SECS: u64 = 5;

/// The line that reports a change of `field` from `before` to `after`.
pub open spec fn change_line(field: Seq<char>, before: Seq<char>, after: Seq<char>) -> Seq<char> {
    field + " changed: "@ + before + " -> "@ + after
}

/// A memory size of `megabytes`, as a change line shows it.
pub open spec fn memory_text(megabytes: u64) -> Seq<char> {
    decimal_nat(megabytes as nat) + " MB"@
}

/// The one line `line` where `changed` holds, no line otherwise.
pub open spec fn line_if(changed: bool, line: Seq<char>) -> Seq<Seq<char>> {
    if changed {
        seq![line]
    } else {
        Seq::empty()
    }
}

/// The change lines between two snapshots, in the order in which the fields
/// are compared. Text fields are compared by value, collections by count.
pub open spec fn diff_lines(old: SystemInfoView, new: SystemInfoView) -> Seq<Seq<char>> {
    line_if(
        old.system_info.directx_version != new.system_info.directx_version,
        change_line(
            "DirectX version"@,
            old.system_info.directx_version,
            new.system_info.directx_version,
        ),
    ) + line_if(
        old.system_info.os_version != new.system_info.os_version,
        change_line("OS version"@, old.system_info.os_version, new.system_info.os_version),
    ) + line_if(
        old.system_info.memory_mb != new.system_info.memory_mb,
        change_line(
            "Memory"@,
            memory_text(old.system_info.memory_mb),
            memory_text(new.system_info.memory_mb),
        ),
    ) + line_if(
        old.network_info.local_ip != new.network_info.local_ip,
        change_line("Local IP"@, old.network_info.local_ip, new.network_info.local_ip),
    ) + line_if(
        old.network_info.public_ip != new.network_info.public_ip,
        change_line("Public IP"@, old.network_info.public_ip, new.network_info.public_ip),
    ) + line_if(
        old.usb_input_devices.len() != new.usb_input_devices.len(),
        change_line(
            "USB devices count"@,
            decimal_nat(old.usb_input_devices.len()),
            decimal_nat(new.usb_input_devices.len()),
        ),
    ) + line_if(
        old.monitors.len() != new.monitors.len(),
        change_line(
            "Monitor count"@,
            decimal_nat(old.monitors.len()),
            decimal_nat(new.monitors.len()),
        ),
    ) + line_if(
        old.video_cards.len() != new.video_cards.len(),
        change_line(
            "Video cards count"@,
            decimal_nat(old.video_cards.len()),
            decimal_nat(new.video_cards.len()),
        ),
    ) + line_if(
        old.pci_devices.len() != new.pci_devices.len(),
        change_line(
            "PCI devices count"@,
            decimal_nat(old.pci_devices.len()),
            decimal_nat(new.pci_devices.len()),
        ),
    )
}

/// The lines of `lines` joined by newlines.
pub open spec fn join_lines(lines: Seq<Seq<char>>) -> Seq<char>
    decreases lines.len(),
{
    if lines.len() == 0 {
        Seq::empty()
    } else if lines.len() == 1 {
        lines[0]
    } else {
        join_lines(lines.drop_last()) + "\n"@ + lines.last()
    }
}

/// The texts of `lines`, in order.
pub open spec fn texts(lines: Seq<String>) -> Seq<Seq<char>> {
    lines.map_values(|line: String| line@)
}

fn push_line(changes: &mut Vec<String>, field: &str, before: &str, after: &str)
    ensures
        texts(final(changes)@) == texts(old(changes)@) + seq![
            change_line(field@, before@, after@),
        ],
{
    let mut line = String::from_str(field);
    line.append(" changed: ");
    line.append(before);
    line.append(" -> ");
    line.append(after);
    changes.push(line);
    assert(texts(changes@) =~= texts(old(changes)@) + seq![
        change_line(field@, before@, after@),
    ]);
}

fn note_text_change(changes: &mut Vec<String>, field: &str, before: &String, after: &String)
    ensures
        texts(final(changes)@) == texts(old(changes)@) + line_if(
            before@ != after@,
            change_line(field@, before@, after@),
        ),
{
    if *before != *after {
        push_line(changes, field, before.as_str(), after.as_str());
    } else {
        assert(texts(changes@) =~= texts(changes@) + Seq::<Seq<char>>::empty());
    }
}

fn note_memory_change(changes: &mut Vec<String>, before: u64, after: u64)
    ensures
        texts(final(changes)@) == texts(old(changes)@) + line_if(
            before != after,
            change_line("Memory"@, memory_text(before), memory_text(after)),
        ),
{
    if before != after {
        let mut before_text = decimal_string(before);
        before_text.append(" MB");
        let mut after_text = decimal_string(after);
        after_text.append(" MB");
        push_line(changes, "Memory", before_text.as_str(), after_text.as_str());
    } else {
        assert(texts(changes@) =~= texts(changes@) + Seq::<Seq<char>>::empty());
    }
}

fn note_count_change(changes: &mut Vec<String>, field: &str, before: usize, after: usize)
    ensures
        texts(final(changes)@) == texts(old(changes)@) + line_if(
            before != after,
            change_line(field@, decimal_nat(before as nat), decimal_nat(after as nat)),
        ),
{
    if before != after {
        let before_text = decimal_string(before as u64);
        let after_text = decimal_string(after as u64);
        push_line(changes, field, before_text.as_str(), after_text.as_str());
    } else {
        assert(texts(changes@) =~= texts(changes@) + Seq::<Seq<char>>::empty());
    }
}

fn join_with_newlines(lines: &Vec<String>) -> (joined: String)
    ensures
        joined@ == join_lines(texts(lines@)),
{
    let mut joined = String::new();
    let mut i: usize = 0;
    while i < lines.len()
        invariant
            i <= lines.len(),
            joined@ == join_lines(texts(lines@).take(i as int)),
        decreases lines.len() - i,
    {
        let ghost before = texts(lines@).take(i as int);
        let ghost after = texts(lines@).take(i + 1);
        assert(after.drop_last() =~= before);
        assert(after.last() == lines@[i as int]@);
        if i > 0 {
            joined.append("\n");
        }
        joined.append(lines[i].as_str());
        assert(joined@ =~= join_lines(after)) by {
            if i == 0 {
                assert(Seq::<char>::empty() + lines@[0]@ =~= lines@[0]@);
            }
        }
        i += 1;
    }
    assert(texts(lines@).take(lines.len() as int) =~= texts(lines@));
    joined
}

/// Describes what differs between two snapshots: one line for each compared
/// field whose value changed, joined by newlines; the empty string where
/// none did.
pub fn compare_system_info(old: &SystemInfo, new: &SystemInfo) -> (changes: String)
    ensures
        changes@ == join_lines(diff_lines(old@, new@)),
{
    let mut changes: Vec<String> = Vec::new();
    note_text_change(
        &mut changes,
        "DirectX version",
        &old.system_info.directx_version,
        &new.system_info.directx_version,
    );
    assert(texts(changes@) =~= line_if(
        old@.system_info.directx_version != new@.system_info.directx_version,
        change_line(
            "DirectX version"@,
            old@.system_info.directx_version,
            new@.system_info.directx_version,
        ),
    ));
    note_text_change(
        &mut changes,
        "OS version",
        &old.system_info.os_version,
        &new.system_info.os_version,
    );
    note_memory_change(&mut changes, old.system_info.memory_mb, new.system_info.memory_mb);
    note_text_change(
        &mut changes,
        "Local IP",
        &old.network_info.local_ip,
        &new.network_info.local_ip,
    );
    note_text_change(
        &mut changes,
        "Public IP",
        &old.network_info.public_ip,
        &new.network_info.public_ip,
    );
    note_count_change(
        &mut changes,
        "USB devices count",
        old.usb_input_devices.len(),
        new.usb_input_devices.len(),
    );
    note_count_change(&mut changes, "Monitor count", old.monitors.len(), new.monitors.len());
    note_count_change(
        &mut changes,
        "Video cards count",
        old.video_cards.len(),
        new.video_cards.len(),
    );
    note_count_change(
        &mut changes,
        "PCI devices count",
        old.pci_devices.len(),
        new.pci_devices.len(),
    );
    assert(texts(changes@) == diff_lines(old@, new@));
    join_with_newlines(&changes)
}

/// The event that a tick publishes: a change event that carries the diff
/// against the retained snapshot, where there is one and the diff is not
/// empty; none on the first tick and where nothing changed.
pub open spec fn change_event(
    last: Option<SystemInfoView>,
    current: SystemInfoView,
    timestamp: Seq<char>,
) -> Option<CapturedEventView> {
    match last {
        Some(previous) if join_lines(diff_lines(previous, current)).len() > 0 => Some(
            CapturedEventView {
                name: EventKind::SystemInfoChange,
                timestamp,
                details: join_lines(diff_lines(previous, current)),
            },
        ),
        _ => None,
    }
}

/// What the periodic loop does on one tick.
#[derive(Clone, Copy, Debug, PartialEq, Eq, Structural)]
pub enum TickAction {
    /// Take a fresh snapshot and hand it to the monitor.
    Collect,
    /// Capture is off: do nothing until the next tick.
    Idle,
}

/// The monitor's memory: the snapshot of the last tick that succeeded.
pub struct TelemetryMonitor {
    last: Option<SystemInfo>,
}

impl View for TelemetryMonitor {
    type V = Option<SystemInfoView>;

    closed spec fn view(&self) -> Option<SystemInfoView> {
        match self.last {
            Some(snapshot) => Some(snapshot@),
            None => None,
        }
    }
}

impl TelemetryMonitor {
    /// A monitor that has seen no snapshot yet.
    pub fn new() -> (monitor: Self)
        ensures
            monitor@.is_none(),
    {
        TelemetryMonitor { last: None }
    }

    /// The retained snapshot, if any.
    pub fn last(&self) -> (last: Option<&SystemInfo>)
        ensures
            match last {
                Some(snapshot) => self@ == Some(snapshot@),
                None => self@.is_none(),
            },
    {
        self.last.as_ref()
    }

    /// Snapshots are taken only while capture is on.
    pub fn on_tick(&self, capturing: bool) -> (action: TickAction)
        ensures
            action == if capturing {
                TickAction::Collect
            } else {
                TickAction::Idle
            },
    {
        if capturing {
            TickAction::Collect
        } else {
            TickAction::Idle
        }
    }

    /// Takes the outcome of one collection. A failed collection changes
    /// nothing: the retained snapshot stays for the next comparison. A fresh
    /// snapshot is compared with the retained one and then retained itself;
    /// the change event, stamped `timestamp`, is returned where the two
    /// differ.
    pub fn observe(&mut self, snapshot: Result<SystemInfo, String>, timestamp: String) -> (event:
        Option<CapturedEvent>)
        ensures
            match snapshot {
                Ok(current) => {
                    &&& final(self)@ == Some(current@)
                    &&& match event {
                        Some(e) => change_event(old(self)@, current@, timestamp@) == Some(e@),
                        None => change_event(old(self)@, current@, timestamp@).is_none(),
                    }
                },
                Err(_) => final(self)@ == old(self)@ && event.is_none(),
            },
    {
        match snapshot {
            Ok(current) => {
                let event = match &self.last {
                    Some(previous) => {
                        let changes = compare_system_info(previous, &current);
                        if !changes.as_str().is_empty() {
                            Some(CapturedEvent::new(EventKind::SystemInfoChange, timestamp, changes))
                        } else {
                            None
                        }
                    },
                    None => None,
                };
                self.last = Some(current);
                event
            },
            Err(_) => None,
        }
    }

    /// Takes the outcome of one collection and publishes the change event,
    /// stamped with the local time, where there is one. Says what became of
    /// the event, or `None` where none was due; nothing is handed to the bus
    /// then.
    pub fn observe_and_publish(
        &mut self,
        bus: &mut EventBus,
        snapshot: Result<SystemInfo, String>,
    ) -> (published: Option<PublishOutcome>)
        ensures
            final(bus).channel() == old(bus).channel(),
            match snapshot {
                Ok(current) => {
                    &&& final(self)@ == Some(current@)
                    &&& match change_event(old(self)@, current@, Seq::empty()) {
                        Some(due) => published.is_some() && grew_by(
                            old(bus).log(),
                            final(bus).log(),
                            EventKind::SystemInfoChange,
                            due.details,
                        ),
                        None => published.is_none() && final(bus).log() == old(bus).log(),
                    }
                },
                Err(_) => {
                    &&& final(self)@ == old(self)@
                    &&& published.is_none()
                    &&& final(bus).log() == old(bus).log()
                },
            },
    {
        match self.observe(snapshot, local_timestamp()) {
            Some(event) => {
                let outcome = bus.publish(event);
                assert(bus.log().drop_last() =~= old(bus).log());
                Some(outcome)
            },
            None => None,
        }
    }
}

/// The fields that the monitor compares agree between `a` and `b`.
pub open spec fn same_compared_fields(a: SystemInfoView, b: SystemInfoView) -> bool {
    &&& a.system_info.directx_version == b.system_info.directx_version
    &&& a.system_info.os_version == b.system_info.os_version
    &&& a.system_info.memory_mb == b.system_info.memory_mb
    &&& a.network_info.local_ip == b.network_info.local_ip
    &&& a.network_info.public_ip == b.network_info.public_ip
    &&& a.usb_input_devices.len() == b.usb_input_devices.len()
    &&& a.monitors.len() == b.monitors.len()
    &&& a.video_cards.len() == b.video_cards.len()
    &&& a.pci_devices.len() == b.pci_devices.len()
}

/// Two snapshots that agree on every compared field have an empty diff, and
/// no change event is due for them.
pub proof fn equal_snapshots_have_empty_diff(
    old: SystemInfoView,
    new: SystemInfoView,
    timestamp: Seq<char>,
)
    requires
        same_compared_fields(old, new),
    ensures
        diff_lines(old, new) == Seq::<Seq<char>>::empty(),
        join_lines(diff_lines(old, new)) == Seq::<char>::empty(),
        change_event(Some(old), new, timestamp).is_none(),
{
    assert(diff_lines(old, new) =~= Seq::<Seq<char>>::empty());
}

/// A snapshot has an empty diff against itself.
pub proof fn snapshot_has_no_diff_against_itself(snapshot: SystemInfoView)
    ensures
        join_lines(diff_lines(snapshot, snapshot)) == Seq::<char>::empty(),
{
    equal_snapshots_have_empty_diff(snapshot, snapshot, Seq::empty());
}

/// The fields that the monitor compares.
pub enum ComparedField {
    DirectXVersion,
    OsVersion,
    Memory,
    LocalIp,
    PublicIp,
    UsbDevices,
    Monitors,
    VideoCards,
    PciDevices,
}

/// Whether `old` and `new` differ in `field`.
pub open spec fn differs_in(field: ComparedField, old: SystemInfoView, new: SystemInfoView) -> bool {
    match field {
        ComparedField::DirectXVersion => old.system_info.directx_version
            != new.system_info.directx_version,
        ComparedField::OsVersion => old.system_info.os_version != new.system_info.os_version,
        ComparedField::Memory => old.system_info.memory_mb != new.system_info.memory_mb,
        ComparedField::LocalIp => old.network_info.local_ip != new.network_info.local_ip,
        ComparedField::PublicIp => old.network_info.public_ip != new.network_info.public_ip,
        ComparedField::UsbDevices => old.usb_input_devices.len() != new.usb_input_devices.len(),
        ComparedField::Monitors => old.monitors.len() != new.monitors.len(),
        ComparedField::VideoCards => old.video_cards.len() != new.video_cards.len(),
        ComparedField::PciDevices => old.pci_devices.len() != new.pci_devices.len(),
    }
}

/// The line that reports the change of `field` from `old` to `new`.
pub open spec fn line_of(field: ComparedField, old: SystemInfoView, new: SystemInfoView) -> Seq<
    char,
> {
    match field {
        ComparedField::DirectXVersion => change_line(
            "DirectX version"@,
            old.system_info.directx_version,
            new.system_info.directx_version,
        ),
        ComparedField::OsVersion => change_line(
            "OS version"@,
            old.system_info.os_version,
            new.system_info.os_version,
        ),
        ComparedField::Memory => change_line(
            "Memory"@,
            memory_text(old.system_info.memory_mb),
            memory_text(new.system_info.memory_mb),
        ),
        ComparedField::LocalIp => change_line(
            "Local IP"@,
            old.network_info.local_ip,
            new.network_info.local_ip,
        ),
        ComparedField::PublicIp => change_line(
            "Public IP"@,
            old.network_info.public_ip,
            new.network_info.public_ip,
        ),
        ComparedField::UsbDevices => change_line(
            "USB devices count"@,
            decimal_nat(old.usb_input_devices.len()),
            decimal_nat(new.usb_input_devices.len()),
        ),
        ComparedField::Monitors => change_line(
            "Monitor count"@,
            decimal_nat(old.monitors.len()),
            decimal_nat(new.monitors.len()),
        ),
        ComparedField::VideoCards => change_line(
            "Video cards count"@,
            decimal_nat(old.video_cards.len()),
            decimal_nat(new.video_cards.len()),
        ),
        ComparedField::PciDevices => change_line(
            "PCI devices count"@,
            decimal_nat(old.pci_devices.len()),
            decimal_nat(new.pci_devices.len()),
        ),
    }
}

/// Where exactly one compared field changed, the diff is that field's line
/// and nothing else.
pub proof fn single_change_gives_single_line(
    field: ComparedField,
    old: SystemInfoView,
    new: SystemInfoView,
)
    requires
        differs_in(field, old, new),
        forall|other: ComparedField| other != field ==> !#[trigger] differs_in(other, old, new),
    ensures
        diff_lines(old, new) == seq![line_of(field, old, new)],
        join_lines(diff_lines(old, new)) == line_of(field, old, new),
{
    assert(field != ComparedField::DirectXVersion ==> !differs_in(
        ComparedField::DirectXVersion,
        old,
        new,
    ));
    assert(field != ComparedField::OsVersion ==> !differs_in(ComparedField::OsVersion, old, new));
    assert(field != ComparedField::Memory ==> !differs_in(ComparedField::Memory, old, new));
    assert(field != ComparedField::LocalIp ==> !differs_in(ComparedField::LocalIp, old, new));
    assert(field != ComparedField::PublicIp ==> !differs_in(ComparedField::PublicIp, old, new));
    assert(field != ComparedField::UsbDevices ==> !differs_in(
        ComparedField::UsbDevices,
        old,
        new,
    ));
    assert(field != ComparedField::Monitors ==> !differs_in(ComparedField::Monitors, old, new));
    assert(field != ComparedField::VideoCards ==> !differs_in(
        ComparedField::VideoCards,
        old,
        new,
    ));
    assert(field != ComparedField::PciDevices ==> !differs_in(
        ComparedField::PciDevices,
        old,
        new,
    ));
    assert(diff_lines(old, new) =~= seq![line_of(field, old, new)]);
}

/// Where the memory size is the one compared field that changed, the diff
/// is the memory line and nothing else.
pub proof fn memory_change_alone_gives_one_line(old: SystemInfoView, new: SystemInfoView)
    requires
        old.system_info.memory_mb != new.system_info.memory_mb,
        forall|other: ComparedField|
            other != ComparedField::Memory ==> !#[trigger] differs_in(other, old, new),
    ensures
        join_lines(diff_lines(old, new)) == change_line(
            "Memory"@,
            memory_text(old.system_info.memory_mb),
            memory_text(new.system_info.memory_mb),
        ),
{
    single_change_gives_single_line(ComparedField::Memory, old, new);
}

/// Lines joined by newlines are at least as long as the last of them.
pub proof fn joined_lines_hold_last_line(lines: Seq<Seq<char>>)
    requires
        lines.len() > 0,
    ensures
        join_lines(lines).len() >= lines.last().len(),
{
}

/// Two snapshots that differ in a compared field have a diff that is not
/// empty, so a change event is due for them.
pub proof fn changed_snapshots_have_a_diff(
    old: SystemInfoView,
    new: SystemInfoView,
    timestamp: Seq<char>,
)
    requires
        !same_compared_fields(old, new),
    ensures
        join_lines(diff_lines(old, new)).len() > 0,
        change_event(Some(old), new, timestamp).is_some(),
{
    reveal_strlit(" changed: ");
    let lines = diff_lines(old, new);
    assert(lines.len() > 0);
    assert forall|field: Seq<char>, before: Seq<char>, after: Seq<char>| #[trigger]
        change_line(field, before, after).len() > 0 by {
        assert(" changed: "@.len() == 10);
    }
    assert(lines.last().len() > 0);
    joined_lines_hold_last_line(lines);
}

} // verus!
