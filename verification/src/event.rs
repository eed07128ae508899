//! The events that the agent hands to its subscribers.

use vstd::prelude::*;

verus! {

/// The kind of a captured event. Its label is the name that subscribers see.
#[derive(Clone, Copy, Debug, PartialEq, Eq, Structural)]
pub enum EventKind {
    KeyPress,
    KeyRelease,
    MouseButtonPress,
    MouseButtonRelease,
    MouseMove,
    MouseWheel,
    SystemInfo,
    SystemInfoChange,
}

impl EventKind {
    /// The name under which an event of this kind is published.
    pub open spec fn label(self) -> Seq<char> {
        match self {
            EventKind::KeyPress => "KeyPress"@,
            EventKind::KeyRelease => "KeyRelease"@,
            EventKind::MouseButtonPress => "MouseButtonPress"@,
            EventKind::MouseButtonRelease => "MouseButtonRelease"@,
            EventKind::MouseMove => "MouseMove"@,
            EventKind::MouseWheel => "MouseWheel"@,
            EventKind::SystemInfo => "SystemInfo"@,
            EventKind::SystemInfoChange => "SystemInfoChange"@,
        }
    }

    /// The name under which an event of this kind is published.
    pub fn name(&self) -> (s: &'static str)
        ensures
            s@ == self.label(),
    {
        match self {
            EventKind::KeyPress => "KeyPress",
            EventKind::KeyRelease => "KeyRelease",
            EventKind::MouseButtonPress => "MouseButtonPress",
            EventKind::MouseButtonRelease => "MouseButtonRelease",
            EventKind::MouseMove => "MouseMove",
            EventKind::MouseWheel => "MouseWheel",
            EventKind::SystemInfo => "SystemInfo",
            EventKind::SystemInfoChange => "SystemInfoChange",
        }
    }
}

/// What a `CapturedEvent` is, as plain values.
pub struct CapturedEventView {
    pub name: EventKind,
    pub timestamp: Seq<char>,
    pub details: Seq<char>,
}

/// One event as delivered to subscribers: its kind, the wall-clock time at
/// which it was classified, and a free-form description.
#[derive(Debug)]
pub struct CapturedEvent {
    pub name: EventKind,
    pub timestamp: String,
    pub details: String,
}

impl View for CapturedEvent {
    type V = CapturedEventView;

    open spec fn view(&self) -> CapturedEventView {
        CapturedEventView {
            name: self.name,
            timestamp: self.timestamp@,
            details: self.details@,
        }
    }
}

impl Clone for CapturedEvent {
    fn clone(&self) -> (copy: Self)
        ensures
            copy@ == self@,
    {
        CapturedEvent {
            name: self.name,
            timestamp: self.timestamp.clone(),
            details: self.details.clone(),
        }
    }
}

impl CapturedEvent {
    /// An event of kind `name`, stamped `timestamp`, described by `details`.
    pub fn new(name: EventKind, timestamp: String, details: String) -> (event: Self)
        ensures
            event@ == (CapturedEventView { name, timestamp: timestamp@, details: details@ }),
    {
        CapturedEvent { name, timestamp, details }
    }
}

} // verus!
