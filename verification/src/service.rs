//! The control surface: starting and stopping capture, and opening
//! subscriber streams.

use vstd::prelude::*;
use vstd::string::StringExecFns;
use crate::bus::{grew_by, EventBus, PublishOutcome, Subscription};
use crate::clock::local_timestamp;
use crate::event::{CapturedEvent, CapturedEventView, EventKind};
use crate::system_info::{SystemInfo, SystemInfoView};

verus! {

/// The process-wide capture lifecycle.
#[derive(Clone, Copy, Debug, PartialEq, Eq, Structural)]
pub enum CaptureMode {
    Stopped,
    Capturing,
}

/// The answer to a control command.
#[derive(Debug)]
pub struct Reply {
    /// The message for the caller.
    pub message: String,
    /// Whether the caller is to take a snapshot now and hand it to
    /// `publish_baseline`.
    pub publish_baseline: bool,
}

/// The state of the service, as plain values: the capture lifecycle, the
/// retained baseline, the events that the service has published, and the
/// channel of the bus that it publishes to.
pub struct ServiceView {
    pub mode: CaptureMode,
    pub system_info: Option<SystemInfoView>,
    pub published: Seq<CapturedEventView>,
    pub channel: int,
}

/// The capture service: the capture toggle, the bus it publishes to, and the
/// baseline snapshot of the last start.
pub struct MyCaptureService {
    broadcaster: EventBus,
    capturing: bool,
    system_info: Option<SystemInfo>,
}

impl View for MyCaptureService {
    type V = ServiceView;

    closed spec fn view(&self) -> ServiceView {
        ServiceView {
            mode: if self.capturing {
                CaptureMode::Capturing
            } else {
                CaptureMode::Stopped
            },
            system_info: match self.system_info {
                Some(snapshot) => Some(snapshot@),
                None => None,
            },
            published: self.broadcaster.log(),
            channel: self.broadcaster.channel(),
        }
    }
}

/// The baseline event: the full formatted snapshot, stamped `timestamp`.
pub open spec fn baseline_view(timestamp: Seq<char>, details: Seq<char>) -> CapturedEventView {
    CapturedEventView { name: EventKind::SystemInfo, timestamp, details }
}

/// Builds the baseline event from the formatted snapshot.
pub fn baseline_event(timestamp: String, details: String) -> (event: CapturedEvent)
    ensures
        event@ == baseline_view(timestamp@, details@),
{
    CapturedEvent::new(EventKind::SystemInfo, timestamp, details)
}

impl MyCaptureService {
    /// A stopped service that publishes to `broadcaster`.
    pub fn new(broadcaster: EventBus) -> (service: Self)
        ensures
            service@ == (ServiceView {
                mode: CaptureMode::Stopped,
                system_info: None,
                published: broadcaster.log(),
                channel: broadcaster.channel(),
            }),
    {
        MyCaptureService { broadcaster, capturing: false, system_info: None }
    }

    /// Whether capture is on.
    pub fn is_capturing(&self) -> (capturing: bool)
        ensures
            capturing == (self@.mode == CaptureMode::Capturing),
    {
        self.capturing
    }

    /// Another producer's handle on the bus that the service publishes to.
    pub fn broadcaster(&self) -> (bus: EventBus)
        ensures
            bus.channel() == self@.channel,
            bus.log() == Seq::<CapturedEventView>::empty(),
    {
        self.broadcaster.handle()
    }

    /// The baseline snapshot of the last start that could take one.
    pub fn system_info(&self) -> (snapshot: Option<&SystemInfo>)
        ensures
            match snapshot {
                Some(info) => self@.system_info == Some(info@),
                None => self@.system_info.is_none(),
            },
    {
        self.system_info.as_ref()
    }

    /// Turns capture on, whether or not it was on already, and asks for the
    /// baseline to be published.
    pub fn start(&mut self) -> (reply: Reply)
        ensures
            final(self)@ == (ServiceView { mode: CaptureMode::Capturing, ..old(self)@ }),
            reply.message@ == "Started"@,
            reply.publish_baseline,
    {
        self.capturing = true;
        Reply { message: String::from_str("Started"), publish_baseline: true }
    }

    /// Turns capture off, whether or not it was on. Subscriptions stay open.
    pub fn stop(&mut self) -> (reply: Reply)
        ensures
            final(self)@ == (ServiceView { mode: CaptureMode::Stopped, ..old(self)@ }),
            reply.message@ == "Stopped"@,
            !reply.publish_baseline,
    {
        self.capturing = false;
        Reply { message: String::from_str("Stopped"), publish_baseline: false }
    }

    /// Opens a stream: a subscription, on the bus that the service publishes
    /// to, to every event published from now on. The service stays as it is.
    pub fn stream_events(&self) -> (subscription: Subscription)
        ensures
            subscription.channel() == self@.channel,
    {
        self.broadcaster.subscribe()
    }

    /// Takes the snapshot collected after a start, with its formatted text.
    /// A snapshot is retained as the baseline and published as a
    /// `SystemInfo` event that carries the text, stamped with the local
    /// time; a failed collection changes nothing and publishes nothing.
    pub fn publish_baseline(&mut self, snapshot: Result<SystemInfo, String>, details: String) -> (
        published: Option<PublishOutcome>)
        ensures
            final(self)@.mode == old(self)@.mode,
            final(self)@.channel == old(self)@.channel,
            match snapshot {
                Ok(info) => {
                    &&& final(self)@.system_info == Some(info@)
                    &&& published.is_some()
                    &&& grew_by(
                        old(self)@.published,
                        final(self)@.published,
                        EventKind::SystemInfo,
                        details@,
                    )
                },
                Err(_) => final(self)@ == old(self)@ && published.is_none(),
            },
    {
        match snapshot {
            Ok(info) => {
                let event = baseline_event(local_timestamp(), details);
                self.system_info = Some(info);
                let outcome = self.broadcaster.publish(event);
                assert(self.broadcaster.log().drop_last() =~= old(self).broadcaster.log());
                Some(outcome)
            },
            Err(_) => None,
        }
    }
}

} // verus!
