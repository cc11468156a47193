//! The typed events that cross the device's single event bus, and the
//! mapping from inbound message-bus frames to events.

use vstd::prelude::*;
use vstd::string::*;
use crate::text::str_eq;

verus! {

/// One event on the bus. Exactly these cross between the producers
/// (message listener, input monitor, battery sampler) and the controller.
#[derive(Debug, Clone, PartialEq, Eq)]
pub enum DeviceEvent {
    /// Return the device to its idle, backlight-off state.
    Sleep,
    /// A new question: a pipe-delimited record of id, text and four options,
    /// parsed lazily by the controller.
    Question { data: String },
    /// A quiz result naming the winning device by its hardware identifier.
    Winner { data: String },
    /// The selection cursor moved to this index (always in 0..4).
    Select { data: u8 },
    /// The confirm button was pressed with the cursor at this index.
    Enter { data: u8 },
    /// A fresh battery estimate; `None` means "charging, unknown level".
    BatteryLevel { data: Option<u8> },
}

/// The mathematical value of a `DeviceEvent`: payloads as character
/// sequences.
#[verifier::ext_equal]
pub enum EventView {
    Sleep,
    Question { data: Seq<char> },
    Winner { data: Seq<char> },
    Select { data: u8 },
    Enter { data: u8 },
    BatteryLevel { data: Option<u8> },
}

impl View for DeviceEvent {
    type V = EventView;

    open spec fn view(&self) -> EventView {
        match self {
            DeviceEvent::Sleep => EventView::Sleep,
            DeviceEvent::Question { data } => EventView::Question { data: data@ },
            DeviceEvent::Winner { data } => EventView::Winner { data: data@ },
            DeviceEvent::Select { data } => EventView::Select { data: *data },
            DeviceEvent::Enter { data } => EventView::Enter { data: *data },
            DeviceEvent::BatteryLevel { data } => EventView::BatteryLevel { data: *data },
        }
    }
}

/// The bus invariant on button events: the producer computes selection
/// indices, so they are always in `[0, 4)`.
pub open spec fn event_wf(e: EventView) -> bool {
    match e {
        EventView::Select { data } => data < 4,
        EventView::Enter { data } => data < 4,
        _ => true,
    }
}

/// Whether a topic is one the device listens to.
pub open spec fn known_topic(topic: Seq<char>) -> bool {
    topic == "sleep"@ || topic == "off"@ || topic == "question"@ || topic == "winner"@
}

/// Relies on `String::from_utf8_lossy`: valid UTF-8 bytes decode to exactly
/// their character sequence (invalid input yields some replacement text).
#[verifier::external_body]
fn bytes_to_string_lossy(data: &[u8]) -> (r: String)
    ensures
        vstd::utf8::valid_utf8(data@) ==> r@ == vstd::utf8::decode_utf8(data@),
{
    String::from_utf8_lossy(data).into_owned()
}

impl DeviceEvent {
    /// Maps an inbound frame to a typed event by its topic: `question` and
    /// `winner` carry their payload along, `sleep` and `off` return the
    /// device to idle, and a frame on any other topic is dropped.
    pub fn from_mqtt_payload(topic: &str, data: &[u8]) -> (r: Option<DeviceEvent>)
        ensures
            r is Some <==> known_topic(topic@),
            topic@ == "sleep"@ || topic@ == "off"@ ==> r == Some(DeviceEvent::Sleep),
            topic@ == "question"@ ==> (match r {
                Some(e) => e@ matches EventView::Question { data: q } && (vstd::utf8::valid_utf8(
                    data@,
                ) ==> q == vstd::utf8::decode_utf8(data@)),
                None => false,
            }),
            topic@ == "winner"@ ==> (match r {
                Some(e) => e@ matches EventView::Winner { data: w } && (vstd::utf8::valid_utf8(
                    data@,
                ) ==> w == vstd::utf8::decode_utf8(data@)),
                None => false,
            }),
    {
        proof {
            reveal_strlit("sleep");
            reveal_strlit("off");
            reveal_strlit("question");
            reveal_strlit("winner");
            assert("sleep"@.len() == 5);
            assert("off"@.len() == 3);
            assert("question"@.len() == 8);
            assert("winner"@.len() == 6);
        }
        if str_eq(topic, "sleep") || str_eq(topic, "off") {
            Some(DeviceEvent::Sleep)
        } else if str_eq(topic, "question") {
            Some(DeviceEvent::Question { data: bytes_to_string_lossy(data) })
        } else if str_eq(topic, "winner") {
            Some(DeviceEvent::Winner { data: bytes_to_string_lossy(data) })
        } else {
            None
        }
    }
}

} // verus!
