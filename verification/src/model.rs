//! The shapes that arrive on the wire: the handshake query and the event
//! payload. All fields are plain values; the layer that decodes HTTP
//! requests constructs these and hands them in.

use vstd::prelude::*;

verus! {

/// The query parameters of a verification (handshake) request:
/// an optional mode, an optional token, and the challenge to echo back.
pub struct Hub {
    pub mode: Option<String>,
    pub token: Option<String>,
    pub challenge: String,
}

/// Mathematical image of a [`Hub`].
pub ghost struct HubView {
    pub mode: Option<Seq<char>>,
    pub token: Option<Seq<char>>,
    pub challenge: Seq<char>,
}

impl View for Hub {
    type V = HubView;

    open spec fn view(&self) -> HubView {
        HubView {
            mode: self.mode.deep_view(),
            token: self.token.deep_view(),
            challenge: self.challenge@,
        }
    }
}

/// The sender of a message: an opaque page-scoped identifier.
pub struct Sender {
    pub id: String,
}

/// A message carried by an event: free-form text plus platform metadata.
/// Only the text is ever consumed; the metadata is accepted and kept.
pub struct Message {
    pub mid: String,
    pub seq: i32,
    pub text: String,
}

/// Mathematical image of a [`Message`].
pub ghost struct MessageView {
    pub mid: Seq<char>,
    pub seq: int,
    pub text: Seq<char>,
}

impl View for Message {
    type V = MessageView;

    open spec fn view(&self) -> MessageView {
        MessageView { mid: self.mid@, seq: self.seq as int, text: self.text@ }
    }
}

/// One messaging event: who sent it and what it carries.
pub struct MessagingEvent {
    pub sender: Sender,
    pub message: Message,
}

/// Mathematical image of a [`MessagingEvent`].
pub ghost struct EventView {
    pub sender: Seq<char>,
    pub message: MessageView,
}

impl View for MessagingEvent {
    type V = EventView;

    open spec fn view(&self) -> EventView {
        EventView { sender: self.sender.id@, message: self.message@ }
    }
}

/// The platform's batching unit: the events delivered for one subscription.
pub struct Entry {
    pub messaging: Vec<MessagingEvent>,
}

impl View for Entry {
    type V = Seq<EventView>;

    open spec fn view(&self) -> Seq<EventView> {
        self.messaging@.map_values(|e: MessagingEvent| e@)
    }
}

/// An inbound event batch: the object kind and the entries it carries.
pub struct EventBatch {
    pub object: String,
    pub entry: Vec<Entry>,
}

/// Mathematical image of an [`EventBatch`].
pub ghost struct BatchView {
    pub object: Seq<char>,
    pub entries: Seq<Seq<EventView>>,
}

impl View for EventBatch {
    type V = BatchView;

    open spec fn view(&self) -> BatchView {
        BatchView {
            object: self.object@,
            entries: self.entry@.map_values(|e: Entry| e@),
        }
    }
}

} // verus!
