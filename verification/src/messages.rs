//! The request and response messages of the HTTP API, as plain values.
//! On the wire they are Protocol Buffers; `app/` holds the encoded twins.

use vstd::prelude::*;

verus! {

/// One event as the API exchanges it.
pub struct EventSpec {
    pub event_uuid: String,
    pub event_title: String,
    pub event_description: String,
    pub event_href: String,
    pub event_time: String,
    pub image_hash: String,
}

/// The answer to a query for events.
pub struct EventList {
    pub events: Vec<EventSpec>,
}

/// Body of a request that creates events.
pub struct EventPost {
    pub token: String,
    pub events: Vec<EventSpec>,
}

/// Body of a request that updates one event.
pub struct EventUpdate {
    pub token: String,
    pub event: Option<EventSpec>,
}

/// Body of a request that deletes events by UUID.
pub struct EventDelete {
    pub token: String,
    pub uuids: Vec<String>,
}

/// Body of an image upload.
pub struct ImageUpload {
    pub token: String,
    pub filename: String,
    pub image: Vec<u8>,
}

/// Body of an image removal.
pub struct ImageDelete {
    pub token: String,
    pub filename: String,
}

/// Body of a request that carries only the admin token.
pub struct AdminToken {
    pub token: String,
}

/// Statistics of the image store.
pub struct StorageInfo {
    pub size: u64,
    pub count: u32,
    pub files: Vec<String>,
}

/// The body of every plain answer: a message.
pub struct StateResponse {
    pub message: String,
}

} // verus!
