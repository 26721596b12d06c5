//! Device protocol vocabulary: event names, status payloads and channel messages.
pub mod events;
pub mod message;
pub mod status;
