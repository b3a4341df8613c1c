//! Bridge between a monitoring provider's alert webhooks and the threads of a
//! team-messaging platform: the registry of installations, the normaliser that
//! turns an alert payload into a chat message, and the coordinator that decides
//! what each inbound event leads to.

pub mod alert;
pub mod bridge;
pub mod codec;
pub mod fields;
pub mod json;
pub mod registry;
pub mod text;
