//! The Voice Gateway client: what it reads, what it writes, what it decides.
pub mod backoff;
pub mod conversation;
pub mod course;
pub mod decode;
pub mod description;
pub mod dispatch;
pub mod failure;
pub mod info;
pub mod laws;
pub mod link;
pub mod message_laws;
pub mod payload;
pub mod session;
