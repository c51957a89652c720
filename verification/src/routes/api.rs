//! The endpoints under `/api`.
pub mod attachments;
pub mod channels;
pub mod messages;
pub mod users;
