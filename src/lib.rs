//! A client model for an imageboard's read-only thread API: the thread and
//! post records, the capcode set, and the verified mapping between those
//! records and the JSON documents the service sends.

pub mod capcode;
pub mod document;
pub mod fields;
pub mod post;
pub mod request;
pub mod thread;

pub use capcode::Capcode;
pub use document::JsonValue;
pub use fields::DecodeError;
pub use post::Post;
pub use request::{thread_from_response, thread_url, ResponseError};
pub use thread::Thread;
