//! The local web UI: request authorization, the event stream, and the
//! shapes of the API's requests and answers.

pub mod bridge;
pub mod handlers;
pub mod server;
