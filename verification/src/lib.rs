//! Client-side logic for reading a channel's uploads playlist through the
//! YouTube Data API: the request URLs, the records that the responses are
//! read into, and the text the bundled HTTP listener answers with.
//!
//! Nothing here touches the network. Callers fetch a URL built by
//! [`api::MyApi`], decode the body into the records of [`channel`] and
//! [`playlist`], and hand them back for the library to read.

pub mod api;
pub mod channel;
pub mod playlist;
pub mod server;
pub mod url;
