//! Client runtime for components of a terminal-canvas host.
//!
//! The library holds the protocol's data model, the decisions of the
//! request/response correlation engine and of the inbound event pipeline,
//! the render batching and clipping pipeline, and the client-side layout
//! tree. Socket I/O, the wire encoding and the background tasks live in the
//! application layer around it.
//!
//! The client described here is the asynchronous one: one transient
//! connection per request and a listener socket for pushed messages. The
//! earlier poll-based client built on `mio`, with its connection handshake
//! and pass chains (`poll`, `connect`, `approve_connection`, `ClientBuilder`
//! and the default receive and drop handlers), is not part of this library.
pub mod common;
pub mod config;
pub mod discriminator;
pub mod event;
pub mod foreign;
pub mod keys;
pub mod layout;
pub mod pipeline;
pub mod render;
pub mod scroll;
pub mod session;
pub mod request;
pub mod response;
pub mod subscription;
pub mod suppressor;
