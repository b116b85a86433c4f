//! The verified core of a small HTTP/1.x server.
//!
//! The library decides what a server and its connections do; it does no I/O. [`ServerBuilder`]
//! collects the settings and the handlers, [`Server`] takes in connections, and [`Connection`]
//! leads each of them through its requests. Both of the latter are told what has happened, and
//! answer with what is to be done next. What holds across calls is proved in [`laws`], and what each
//! step gives in [`connection_laws`] and [`server_laws`].
pub mod connection;
pub mod connection_laws;
pub mod decoder;
pub mod dispatcher;
pub mod laws;
pub mod metrics;
pub mod options;
pub mod phase;
pub mod request;
pub mod server;
pub mod server_laws;
pub mod status;

pub use crate::connection::{
    Action, Connection, EncodeState, Event, InputState, IoStatus, ReplyState,
};
pub use crate::decoder::{new_read_buf, HttpVersion, RequestHead};
pub use crate::dispatcher::{Dispatcher, DispatcherBuilder};
pub use crate::metrics::{Metric, ServerMetrics};
pub use crate::options::{DecodeOptions, ServerOptions};
pub use crate::phase::{Phase, PhaseKind, ResEncoder};
pub use crate::request::Req;
pub use crate::server::{
    Incoming, Listener, ListenerProgress, ListenerStep, LocalAddr, ServeError, Server,
    ServerAction, ServerBuilder, ServerParts, ServerStage, SocketAddr,
};
pub use crate::status::{ErrorKind, Status};
