//! Building a server, and the state machine that takes in its connections.
//!
//! As with a connection, a [`Server`] decides, and its owner acts: the owner polls the socket,
//! asks for addresses and spawns tasks, and tells the server by an [`Incoming`] what came of it.
use prometrics::metrics::MetricBuilder;
use vstd::prelude::*;

use crate::connection::{Connection, ConnectionView};
use crate::decoder::DecoderOp;
use crate::dispatcher::{Dispatcher, DispatcherBuilder, RouteView};
use crate::options::{DecodeOptions, ServerOptions};
use crate::request::{base_url_text, url_parsed};
use crate::status::ErrorKind;

verus! {

/// `prometrics::metrics::MetricBuilder`, carried through.
#[verifier::external_type_specification]
#[verifier::external_body]
pub struct ExMetricBuilder(prometrics::metrics::MetricBuilder);

/// `prometrics::metrics::MetricBuilder::default()`.
///
/// Nothing is claimed of what it returns: the builder refers to the default registry of the process.
pub assume_specification[ <MetricBuilder as core::default::Default>::default ]() -> MetricBuilder;

/// The address of a socket. Addresses and numbers are read with the most significant byte first.
#[derive(Debug, Clone, Copy, PartialEq, Eq, Structural)]
pub enum SocketAddr {
    V4 { ipv4: u32, port: u16 },
    V6 { ipv6: u128, port: u16, flowinfo: u32, scope_id: u32 },
}

/// What a [`ServerBuilder`] has been told.
pub struct ServerBuilderView<T> {
    pub bind_addr: SocketAddr,
    pub metrics: MetricBuilder,
    /// The routes of the handlers.
    pub routes: Seq<RouteView>,
    /// The handlers, each at the place of its route.
    pub handlers: Seq<T>,
    pub options: ServerOptions,
}

/// HTTP server builder.
///
/// `T` is the type of what serves the requests of a route.
#[derive(Debug)]
pub struct ServerBuilder<T> {
    bind_addr: SocketAddr,
    metrics: MetricBuilder,
    dispatcher: DispatcherBuilder,
    handlers: Vec<T>,
    options: ServerOptions,
}

impl<T> View for ServerBuilder<T> {
    type V = ServerBuilderView<T>;

    closed spec fn view(&self) -> ServerBuilderView<T> {
        ServerBuilderView {
            bind_addr: self.bind_addr,
            metrics: self.metrics,
            routes: self.dispatcher@,
            handlers: self.handlers@,
            options: self.options,
        }
    }
}

impl<T> ServerBuilderView<T> {
    /// No two handlers have the same method and path, and every route has its handler.
    pub open spec fn wf(self) -> bool {
        &&& self.routes.no_duplicates()
        &&& self.routes.len() == self.handlers.len()
    }

    /// The builder with one more handler.
    pub open spec fn with_handler(self, route: RouteView, handler: T) -> Self {
        ServerBuilderView {
            routes: self.routes.push(route),
            handlers: self.handlers.push(handler),
            ..self
        }
    }

    /// The builder with another size of the read buffers.
    pub open spec fn with_read_buffer_size(self, n: usize) -> Self {
        ServerBuilderView { options: ServerOptions { read_buffer_size: n, ..self.options }, ..self }
    }

    /// The builder with another size of the write buffers.
    pub open spec fn with_write_buffer_size(self, n: usize) -> Self {
        ServerBuilderView {
            options: ServerOptions { write_buffer_size: n, ..self.options },
            ..self
        }
    }

    /// The builder with other limits of the request head decoder.
    pub open spec fn with_decode_options(self, options: DecodeOptions) -> Self {
        ServerBuilderView {
            options: ServerOptions { decode_options: options, ..self.options },
            ..self
        }
    }
}

/// The settings of a server for which none were chosen.
pub open spec fn default_options() -> ServerOptions {
    ServerOptions {
        read_buffer_size: 8192,
        write_buffer_size: 8192,
        decode_options: DecodeOptions { max_start_line_size: 0xFFFF, max_header_size: 0xFFFF },
    }
}

impl<T> ServerBuilder<T> {
    /// Makes a new `ServerBuilder` instance.
    pub fn new(bind_addr: SocketAddr) -> (r: Self)
        ensures
            r@.wf(),
            r@.bind_addr == bind_addr,
            r@.routes == Seq::<RouteView>::empty(),
            r@.handlers == Seq::<T>::empty(),
            r@.options == default_options(),
            r@.options.read_buffer_size == 8192,
            r@.options.write_buffer_size == 8192,
            r@.options.decode_options.max_start_line_size == 65535,
            r@.options.decode_options.max_header_size == 65535,
            call_ensures(<MetricBuilder as core::default::Default>::default, (), r@.metrics),
    {
        ServerBuilder {
            bind_addr,
            metrics: MetricBuilder::default(),
            dispatcher: DispatcherBuilder::new(),
            handlers: Vec::new(),
            options: ServerOptions {
                read_buffer_size: 8192,
                write_buffer_size: 8192,
                decode_options: DecodeOptions::default(),
            },
        }
    }

    /// Adds a HTTP request handler.
    ///
    /// # Errors
    ///
    /// If the path and method of the handler conflicts with the already registered handlers, an
    /// `ErrorKind::InvalidInput` error will be returned.
    pub fn add_handler(&mut self, method: &str, path: &str, handler: T) -> (r: Result<
        &mut Self,
        ErrorKind,
    >)
        requires
            old(self)@.wf(),
        ensures
            ({
                let route = RouteView { method: method@, path: path@ };
                if old(self)@.routes.contains(route) {
                    &&& r is Err
                    &&& r->Err_0 == ErrorKind::InvalidInput
                    &&& *final(self) == *old(self)
                } else {
                    &&& r is Ok
                    &&& r->Ok_0@ == old(self)@.with_handler(route, handler)
                    &&& r->Ok_0@.wf()
                    &&& *final(self) == *final(r->Ok_0)
                }
            }),
    {
        match self.dispatcher.register_handler(method, path) {
            Err(e) => Err(e),
            Ok(()) => {
                self.handlers.push(handler);
                Ok(self)
            },
        }
    }

    /// Sets `MetricBuilder` used by the server.
    ///
    /// The default value is `MetricBuilder::default()`.
    pub fn metrics(&mut self, metrics: MetricBuilder) -> (r: &mut Self)
        ensures
            r@ == (ServerBuilderView { metrics, ..old(self)@ }),
            *final(self) == *final(r),
    {
        self.metrics = metrics;
        self
    }

    /// Sets the application level read buffer size of the server in bytes.
    ///
    /// The default value is `8192`.
    pub fn read_buffer_size(&mut self, n: usize) -> (r: &mut Self)
        ensures
            r@ == old(self)@.with_read_buffer_size(n),
            *final(self) == *final(r),
    {
        self.options.read_buffer_size = n;
        self
    }

    /// Sets the application level write buffer size of the server in bytes.
    ///
    /// The default value is `8192`.
    pub fn write_buffer_size(&mut self, n: usize) -> (r: &mut Self)
        ensures
            r@ == old(self)@.with_write_buffer_size(n),
            *final(self) == *final(r),
    {
        self.options.write_buffer_size = n;
        self
    }

    /// Sets the options of the request decoder of the server.
    ///
    /// The default value is `DecodeOptions::default()`.
    pub fn decode_options(&mut self, options: DecodeOptions) -> (r: &mut Self)
        ensures
            r@ == old(self)@.with_decode_options(options),
            *final(self) == *final(r),
    {
        self.options.decode_options = options;
        self
    }

    /// Builds a HTTP server with the given settings, which is being bound by `binding`.
    pub fn finish<F, L>(self, binding: F) -> (r: ServerParts<F, L, T>)
        requires
            self@.wf(),
        ensures
            r.server@ == (ServerView {
                listener: Listener::<F, L>::Binding(binding, self@.bind_addr),
                routes: self@.routes,
                options: self@.options,
                stage: ServerStage::Idle,
            }),
            r.server@.wf(),
            r.handlers@ == self@.handlers,
            r.metrics == self@.metrics,
    {
        ServerParts {
            server: Server {
                listener: Listener::Binding(binding, self.bind_addr),
                dispatcher: self.dispatcher.finish(),
                options: self.options,
                stage: ServerStage::Idle,
            },
            handlers: self.handlers,
            metrics: self.metrics,
        }
    }
}

/// What a [`ServerBuilder`] makes.
#[derive(Debug)]
pub struct ServerParts<F, L, T> {
    pub server: Server<F, L>,
    /// The handlers, in the order of their registration.
    pub handlers: Vec<T>,
    /// The builder to make the metrics of the server with.
    pub metrics: MetricBuilder,
}

/// The socket of a server: `F` is the type of sockets that are being bound, `L` that of sockets
/// that listen.
#[derive(Debug)]
pub enum Listener<F, L> {
    Binding(F, SocketAddr),
    Listening(L),
}

/// Where the local address of a server is to be had.
#[derive(Debug)]
pub enum LocalAddr<'a, L> {
    /// This is the address.
    Known(SocketAddr),
    /// The socket is to be asked for it.
    Ask(&'a L),
}

/// What the socket of a server has done.
///
/// `L` is the type of sockets that listen, `S` that of streams, and `X` that of I/O errors.
#[derive(Debug)]
pub enum ListenerProgress<L, S, X> {
    /// Nothing: it is to be polled.
    Polled,
    /// Its binding was polled; `None` says that this goes on.
    Bound(Option<Result<L, X>>),
    /// It was asked for a new stream; `None` says that there is none yet.
    Accepted(Option<Result<(S, SocketAddr), X>>),
}

/// What follows for the socket of a server.
#[derive(Debug)]
pub enum ListenerStep<S, X> {
    /// Its binding is to be polled.
    PollBind,
    /// It is to be asked for a new stream.
    PollAccept,
    /// There is nothing to do until the task is woken.
    Pending,
    /// This is the next stream, or the error in place of it; `None` says that there will be no
    /// more streams.
    Next(Option<Result<(S, SocketAddr), X>>),
}

impl<F, L> Listener<F, L> {
    /// Whether `progress` fits the state of the socket.
    pub open spec fn expects<S, X>(self, progress: ListenerProgress<L, S, X>) -> bool {
        match progress {
            ListenerProgress::Polled => true,
            ListenerProgress::Bound(_) => self is Binding,
            ListenerProgress::Accepted(_) => self is Listening,
        }
    }

    /// What the socket becomes: one that listens, as soon as it is bound.
    pub open spec fn after<S, X>(self, progress: ListenerProgress<L, S, X>) -> Self {
        match progress {
            ListenerProgress::Bound(Some(Ok(listener))) => Listener::Listening(listener),
            _ => self,
        }
    }

    /// What follows for the socket.
    pub open spec fn step<S, X>(self, progress: ListenerProgress<L, S, X>) -> ListenerStep<S, X> {
        match progress {
            ListenerProgress::Polled => if self is Binding {
                ListenerStep::PollBind
            } else {
                ListenerStep::PollAccept
            },
            ListenerProgress::Bound(None) => ListenerStep::Pending,
            ListenerProgress::Bound(Some(Err(e))) => ListenerStep::Next(Some(Err(e))),
            ListenerProgress::Bound(Some(Ok(_))) => ListenerStep::PollAccept,
            ListenerProgress::Accepted(None) => ListenerStep::Pending,
            ListenerProgress::Accepted(Some(accepted)) => ListenerStep::Next(Some(accepted)),
        }
    }

    /// Takes note of what the socket has done, and says what follows.
    pub fn poll_next<S, X>(&mut self, progress: ListenerProgress<L, S, X>) -> (r: ListenerStep<S, X>)
        requires
            old(self).expects(progress),
        ensures
            *final(self) == old(self).after(progress),
            r == old(self).step(progress),
    {
        match progress {
            ListenerProgress::Polled => match self {
                Listener::Binding(..) => ListenerStep::PollBind,
                Listener::Listening(_) => ListenerStep::PollAccept,
            },
            ListenerProgress::Bound(polled) => match polled {
                None => ListenerStep::Pending,
                Some(Err(e)) => ListenerStep::Next(Some(Err(e))),
                Some(Ok(listener)) => {
                    *self = Listener::Listening(listener);
                    ListenerStep::PollAccept
                },
            },
            ListenerProgress::Accepted(polled) => match polled {
                None => ListenerStep::Pending,
                Some(accepted) => ListenerStep::Next(Some(accepted)),
            },
        }
    }

    /// Returns the address that the socket is being bound to, or else the socket, which knows its
    /// address.
    pub fn local_addr(&self) -> (r: LocalAddr<'_, L>)
        ensures
            match *self {
                Listener::Binding(_, addr) => r == LocalAddr::<L>::Known(addr),
                Listener::Listening(listener) => r == LocalAddr::<L>::Ask(&listener),
            },
    {
        match self {
            Listener::Binding(_, addr) => LocalAddr::Known(*addr),
            Listener::Listening(listener) => LocalAddr::Ask(listener),
        }
    }

    /// Returns a text that says which state the socket is in.
    pub fn debug_text(&self) -> (r: &'static str)
        ensures
            *self is Binding ==> r@ == "Listener Binding"@,
            *self is Listening ==> r@ == "Listener Listening"@,
    {
        match self {
            Listener::Binding(..) => "Listener Binding",
            Listener::Listening(..) => "Listener Listening",
        }
    }
}

/// Why a server has stopped.
#[derive(Debug)]
pub enum ServeError<X> {
    /// The socket, or a new connection, has reported an error.
    Io(X),
    /// The state of a new connection could not be made.
    Connection(ErrorKind),
}

/// What a server is told.
///
/// `L` is the type of sockets that listen, `S` that of streams, and `X` that of I/O errors.
#[derive(Debug)]
pub enum Incoming<L, S, X> {
    /// The task of the server was woken, or the socket has done something.
    Listener(ListenerProgress<L, S, X>),
    /// The stream was set up and was asked for its local address.
    Introduced(S, Result<String, X>),
    /// The connection was given a task of its own.
    Spawned,
}

/// What the owner of a server has to do next.
#[derive(Debug)]
pub enum ServerAction<S, C, X> {
    /// Poll the binding of the socket; answer with
    /// `ListenerProgress::Bound`.
    PollBind,
    /// Ask the socket for a new connection; answer with
    /// `ListenerProgress::Accepted`.
    PollAccept,
    /// Set up the stream and ask it for its local address, as text; answer with `Introduced`.
    Introduce(S, SocketAddr),
    /// Give the connection a task of its own; answer with `Spawned`.
    Spawn(S, C),
    /// Wait until the task is woken; then say so with
    /// `ListenerProgress::Polled`.
    Pending,
    /// The server is over; it is to be told nothing more.
    Ready(Result<(), ServeError<X>>),
}

/// What follows a step of the socket.
pub open spec fn after_listener<S, C, X>(step: ListenerStep<S, X>) -> ServerAction<S, C, X> {
    match step {
        ListenerStep::PollBind => ServerAction::PollBind,
        ListenerStep::PollAccept => ServerAction::PollAccept,
        ListenerStep::Pending => ServerAction::Pending,
        ListenerStep::Next(None) => ServerAction::Ready(Ok(())),
        ListenerStep::Next(Some(Err(e))) => ServerAction::Ready(Err(ServeError::Io(e))),
        ListenerStep::Next(Some(Ok((stream, addr)))) => ServerAction::Introduce(stream, addr),
    }
}

/// What follows an attempt to make a connection of a stream.
pub open spec fn after_connection<S, C, X>(stream: S, made: Result<C, ErrorKind>) -> ServerAction<
    S,
    C,
    X,
> {
    match made {
        Ok(connection) => ServerAction::Spawn(stream, connection),
        Err(kind) => ServerAction::Ready(Err(ServeError::Connection(kind))),
    }
}

/// What a server waits to be told.
#[derive(Debug, Clone, Copy, PartialEq, Eq, Structural)]
pub enum ServerStage {
    /// That its task was woken.
    Idle,
    /// The outcome of polling the binding of its socket.
    Bind,
    /// The outcome of asking its socket for a new stream.
    Accept,
    /// The local address of a new stream.
    Introduce,
    /// That a connection was given a task of its own.
    Spawn,
    /// Nothing: it is over.
    Done,
}

/// What a server waits to be told after it has asked for `action`.
pub open spec fn stage_after<S, C, X>(action: ServerAction<S, C, X>) -> ServerStage {
    match action {
        ServerAction::PollBind => ServerStage::Bind,
        ServerAction::PollAccept => ServerStage::Accept,
        ServerAction::Introduce(..) => ServerStage::Introduce,
        ServerAction::Spawn(..) => ServerStage::Spawn,
        ServerAction::Pending => ServerStage::Idle,
        ServerAction::Ready(_) => ServerStage::Done,
    }
}

/// What a [`Server`] is, to those who deal with it.
pub struct ServerView<F, L> {
    pub listener: Listener<F, L>,
    /// The routes of the handlers.
    pub routes: Seq<RouteView>,
    pub options: ServerOptions,
    pub stage: ServerStage,
}

/// HTTP server.
///
/// This is created via `ServerBuilder`.
#[derive(Debug)]
pub struct Server<F, L> {
    listener: Listener<F, L>,
    dispatcher: Dispatcher,
    options: ServerOptions,
    stage: ServerStage,
}

impl<F, L> View for Server<F, L> {
    type V = ServerView<F, L>;

    closed spec fn view(&self) -> ServerView<F, L> {
        ServerView {
            listener: self.listener,
            routes: self.dispatcher@,
            options: self.options,
            stage: self.stage,
        }
    }
}

impl<F, L> ServerView<F, L> {
    /// No two handlers have the same method and path, and the socket is in the state that the
    /// awaited outcome is about.
    pub open spec fn wf(self) -> bool {
        &&& self.routes.no_duplicates()
        &&& match self.stage {
            ServerStage::Bind => self.listener is Binding,
            ServerStage::Accept | ServerStage::Introduce | ServerStage::Spawn => self.listener
                is Listening,
            ServerStage::Idle | ServerStage::Done => true,
        }
    }

    /// Whether `incoming` is what the server waits for.
    pub open spec fn expects<S, X>(self, incoming: Incoming<L, S, X>) -> bool {
        match incoming {
            Incoming::Listener(ListenerProgress::Polled) => self.stage is Idle,
            Incoming::Listener(ListenerProgress::Bound(_)) => self.stage is Bind,
            Incoming::Listener(ListenerProgress::Accepted(_)) => self.stage is Accept,
            Incoming::Introduced(..) => self.stage is Introduce,
            Incoming::Spawned => self.stage is Spawn,
        }
    }

    /// What the socket of the server becomes.
    pub open spec fn listener_after<S, X>(self, incoming: Incoming<L, S, X>) -> Listener<F, L> {
        match incoming {
            Incoming::Listener(progress) => self.listener.after(progress),
            _ => self.listener,
        }
    }

    /// What the server becomes, and what is to be done next.
    pub open spec fn step<S, H, P, E, X>(self, incoming: Incoming<L, S, X>) -> (
        Self,
        ServerAction<S, ConnectionView<H, P, E>, X>,
    ) {
        let action = self.action::<S, H, P, E, X>(incoming);
        let next = ServerView {
            listener: self.listener_after(incoming),
            stage: stage_after(action),
            ..self
        };
        (next, action)
    }

    /// What the server becomes once its binding was polled on behalf of someone who waits for its
    /// address.
    pub open spec fn bound<X>(self, polled: Option<Result<L, X>>) -> Self {
        match polled {
            None => self,
            Some(Err(_)) => ServerView { stage: ServerStage::Done, ..self },
            Some(Ok(listener)) => ServerView { listener: Listener::Listening(listener), ..self },
        }
    }

    /// What is to be done next.
    pub open spec fn action<S, H, P, E, X>(self, incoming: Incoming<L, S, X>) -> ServerAction<
        S,
        ConnectionView<H, P, E>,
        X,
    > {
        match incoming {
            Incoming::Listener(progress) => after_listener(self.listener.step(progress)),
            Incoming::Introduced(_, Err(e)) => ServerAction::Ready(Err(ServeError::Io(e))),
            Incoming::Introduced(stream, Ok(local_addr)) => after_connection(
                stream,
                self.connects(local_addr@),
            ),
            Incoming::Spawned => after_listener(
                self.listener.step(ListenerProgress::<L, S, X>::Polled),
            ),
        }
    }

    /// The connection that is made for a stream whose local address reads `local_addr`.
    pub open spec fn connects<H, P, E>(self, local_addr: Seq<char>) -> Result<
        ConnectionView<H, P, E>,
        ErrorKind,
    > {
        match url_parsed(base_url_text(local_addr)) {
            Some(url) => Ok(
                ConnectionView::fresh(
                    seq![DecoderOp::Created(self.options.decode_options)],
                    self.routes,
                    url,
                ),
            ),
            None => Err(ErrorKind::InvalidInput),
        }
    }
}

impl<S, H, P, E, X> View for ServerAction<S, Connection<H, P, E>, X> {
    type V = ServerAction<S, ConnectionView<H, P, E>, X>;

    open spec fn view(&self) -> ServerAction<S, ConnectionView<H, P, E>, X> {
        match *self {
            ServerAction::PollBind => ServerAction::PollBind,
            ServerAction::PollAccept => ServerAction::PollAccept,
            ServerAction::Introduce(stream, addr) => ServerAction::Introduce(stream, addr),
            ServerAction::Spawn(stream, connection) => ServerAction::Spawn(stream, connection@),
            ServerAction::Pending => ServerAction::Pending,
            ServerAction::Ready(result) => ServerAction::Ready(result),
        }
    }
}

impl<F, L> Server<F, L> {
    /// Returns the address that the server is being bound to, or else its socket, which knows its
    /// address.
    pub fn local_addr_immediate(&self) -> (r: LocalAddr<'_, L>)
        ensures
            match self@.listener {
                Listener::Binding(_, addr) => r == LocalAddr::<L>::Known(addr),
                Listener::Listening(listener) => r == LocalAddr::<L>::Ask(&listener),
            },
    {
        self.listener.local_addr()
    }

    /// Takes note of how the binding of the socket goes on, for someone who waits for the address
    /// to which the server is bound. The answer is `None` while this goes on, and `Some(Ok(()))` as
    /// soon as the socket listens and can be asked for its address.
    ///
    /// # Errors
    ///
    /// If the socket cannot be bound, the answer is the error of the socket, and the server is over.
    pub fn binding_polled<X>(&mut self, polled: Option<Result<L, X>>) -> (r: Option<Result<(), X>>)
        requires
            old(self)@.wf(),
            old(self)@.stage is Idle,
            old(self)@.listener is Binding,
        ensures
            final(self)@ == old(self)@.bound(polled),
            final(self)@.wf(),
            r == match polled {
                None => None::<Result<(), X>>,
                Some(Err(e)) => Some(Err(e)),
                Some(Ok(_)) => Some(Ok(())),
            },
    {
        match self.listener.poll_next::<(), X>(ListenerProgress::Bound(polled)) {
            ListenerStep::Pending => None,
            ListenerStep::Next(Some(Err(e))) => {
                self.stage = ServerStage::Done;
                Some(Err(e))
            },
            _ => Some(Ok(())),
        }
    }

    /// Pairs the server with the address to which it is bound, which its socket was asked for.
    ///
    /// The socket has to listen: before that, it does not know its address.
    pub fn local_addr<X>(self, asked: Result<SocketAddr, X>) -> (r: Result<(Self, SocketAddr), X>)
        requires
            self@.listener is Listening,
        ensures
            match asked {
                Ok(addr) => r == Ok::<(Self, SocketAddr), X>((self, addr)),
                Err(e) => r == Err::<(Self, SocketAddr), X>(e),
            },
    {
        match asked {
            Ok(local_addr) => Ok((self, local_addr)),
            Err(e) => Err(e),
        }
    }

    /// Returns the socket that is being bound, to be polled; `None` where it listens.
    pub fn binding_mut(&mut self) -> (r: Option<&mut F>)
        ensures
            match old(self)@.listener {
                Listener::Binding(binding, addr) => {
                    &&& r is Some
                    &&& *r->Some_0 == binding
                    &&& final(self)@ == (ServerView {
                        listener: Listener::Binding(*final(r->Some_0), addr),
                        ..old(self)@
                    })
                },
                Listener::Listening(_) => r is None && final(self)@ == old(self)@,
            },
    {
        match &mut self.listener {
            Listener::Binding(binding, _) => Some(binding),
            Listener::Listening(_) => None,
        }
    }

    /// Returns the socket that listens; `None` where it is being bound.
    pub fn listening(&self) -> (r: Option<&L>)
        ensures
            match self@.listener {
                Listener::Binding(..) => r is None,
                Listener::Listening(listener) => r == Some(&listener),
            },
    {
        match &self.listener {
            Listener::Binding(..) => None,
            Listener::Listening(listener) => Some(listener),
        }
    }

    /// Returns `true` if `incoming` is what the server waits for, otherwise `false`.
    pub fn expects<S, X>(&self, incoming: &Incoming<L, S, X>) -> (r: bool)
        ensures
            r == self@.expects(*incoming),
    {
        match incoming {
            Incoming::Listener(ListenerProgress::Polled) => self.stage == ServerStage::Idle,
            Incoming::Listener(ListenerProgress::Bound(_)) => self.stage == ServerStage::Bind,
            Incoming::Listener(ListenerProgress::Accepted(_)) => self.stage == ServerStage::Accept,
            Incoming::Introduced(..) => self.stage == ServerStage::Introduce,
            Incoming::Spawned => self.stage == ServerStage::Spawn,
        }
    }

    /// Returns the settings of the server.
    pub fn options(&self) -> (r: ServerOptions)
        ensures
            r == self@.options,
    {
        self.options
    }

    /// Decides what follows a step of the socket.
    pub fn listener_polled<S, C, X>(step: ListenerStep<S, X>) -> (r: ServerAction<S, C, X>)
        ensures
            r == after_listener::<S, C, X>(step),
    {
        match step {
            ListenerStep::PollBind => ServerAction::PollBind,
            ListenerStep::PollAccept => ServerAction::PollAccept,
            ListenerStep::Pending => ServerAction::Pending,
            ListenerStep::Next(None) => ServerAction::Ready(Ok(())),
            ListenerStep::Next(Some(Err(e))) => ServerAction::Ready(Err(ServeError::Io(e))),
            ListenerStep::Next(Some(Ok((stream, addr)))) => ServerAction::Introduce(stream, addr),
        }
    }

    /// Decides what follows an attempt to make a connection of a stream.
    pub fn connection_made<S, C, X>(stream: S, made: Result<C, ErrorKind>) -> (r: ServerAction<
        S,
        C,
        X,
    >)
        ensures
            r == after_connection::<S, C, X>(stream, made),
    {
        match made {
            Ok(connection) => ServerAction::Spawn(stream, connection),
            Err(kind) => ServerAction::Ready(Err(ServeError::Connection(kind))),
        }
    }

    /// Returns what the server waits to be told after it has asked for `action`.
    fn stage_of<S, C, X>(action: &ServerAction<S, C, X>) -> (r: ServerStage)
        ensures
            r == stage_after(*action),
    {
        match action {
            ServerAction::PollBind => ServerStage::Bind,
            ServerAction::PollAccept => ServerStage::Accept,
            ServerAction::Introduce(..) => ServerStage::Introduce,
            ServerAction::Spawn(..) => ServerStage::Spawn,
            ServerAction::Pending => ServerStage::Idle,
            ServerAction::Ready(_) => ServerStage::Done,
        }
    }

    /// Takes note of what has happened, and says what is to be done next.
    pub fn poll<S, H, P, E, X>(&mut self, incoming: Incoming<L, S, X>) -> (r: ServerAction<
        S,
        Connection<H, P, E>,
        X,
    >)
        requires
            old(self)@.wf(),
            old(self)@.expects(incoming),
        ensures
            final(self)@.wf(),
            (final(self)@, r@) == old(self)@.step::<S, H, P, E, X>(incoming),
            r matches ServerAction::Spawn(_, connection) ==> connection@.wf(),
    {
        let action = match incoming {
            Incoming::Listener(progress) => {
                let step = self.listener.poll_next(progress);
                Self::listener_polled(step)
            },
            Incoming::Introduced(_, Err(e)) => ServerAction::Ready(Err(ServeError::Io(e))),
            Incoming::Introduced(stream, Ok(local_addr)) => {
                let made = Connection::new(
                    local_addr.as_str(),
                    self.dispatcher.clone(),
                    &self.options,
                );
                Self::connection_made(stream, made)
            },
            Incoming::Spawned => {
                let step = self.listener.poll_next(ListenerProgress::Polled);
                Self::listener_polled(step)
            },
        };
        self.stage = Self::stage_of(&action);
        action
    }
}

} // verus!
