//! The state machine of one connection.
//!
//! A [`Connection`] decides, and its owner acts: the owner holds the socket, the handlers, the
//! replies and the response encoders. It calls [`Connection::poll`] with what has happened, does
//! what the returned [`Action`] says, and comes back with the [`Event`] that tells the outcome.
use bytecodec::io::ReadBuf;
use vstd::prelude::*;

use crate::decoder::{
    completes, decode_head, decoder_ops, head_decoded, head_ops, head_outcome, head_rest,
    new_decoder, ops_begin, ops_cut_well, ops_fed, ops_healthy, ops_shown, ops_unstarted,
    read_buf_bytes, read_buf_eos, read_buf_sound, DecoderOp, HeadDecoder, RequestHead,
    RequestHeadView,
};
use crate::dispatcher::{chosen, Dispatcher, RouteView};
use crate::metrics::{Metric, ServerMetrics};
use crate::options::ServerOptions;
use crate::phase::{Phase, PhaseKind, ResEncoder};
use crate::request::{base_url, base_url_text, parse_url, url_joined, url_parsed, Req, ReqView};
use crate::status::{ErrorKind, Status};

verus! {

/// The state of what lies around a connection at the moment of an event.
#[derive(Debug, Clone, Copy, PartialEq, Eq, Structural)]
pub struct IoStatus {
    /// The stream has ended.
    pub eos: bool,
    /// Every byte of the write buffer has gone out.
    pub write_buf_empty: bool,
    /// The last reads and writes could not go on.
    pub would_block: bool,
    /// The server has not been dropped.
    pub server_alive: bool,
}

/// What a handler has made of the bytes that have come in.
#[derive(Debug)]
pub enum InputState<H, P> {
    /// The body cannot be decoded.
    Failed(ErrorKind),
    /// The body is not complete.
    Incomplete(H),
    /// The handler has begun to reply; the flag says whether the connection is to be closed after
    /// that.
    Replied(P, bool),
}

/// What has become of a reply.
#[derive(Debug)]
pub enum ReplyState<P, E> {
    /// The reply is not ready.
    Pending(P),
    /// The reply is the response that this encodes.
    Ready(E),
}

/// How far a response has been encoded into the write buffer.
#[derive(Debug)]
pub enum EncodeState<E> {
    /// The response cannot be encoded.
    Failed(ErrorKind),
    /// There is more to encode.
    Incomplete(ResEncoder<E>),
    /// All of the response is in the write buffer.
    Complete,
}

/// What a connection is told.
#[derive(Debug)]
pub enum Event<H, P, E> {
    /// The task of the connection was woken.
    Polled,
    /// The reads and writes that can be done without waiting were done.
    IoExecuted(Result<(), ErrorKind>),
    /// The handler was made and was given the request.
    HandlerInitialized(Result<H, ErrorKind>),
    /// The handler has looked at the read buffer.
    InputHandled(InputState<H, P>),
    /// The reply was polled.
    ReplyPolled(ReplyState<P, E>),
    /// The response was encoded as far as the write buffer has room.
    ResponseEncoded(EncodeState<E>),
}

/// What the owner of a connection has to do next.
#[derive(Debug)]
pub enum Action<Q, H, P, E> {
    /// Do the reads and writes that can be done without waiting; answer with `IoExecuted`.
    ExecuteIo,
    /// Make the handler with this number and give it the request; answer with
    /// `HandlerInitialized`.
    InitHandler(usize, Q),
    /// Let the handler look at the read buffer; answer with `InputHandled`.
    HandleInput(H),
    /// Poll the reply; answer with `ReplyPolled`.
    PollReply(P),
    /// Encode the response into the write buffer; answer with `ResponseEncoded`.
    EncodeResponse(ResEncoder<E>),
    /// Wait until the task is woken; then say so with `Polled`.
    Pending,
    /// The connection is over; it is to be told nothing more.
    Ready(Result<(), ()>),
}

impl<H, P, E> View for Action<Req, H, P, E> {
    type V = Action<ReqView, H, P, E>;

    open spec fn view(&self) -> Action<ReqView, H, P, E> {
        match *self {
            Action::ExecuteIo => Action::ExecuteIo,
            Action::InitHandler(i, req) => Action::InitHandler(i, req@),
            Action::HandleInput(handler) => Action::HandleInput(handler),
            Action::PollReply(reply) => Action::PollReply(reply),
            Action::EncodeResponse(encoder) => Action::EncodeResponse(encoder),
            Action::Pending => Action::Pending,
            Action::Ready(result) => Action::Ready(result),
        }
    }
}

/// What a connection waits to be told.
#[derive(Debug, Clone, Copy, PartialEq, Eq, Structural)]
pub enum Stage {
    /// That its task was woken.
    Idle,
    /// The outcome of reads and writes.
    Io,
    /// The outcome of making a handler.
    Init,
    /// The outcome of handling input.
    Input,
    /// The outcome of polling a reply.
    Reply,
    /// The outcome of encoding a response of a handler.
    EncodeReply,
    /// The outcome of encoding a response of the server itself.
    EncodeError,
    /// Nothing: it is over.
    Done,
}

/// What a connection is, to those who deal with it.
pub struct ConnectionView<H, P, E> {
    pub metrics: ServerMetrics,
    /// What was done with the decoder of request heads.
    pub ops: Seq<DecoderOp>,
    /// The routes of the handlers.
    pub routes: Seq<RouteView>,
    pub base_url: Seq<char>,
    pub phase: Phase<ReqView, H, P, E>,
    /// The connection is to be closed as soon as the response is written.
    pub do_close: bool,
    pub stage: Stage,
}

impl<H, P, E> ConnectionView<H, P, E> {
    /// A connection that has just been made.
    pub open spec fn fresh(ops: Seq<DecoderOp>, routes: Seq<RouteView>, base_url: Seq<char>) -> Self {
        ConnectionView {
            metrics: ServerMetrics::zero().plus(Metric::ConnectedTcpClients),
            ops,
            routes,
            base_url,
            phase: Phase::ReadRequestHead,
            do_close: false,
            stage: Stage::Idle,
        }
    }

    /// No request of the connection has failed so far.
    pub open spec fn clean(self) -> bool {
        &&& self.metrics.request_errors() == 0
        &&& ops_healthy(self.ops)
    }

    /// What holds of a connection at all times.
    pub open spec fn wf(self) -> bool {
        &&& self.routes.no_duplicates()
        &&& self.metrics.connected_tcp_clients == 1
        &&& self.metrics.disconnected_tcp_clients == (if self.stage is Done {
            1int
        } else {
            0
        })
        &&& self.metrics.write_response_errors <= (if self.stage is Done {
            1int
        } else {
            0
        })
        &&& self.metrics.request_errors() <= 1
        &&& self.metrics.request_errors() == 1 ==> self.do_close
        &&& self.metrics.request_errors() == 0 ==> ops_healthy(self.ops)
        &&& match self.stage {
            Stage::Idle | Stage::Io => self.phase_wf(),
            Stage::Init | Stage::Input => {
                &&& self.phase is Closed
                &&& !self.do_close
                &&& self.clean()
            },
            Stage::Reply | Stage::EncodeReply => self.phase is Closed && self.clean(),
            Stage::EncodeError => self.phase is Closed && self.metrics.request_errors() == 1,
            Stage::Done => true,
        }
    }

    /// What holds of a connection that no outside work is being done for.
    pub open spec fn phase_wf(self) -> bool {
        match self.phase {
            Phase::ReadRequestHead => !self.do_close && self.clean(),
            Phase::DispatchRequest(_) => !self.do_close && self.clean(),
            Phase::HandleRequest(_) => !self.do_close && self.clean(),
            Phase::PollReply(_) => self.clean(),
            Phase::WriteResponse(ResEncoder::Reply(_)) => self.clean(),
            Phase::WriteResponse(ResEncoder::Error(_)) => self.metrics.request_errors() == 1,
            Phase::Closed => self.do_close,
        }
    }

    /// Whether `event` is one that the connection waits for.
    pub open spec fn expects(self, event: Event<H, P, E>) -> bool {
        match event {
            Event::Polled => self.stage is Idle,
            Event::IoExecuted(_) => self.stage is Io,
            Event::HandlerInitialized(_) => self.stage is Init,
            Event::InputHandled(_) => self.stage is Input,
            Event::ReplyPolled(_) => self.stage is Reply,
            Event::ResponseEncoded(EncodeState::Incomplete(ResEncoder::Error(_))) => self.stage
                is EncodeError,
            Event::ResponseEncoded(EncodeState::Incomplete(ResEncoder::Reply(_))) => self.stage
                is EncodeReply,
            Event::ResponseEncoded(_) => self.stage is EncodeError || self.stage is EncodeReply,
        }
    }

    /// Whether the connection looks for a head in the read buffer on `event`.
    pub open spec fn reads_head(self, event: Event<H, P, E>) -> bool {
        event matches Event::IoExecuted(Ok(_)) && self.phase is ReadRequestHead
    }

    /// Whether the connection is over: the stream has ended, or the last response is written and
    /// has gone out, or the server is gone.
    pub open spec fn is_closed(self, io: IoStatus) -> bool {
        ||| io.eos
        ||| io.write_buf_empty && self.phase is Closed
        ||| !io.server_alive
    }

    /// `self` after a request error: the error is counted, and the connection is to be closed.
    pub open spec fn failed(self, metric: Metric) -> Self {
        ConnectionView { metrics: self.metrics.plus(metric), do_close: true, ..self }
    }

    /// `self` after the end of the connection.
    pub open spec fn disconnected(self) -> Self {
        ConnectionView {
            metrics: self.metrics.plus(Metric::DisconnectedTcpClients),
            stage: Stage::Done,
            ..self
        }
    }

    /// What follows a head that was read, given what its target was resolved to: a request to
    /// dispatch, or an answer "bad request".
    pub open spec fn after_parse(self, parsed: Option<ReqView>) -> (Self, Phase<ReqView, H, P, E>) {
        match parsed {
            Some(req) => (self, Phase::DispatchRequest(req)),
            None => (
                self.failed(Metric::ParseRequestPathErrors),
                Phase::WriteResponse(ResEncoder::Error(Status::BadRequest)),
            ),
        }
    }

    /// What follows an attempt to read a head, given its outcome and what the target of the head
    /// would be resolved to.
    pub open spec fn after_decode(
        self,
        decoded: Result<Option<RequestHeadView>, ()>,
        joined: Option<(Seq<char>, Seq<char>)>,
    ) -> (Self, Phase<ReqView, H, P, E>) {
        match decoded {
            Err(_) => (
                self.failed(Metric::ReadRequestHeadErrors),
                Phase::WriteResponse(ResEncoder::Error(Status::BadRequest)),
            ),
            Ok(None) => (self, Phase::ReadRequestHead),
            Ok(Some(head)) => self.after_parse(Req::resolved(head, joined)),
        }
    }

    /// What follows a look at the read buffer for a head.
    pub open spec fn after_read(self, bytes: Seq<u8>, eos: bool) -> (
        Self,
        Phase<ReqView, H, P, E>,
    ) {
        let outcome = head_outcome(self.ops, bytes, eos);
        let joined = match outcome {
            Ok(Some(head)) => url_joined(self.base_url, head.target),
            _ => None,
        };
        ConnectionView { ops: head_ops(self.ops, bytes, eos), ..self }.after_decode(outcome, joined)
    }

    /// A head that comes in pieces is read as if it had come at once. While `bytes` leave it
    /// incomplete, they are all taken, and nothing changes but that they were shown to the decoder.
    /// Where `bytes` complete it, the connection leaves the same bytes in the read buffer as if it
    /// had found all the pieces there, and goes on in the same way if the head was cut well.
    pub open spec fn joins_pieces(self, bytes: Seq<u8>, eos: bool) -> bool {
        let begin = ops_begin(self.ops);
        let shown = ops_shown(self.ops);
        let (next, phase) = self.after_read(bytes, eos);
        &&& forall|more: Seq<u8>, end: bool|
            !eos && #[trigger] completes(begin, shown + bytes, more, end) ==> {
                &&& next == (ConnectionView { ops: ops_fed(self.ops, bytes, eos), ..self })
                &&& phase is ReadRequestHead
                &&& head_rest(self.ops, bytes, eos) == Seq::<u8>::empty()
            }
        &&& completes(begin, shown, bytes, eos) ==> {
            let (whole, whole_phase) = ConnectionView { ops: begin, ..self }.after_read(
                shown + bytes,
                eos,
            );
            &&& ops_cut_well(ops_fed(self.ops, bytes, eos)) ==> {
                &&& next == (ConnectionView { ops: next.ops, ..whole })
                &&& phase == whole_phase
            }
            &&& head_rest(self.ops, bytes, eos) == head_rest(begin, shown + bytes, eos)
        }
    }

    /// What follows an attempt to make a handler.
    pub open spec fn after_init(self, initialized: Result<H, ErrorKind>) -> (
        Self,
        Phase<ReqView, H, P, E>,
    ) {
        match initialized {
            Ok(handler) => (self, Phase::HandleRequest(handler)),
            Err(_) => (
                self.failed(Metric::InitializeHandlerErrors),
                Phase::WriteResponse(ResEncoder::Error(Status::InternalServerError)),
            ),
        }
    }

    /// What follows the handling of input.
    pub open spec fn after_input(self, handled: InputState<H, P>) -> (
        Self,
        Phase<ReqView, H, P, E>,
    ) {
        match handled {
            InputState::Failed(_) => (
                self.failed(Metric::DecodeRequestBodyErrors),
                Phase::WriteResponse(ResEncoder::Error(Status::BadRequest)),
            ),
            InputState::Incomplete(handler) => (self, Phase::HandleRequest(handler)),
            InputState::Replied(reply, close) => (
                ConnectionView { do_close: close, ..self },
                Phase::PollReply(reply),
            ),
        }
    }

    /// The phase that follows the polling of a reply.
    pub open spec fn after_reply(polled: ReplyState<P, E>) -> Phase<ReqView, H, P, E> {
        match polled {
            ReplyState::Pending(reply) => Phase::PollReply(reply),
            ReplyState::Ready(encoder) => Phase::WriteResponse(ResEncoder::Reply(encoder)),
        }
    }

    /// The phase that follows the encoding of a response, unless that has failed.
    pub open spec fn after_encode(self, encoded: EncodeState<E>) -> Option<Phase<ReqView, H, P, E>> {
        match encoded {
            EncodeState::Failed(_) => None,
            EncodeState::Incomplete(encoder) => Some(Phase::WriteResponse(encoder)),
            EncodeState::Complete => if self.do_close {
                Some(Phase::Closed)
            } else {
                Some(Phase::ReadRequestHead)
            },
        }
    }

    /// The end of a step that began in a phase of the kind `from` and ends in `phase`: the
    /// connection is over, or goes on where there was progress or may be some, or waits.
    pub open spec fn moved(self, from: PhaseKind, phase: Phase<ReqView, H, P, E>, io: IoStatus) -> (
        Self,
        Action<ReqView, H, P, E>,
    ) {
        let next = ConnectionView { phase, ..self };
        if next.is_closed(io) {
            (next.disconnected(), Action::Ready(Ok(())))
        } else if phase.spec_kind() != from || !io.would_block {
            (ConnectionView { stage: Stage::Io, ..next }, Action::ExecuteIo)
        } else {
            (ConnectionView { stage: Stage::Idle, ..next }, Action::Pending)
        }
    }

    /// `self` while outside work is being done for it.
    pub open spec fn awaiting(self, stage: Stage) -> Self {
        ConnectionView { phase: Phase::Closed, stage, ..self }
    }

    /// What follows reads and writes that went well.
    pub open spec fn begun(self, io: IoStatus, bytes: Seq<u8>, eos: bool) -> (
        Self,
        Action<ReqView, H, P, E>,
    ) {
        match self.phase {
            Phase::ReadRequestHead => {
                let (next, phase) = self.after_read(bytes, eos);
                next.moved(PhaseKind::ReadRequestHead, phase, io)
            },
            Phase::DispatchRequest(req) => match chosen(self.routes, req.head.method, req.path) {
                Ok(i) => (self.awaiting(Stage::Init), Action::InitHandler(i as usize, req)),
                Err(status) => self.failed(Metric::DispatchRequestErrors).moved(
                    PhaseKind::DispatchRequest,
                    Phase::WriteResponse(ResEncoder::Error(status)),
                    io,
                ),
            },
            Phase::HandleRequest(handler) => (
                self.awaiting(Stage::Input),
                Action::HandleInput(handler),
            ),
            Phase::PollReply(reply) => (self.awaiting(Stage::Reply), Action::PollReply(reply)),
            Phase::WriteResponse(encoder) => (
                self.awaiting(
                    if encoder is Error {
                        Stage::EncodeError
                    } else {
                        Stage::EncodeReply
                    },
                ),
                Action::EncodeResponse(encoder),
            ),
            Phase::Closed => self.moved(PhaseKind::Closed, Phase::Closed, io),
        }
    }

    /// What an event makes of the connection, and what is to be done then.
    pub open spec fn step(self, event: Event<H, P, E>, io: IoStatus, bytes: Seq<u8>, eos: bool) -> (
        Self,
        Action<ReqView, H, P, E>,
    ) {
        match event {
            Event::Polled => if self.is_closed(io) {
                (self.disconnected(), Action::Ready(Ok(())))
            } else {
                (ConnectionView { stage: Stage::Io, ..self }, Action::ExecuteIo)
            },
            Event::IoExecuted(Err(_)) => (self.disconnected(), Action::Ready(Err(()))),
            Event::IoExecuted(Ok(_)) => self.begun(io, bytes, eos),
            Event::HandlerInitialized(initialized) => {
                let (next, phase) = self.after_init(initialized);
                next.moved(PhaseKind::DispatchRequest, phase, io)
            },
            Event::InputHandled(handled) => {
                let (next, phase) = self.after_input(handled);
                next.moved(PhaseKind::HandleRequest, phase, io)
            },
            Event::ReplyPolled(polled) => self.moved(
                PhaseKind::PollReply,
                Self::after_reply(polled),
                io,
            ),
            Event::ResponseEncoded(encoded) => match self.after_encode(encoded) {
                None => (
                    ConnectionView {
                        metrics: self.metrics.plus(Metric::WriteResponseErrors),
                        ..self
                    }.disconnected(),
                    Action::Ready(Err(())),
                ),
                Some(phase) => self.moved(PhaseKind::WriteResponse, phase, io),
            },
        }
    }
}

/// One connection of a client.
#[derive(Debug)]
pub struct Connection<H, P, E> {
    metrics: ServerMetrics,
    req_head_decoder: HeadDecoder,
    dispatcher: Dispatcher,
    base_url: String,
    phase: Phase<Req, H, P, E>,
    do_close: bool,
    stage: Stage,
}

impl<H, P, E> View for Connection<H, P, E> {
    type V = ConnectionView<H, P, E>;

    closed spec fn view(&self) -> ConnectionView<H, P, E> {
        ConnectionView {
            metrics: self.metrics,
            ops: decoder_ops(self.req_head_decoder),
            routes: self.dispatcher@,
            base_url: self.base_url@,
            phase: self.phase@,
            do_close: self.do_close,
            stage: self.stage,
        }
    }
}

impl<H, P, E> Connection<H, P, E> {
    /// Makes the state of a connection whose local address reads `local_addr`.
    ///
    /// # Errors
    ///
    /// If the address does not make a URL, the answer is `ErrorKind::InvalidInput`.
    pub fn new(local_addr: &str, dispatcher: Dispatcher, options: &ServerOptions) -> (r: Result<
        Self,
        ErrorKind,
    >)
        requires
            dispatcher.wf(),
        ensures
            match url_parsed(base_url_text(local_addr@)) {
                Some(url) => {
                    &&& r matches Ok(c)
                    &&& c@ == ConnectionView::<H, P, E>::fresh(
                        seq![DecoderOp::Created(options.decode_options)],
                        dispatcher@,
                        url,
                    )
                    &&& c@.wf()
                },
                None => r == Err::<Self, ErrorKind>(ErrorKind::InvalidInput),
            },
            r is Ok <==> url_parsed("http://"@ + local_addr@ + "/"@) is Some,
            r matches Ok(c) ==> url_parsed("http://"@ + local_addr@ + "/"@) == Some(c@.base_url),
    {
        let text = base_url(local_addr);
        match parse_url(text.as_str()) {
            Err(_) => Err(ErrorKind::InvalidInput),
            Ok(url) => Ok(Self::with_base_url(url, dispatcher, options)),
        }
    }

    /// Makes the state of a connection whose base URL is known.
    pub fn with_base_url(base_url: String, dispatcher: Dispatcher, options: &ServerOptions) -> (r:
        Self)
        requires
            dispatcher.wf(),
        ensures
            r@ == ConnectionView::<H, P, E>::fresh(
                seq![DecoderOp::Created(options.decode_options)],
                dispatcher@,
                base_url@,
            ),
            r@.wf(),
    {
        let mut metrics = ServerMetrics::new();
        metrics.increment(Metric::ConnectedTcpClients);
        Connection {
            metrics,
            req_head_decoder: new_decoder(options.decode_options),
            dispatcher,
            base_url,
            phase: Phase::ReadRequestHead,
            do_close: false,
            stage: Stage::Idle,
        }
    }

    /// Returns `true` if the connection is over, otherwise `false`.
    pub fn is_closed(&self, io: IoStatus) -> (r: bool)
        ensures
            r == self@.is_closed(io),
            r <==> io.eos || io.write_buf_empty && self@.phase is Closed || !io.server_alive,
    {
        io.eos || (io.write_buf_empty && self.phase.is_closed()) || !io.server_alive
    }

    /// Counts a request error and sees to it that the connection is closed after the answer.
    fn fail(&mut self, metric: Metric)
        requires
            old(self)@.metrics.count(metric) < u64::MAX,
        ensures
            final(self)@ == old(self)@.failed(metric),
    {
        self.metrics.increment(metric);
        self.do_close = true;
    }

    /// Looks for the head of a request in the read buffer.
    ///
    /// The head may come in pieces, one in each call.
    pub fn read_request_head(&mut self, read_buf: &mut ReadBuf<Vec<u8>>) -> (r: Phase<Req, H, P, E>)
        requires
            ops_healthy(old(self)@.ops),
            old(self)@.metrics.request_errors() < u64::MAX,
            read_buf_sound(*old(read_buf)),
        ensures
            (final(self)@, r@) == old(self)@.after_read(
                read_buf_bytes(*old(read_buf)),
                read_buf_eos(*old(read_buf)),
            ),
            r matches Phase::DispatchRequest(req) ==> {
                let fed = old(self)@.ops.push(
                    DecoderOp::Fed(read_buf_bytes(*old(read_buf)), read_buf_eos(*old(read_buf))),
                );
                &&& head_decoded(fed.push(DecoderOp::Finished)) == Some(req.head@)
                &&& url_joined(old(self)@.base_url, req.head@.target) == Some((req.url@, req.path@))
            },
            old(self)@.joins_pieces(read_buf_bytes(*old(read_buf)), read_buf_eos(*old(read_buf))),
            read_buf_sound(*final(read_buf)),
            read_buf_bytes(*final(read_buf)) == head_rest(
                old(self)@.ops,
                read_buf_bytes(*old(read_buf)),
                read_buf_eos(*old(read_buf)),
            ),
            read_buf_bytes(*final(read_buf)).is_suffix_of(read_buf_bytes(*old(read_buf))),
            read_buf_eos(*final(read_buf)) == read_buf_eos(*old(read_buf)),
            ops_healthy(final(self)@.ops) || final(self)@.metrics.request_errors()
                == old(self)@.metrics.request_errors() + 1,
            ops_unstarted(old(self)@.ops) && read_buf_bytes(*old(read_buf)).len() == 0 ==> r
                is ReadRequestHead,
    {
        let decoded = decode_head(&mut self.req_head_decoder, read_buf);
        self.request_head_decoded(decoded)
    }

    /// Decides what follows an attempt to decode the head of a request.
    pub fn request_head_decoded(&mut self, decoded: Result<Option<RequestHead>, ErrorKind>) -> (r:
        Phase<Req, H, P, E>)
        requires
            old(self)@.metrics.request_errors() < u64::MAX,
        ensures
            match decoded {
                Err(_) => (final(self)@, r@) == old(self)@.after_decode(Err(()), None),
                Ok(None) => (final(self)@, r@) == old(self)@.after_decode(Ok(None), None),
                Ok(Some(head)) => (final(self)@, r@) == old(self)@.after_decode(
                    Ok(Some(head@)),
                    url_joined(old(self)@.base_url, head@.target),
                ),
            },
    {
        match decoded {
            Err(_) => {
                self.fail(Metric::ReadRequestHeadErrors);
                Phase::WriteResponse(ResEncoder::Error(Status::BadRequest))
            },
            Ok(None) => Phase::ReadRequestHead,
            Ok(Some(head)) => {
                let parsed = Req::new(head, self.base_url.as_str());
                self.request_path_parsed(parsed)
            },
        }
    }

    /// Decides what follows an attempt to parse the path of a request.
    pub fn request_path_parsed(&mut self, parsed: Result<Req, ErrorKind>) -> (r: Phase<
        Req,
        H,
        P,
        E,
    >)
        requires
            old(self)@.metrics.request_errors() < u64::MAX,
        ensures
            match parsed {
                Err(_) => (final(self)@, r@) == old(self)@.after_parse(None),
                Ok(req) => (final(self)@, r@) == old(self)@.after_parse(Some(req@)),
            },
    {
        match parsed {
            Err(_) => {
                self.fail(Metric::ParseRequestPathErrors);
                Phase::WriteResponse(ResEncoder::Error(Status::BadRequest))
            },
            Ok(req) => Phase::DispatchRequest(req),
        }
    }

    /// Looks for the handler of a request, by its number.
    ///
    /// # Errors
    ///
    /// Where there is none, the phase in which the request is answered with an error.
    pub fn dispatch_request(&mut self, req: &Req) -> (r: Result<usize, Phase<Req, H, P, E>>)
        requires
            old(self)@.routes.no_duplicates(),
            old(self)@.metrics.request_errors() < u64::MAX,
        ensures
            match chosen(old(self)@.routes, req@.head.method, req@.path) {
                Ok(i) => {
                    &&& r == Ok::<usize, Phase<Req, H, P, E>>(i as usize)
                    &&& 0 <= i < old(self)@.routes.len()
                    &&& i <= usize::MAX
                    &&& final(self)@ == old(self)@
                },
                Err(status) => {
                    &&& r == Err::<usize, Phase<Req, H, P, E>>(
                        Phase::WriteResponse(ResEncoder::Error(status)),
                    )
                    &&& final(self)@ == old(self)@.failed(Metric::DispatchRequestErrors)
                },
            },
    {
        match self.dispatcher.dispatch(req) {
            Err(status) => {
                self.fail(Metric::DispatchRequestErrors);
                Err(Phase::WriteResponse(ResEncoder::Error(status)))
            },
            Ok(i) => Ok(i),
        }
    }

    /// Decides what follows an attempt to make a handler and to give it the request.
    pub fn handler_initialized(&mut self, initialized: Result<H, ErrorKind>) -> (r: Phase<
        Req,
        H,
        P,
        E,
    >)
        requires
            old(self)@.metrics.request_errors() < u64::MAX,
        ensures
            (final(self)@, r@) == old(self)@.after_init(initialized),
    {
        match initialized {
            Err(_) => {
                self.fail(Metric::InitializeHandlerErrors);
                Phase::WriteResponse(ResEncoder::Error(Status::InternalServerError))
            },
            Ok(handler) => Phase::HandleRequest(handler),
        }
    }

    /// Decides what follows a handler's look at the read buffer.
    pub fn handle_request(&mut self, handled: InputState<H, P>) -> (r: Phase<Req, H, P, E>)
        requires
            old(self)@.metrics.request_errors() < u64::MAX,
        ensures
            (final(self)@, r@) == old(self)@.after_input(handled),
    {
        match handled {
            InputState::Failed(_) => {
                self.fail(Metric::DecodeRequestBodyErrors);
                Phase::WriteResponse(ResEncoder::Error(Status::BadRequest))
            },
            InputState::Incomplete(handler) => Phase::HandleRequest(handler),
            InputState::Replied(reply, close) => {
                self.do_close = close;
                Phase::PollReply(reply)
            },
        }
    }

    /// Decides what follows the polling of a reply.
    pub fn poll_reply(polled: ReplyState<P, E>) -> (r: Phase<Req, H, P, E>)
        ensures
            r@ == ConnectionView::<H, P, E>::after_reply(polled),
    {
        match polled {
            ReplyState::Ready(encoder) => Phase::WriteResponse(ResEncoder::Reply(encoder)),
            ReplyState::Pending(reply) => Phase::PollReply(reply),
        }
    }

    /// Decides what follows the encoding of a response.
    ///
    /// # Errors
    ///
    /// If the response cannot be encoded, this is counted, and the answer is what the encoder has
    /// said.
    pub fn write_response(&mut self, encoded: EncodeState<E>) -> (r: Result<
        Phase<Req, H, P, E>,
        ErrorKind,
    >)
        requires
            old(self)@.metrics.write_response_errors < u64::MAX,
        ensures
            match old(self)@.after_encode(encoded) {
                Some(phase) => (r matches Ok(p) && p@ == phase) && final(self)@ == old(self)@,
                None => {
                    &&& encoded matches EncodeState::Failed(e) && r == Err::<
                        Phase<Req, H, P, E>,
                        ErrorKind,
                    >(e)
                    &&& final(self)@ == (ConnectionView {
                        metrics: old(self)@.metrics.plus(Metric::WriteResponseErrors),
                        ..old(self)@
                    })
                },
            },
    {
        match encoded {
            EncodeState::Failed(e) => {
                self.metrics.increment(Metric::WriteResponseErrors);
                Err(e)
            },
            EncodeState::Complete => if self.do_close {
                Ok(Phase::Closed)
            } else {
                Ok(Phase::ReadRequestHead)
            },
            EncodeState::Incomplete(encoder) => Ok(Phase::WriteResponse(encoder)),
        }
    }

    /// Ends the connection.
    fn disconnect(&mut self, result: Result<(), ()>) -> (r: Action<Req, H, P, E>)
        requires
            old(self)@.metrics.disconnected_tcp_clients < u64::MAX,
        ensures
            final(self)@ == old(self)@.disconnected(),
            r@ == Action::<ReqView, H, P, E>::Ready(result),
    {
        self.metrics.increment(Metric::DisconnectedTcpClients);
        self.stage = Stage::Done;
        Action::Ready(result)
    }

    /// Ends a step that began in a phase of the kind `from`.
    fn move_to(&mut self, from: PhaseKind, phase: Phase<Req, H, P, E>, io: IoStatus) -> (r: Action<
        Req,
        H,
        P,
        E,
    >)
        requires
            old(self)@.metrics.disconnected_tcp_clients < u64::MAX,
        ensures
            (final(self)@, r@) == old(self)@.moved(from, phase@, io),
    {
        let changed = phase.kind() != from;
        self.phase = phase;
        if self.is_closed(io) {
            self.disconnect(Ok(()))
        } else if changed || !io.would_block {
            self.stage = Stage::Io;
            Action::ExecuteIo
        } else {
            self.stage = Stage::Idle;
            Action::Pending
        }
    }

    /// Takes one step after reads and writes that went well.
    pub fn poll_once(&mut self, io: IoStatus, read_buf: &mut ReadBuf<Vec<u8>>) -> (r: Action<
        Req,
        H,
        P,
        E,
    >)
        requires
            old(self)@.wf(),
            old(self)@.stage is Io,
            read_buf_sound(*old(read_buf)),
        ensures
            final(self)@.wf(),
            read_buf_sound(*final(read_buf)),
            old(self)@.phase is ReadRequestHead ==> old(self)@.joins_pieces(
                read_buf_bytes(*old(read_buf)),
                read_buf_eos(*old(read_buf)),
            ),
            (final(self)@, r@) == old(self)@.begun(
                io,
                read_buf_bytes(*old(read_buf)),
                read_buf_eos(*old(read_buf)),
            ),
            old(self)@.phase is ReadRequestHead ==> read_buf_bytes(*final(read_buf)) == head_rest(
                old(self)@.ops,
                read_buf_bytes(*old(read_buf)),
                read_buf_eos(*old(read_buf)),
            ) && read_buf_eos(*final(read_buf)) == read_buf_eos(*old(read_buf)),
            !(old(self)@.phase is ReadRequestHead) ==> *final(read_buf) == *old(read_buf),
            read_buf_bytes(*final(read_buf)).is_suffix_of(read_buf_bytes(*old(read_buf))),
            old(self)@.phase is ReadRequestHead && ops_unstarted(old(self)@.ops)
                && read_buf_bytes(*old(read_buf)).len() == 0 ==> {
                &&& final(self)@.phase is ReadRequestHead
                &&& final(self)@.metrics.request_errors() == 0
            },
            r matches Action::InitHandler(i, req) ==> {
                &&& i < old(self)@.routes.len()
                &&& old(self)@.routes[i as int] == (RouteView {
                    method: req@.head.method,
                    path: req@.path,
                })
            },
    {
        match self.phase.take() {
            Phase::ReadRequestHead => {
                let phase = self.read_request_head(read_buf);
                self.move_to(PhaseKind::ReadRequestHead, phase, io)
            },
            Phase::DispatchRequest(req) => match self.dispatch_request(&req) {
                Ok(i) => {
                    self.stage = Stage::Init;
                    Action::InitHandler(i, req)
                },
                Err(phase) => self.move_to(PhaseKind::DispatchRequest, phase, io),
            },
            Phase::HandleRequest(handler) => {
                self.stage = Stage::Input;
                Action::HandleInput(handler)
            },
            Phase::PollReply(reply) => {
                self.stage = Stage::Reply;
                Action::PollReply(reply)
            },
            Phase::WriteResponse(encoder) => {
                self.stage = match encoder {
                    ResEncoder::Error(_) => Stage::EncodeError,
                    ResEncoder::Reply(_) => Stage::EncodeReply,
                };
                Action::EncodeResponse(encoder)
            },
            Phase::Closed => self.move_to(PhaseKind::Closed, Phase::Closed, io),
        }
    }

    /// Takes note of an event, and says what is to be done next.
    pub fn poll(&mut self, event: Event<H, P, E>, io: IoStatus, read_buf: &mut ReadBuf<Vec<u8>>) -> (r:
        Action<Req, H, P, E>)
        requires
            old(self)@.wf(),
            old(self)@.expects(event),
            read_buf_sound(*old(read_buf)),
        ensures
            final(self)@.wf(),
            read_buf_sound(*final(read_buf)),
            old(self)@.reads_head(event) ==> old(self)@.joins_pieces(
                read_buf_bytes(*old(read_buf)),
                read_buf_eos(*old(read_buf)),
            ),
            (final(self)@, r@) == old(self)@.step(
                event,
                io,
                read_buf_bytes(*old(read_buf)),
                read_buf_eos(*old(read_buf)),
            ),
            old(self)@.reads_head(event) ==> {
                &&& read_buf_bytes(*final(read_buf)) == head_rest(
                    old(self)@.ops,
                    read_buf_bytes(*old(read_buf)),
                    read_buf_eos(*old(read_buf)),
                )
                &&& read_buf_eos(*final(read_buf)) == read_buf_eos(*old(read_buf))
            },
            !old(self)@.reads_head(event) ==> *final(read_buf) == *old(read_buf),
            read_buf_bytes(*final(read_buf)).is_suffix_of(read_buf_bytes(*old(read_buf))),
            old(self)@.reads_head(event) && ops_unstarted(old(self)@.ops) && read_buf_bytes(*old(read_buf)).len() == 0 ==> {
                &&& final(self)@.phase is ReadRequestHead
                &&& final(self)@.metrics.request_errors() == 0
            },
            r matches Action::InitHandler(i, req) ==> {
                &&& i < old(self)@.routes.len()
                &&& old(self)@.routes[i as int] == (RouteView {
                    method: req@.head.method,
                    path: req@.path,
                })
            },
    {
        match event {
            Event::Polled => if self.is_closed(io) {
                self.disconnect(Ok(()))
            } else {
                self.stage = Stage::Io;
                Action::ExecuteIo
            },
            Event::IoExecuted(result) => match result {
                Err(_) => self.disconnect(Err(())),
                Ok(()) => self.poll_once(io, read_buf),
            },
            Event::HandlerInitialized(initialized) => {
                let phase = self.handler_initialized(initialized);
                self.move_to(PhaseKind::DispatchRequest, phase, io)
            },
            Event::InputHandled(handled) => {
                let phase = self.handle_request(handled);
                self.move_to(PhaseKind::HandleRequest, phase, io)
            },
            Event::ReplyPolled(polled) => {
                let phase = Self::poll_reply(polled);
                self.move_to(PhaseKind::PollReply, phase, io)
            },
            Event::ResponseEncoded(encoded) => match self.write_response(encoded) {
                Ok(phase) => self.move_to(PhaseKind::WriteResponse, phase, io),
                Err(_) => self.disconnect(Err(())),
            },
        }
    }

    /// Returns `true` if `event` is one that the connection waits for, otherwise `false`.
    pub fn expects(&self, event: &Event<H, P, E>) -> (r: bool)
        ensures
            r == self@.expects(*event),
    {
        match event {
            Event::Polled => self.stage == Stage::Idle,
            Event::IoExecuted(_) => self.stage == Stage::Io,
            Event::HandlerInitialized(_) => self.stage == Stage::Init,
            Event::InputHandled(_) => self.stage == Stage::Input,
            Event::ReplyPolled(_) => self.stage == Stage::Reply,
            Event::ResponseEncoded(EncodeState::Incomplete(ResEncoder::Error(_))) => self.stage
                == Stage::EncodeError,
            Event::ResponseEncoded(EncodeState::Incomplete(ResEncoder::Reply(_))) => self.stage
                == Stage::EncodeReply,
            Event::ResponseEncoded(_) => self.stage == Stage::EncodeError || self.stage
                == Stage::EncodeReply,
        }
    }

    /// Returns what has been counted on this connection.
    pub fn metrics(&self) -> (r: ServerMetrics)
        ensures
            r == self@.metrics,
    {
        self.metrics
    }

    /// Returns which phase the connection is in.
    pub fn phase_kind(&self) -> (r: PhaseKind)
        ensures
            r == self@.phase.spec_kind(),
    {
        self.phase.kind()
    }

    /// Returns whether the connection is to be closed as soon as the response is written.
    pub fn do_close(&self) -> (r: bool)
        ensures
            r == self@.do_close,
    {
        self.do_close
    }
}

} // verus!
