//! What holds of connections, servers and builders across calls.
use vstd::prelude::*;

use crate::connection::{Action, ConnectionView, EncodeState, Event, IoStatus, Stage};
use crate::decoder::{
    completes, head_ops, head_outcome, head_rest, ops_begin, ops_cut_well, ops_fed, ops_healthy,
    ops_shown, DecoderOp,
};
use crate::dispatcher::{chosen, RouteView};
use crate::metrics::{Metric, ServerMetrics};
use crate::options::DecodeOptions;
use crate::phase::{Phase, PhaseKind, ResEncoder};
use crate::request::{url_parsed, ReqView};
use crate::server::{
    Incoming, Listener, ListenerProgress, ServerAction, ServerBuilderView, ServerStage, ServerView,
};
use crate::status::Status;

verus! {

/// What a connection is told at one time.
pub struct Input<H, P, E> {
    pub event: Event<H, P, E>,
    pub io: IoStatus,
    /// The unread bytes of the read buffer.
    pub bytes: Seq<u8>,
    /// Whether the stream ends behind them.
    pub eos: bool,
}

/// What a connection becomes in the course of a run.
pub open spec fn run<H, P, E>(
    start: ConnectionView<H, P, E>,
    inputs: Seq<Input<H, P, E>>,
) -> ConnectionView<H, P, E>
    decreases inputs.len(),
{
    if inputs.len() == 0 {
        start
    } else {
        let last = inputs.last();
        run(start, inputs.drop_last()).step(last.event, last.io, last.bytes, last.eos).0
    }
}

/// Whether the connection waits for each event of a run when it comes.
pub open spec fn accepted<H, P, E>(
    start: ConnectionView<H, P, E>,
    inputs: Seq<Input<H, P, E>>,
) -> bool
    decreases inputs.len(),
{
    inputs.len() == 0 || {
        &&& accepted(start, inputs.drop_last())
        &&& run(start, inputs.drop_last()).expects(inputs.last().event)
    }
}

proof fn lemma_push_healthy(ops: Seq<DecoderOp>, op: DecoderOp)
    requires
        ops_healthy(ops),
        !(op is Failed),
    ensures
        ops_healthy(ops.push(op)),
{
}

proof fn lemma_head_ops_healthy(ops: Seq<DecoderOp>, bytes: Seq<u8>, eos: bool)
    requires
        ops_healthy(ops),
        head_outcome(ops, bytes, eos) is Ok,
    ensures
        ops_healthy(head_ops(ops, bytes, eos)),
{
    let fed = ops.push(DecoderOp::Fed(bytes, eos));
    lemma_push_healthy(ops, DecoderOp::Fed(bytes, eos));
    lemma_push_healthy(fed, DecoderOp::Finished);
}

/// An event that a connection waits for leaves it in order.
pub proof fn law_step_keeps_order<H, P, E>(
    connection: ConnectionView<H, P, E>,
    event: Event<H, P, E>,
    io: IoStatus,
    bytes: Seq<u8>,
    eos: bool,
)
    requires
        connection.wf(),
        connection.expects(event),
    ensures
        connection.step(event, io, bytes, eos).0.wf(),
{
    if connection.reads_head(event) && head_outcome(connection.ops, bytes, eos) is Ok {
        lemma_head_ops_healthy(connection.ops, bytes, eos);
    }
}

/// However a run goes on, a connection that was in order stays in order.
pub proof fn law_run_keeps_order<H, P, E>(
    start: ConnectionView<H, P, E>,
    inputs: Seq<Input<H, P, E>>,
)
    requires
        start.wf(),
        accepted(start, inputs),
    ensures
        run(start, inputs).wf(),
    decreases inputs.len(),
{
    if inputs.len() > 0 {
        let last = inputs.last();
        law_run_keeps_order(start, inputs.drop_last());
        law_step_keeps_order(
            run(start, inputs.drop_last()),
            last.event,
            last.io,
            last.bytes,
            last.eos,
        );
    }
}

/// A client is counted as connected once, and as disconnected once its connection is over and not
/// before. At most one request of a connection fails, and at most one response cannot be written.
pub proof fn law_run_counts<H, P, E>(
    ops: Seq<DecoderOp>,
    routes: Seq<RouteView>,
    base_url: Seq<char>,
    inputs: Seq<Input<H, P, E>>,
)
    requires
        ops_healthy(ops),
        routes.no_duplicates(),
        accepted(ConnectionView::<H, P, E>::fresh(ops, routes, base_url), inputs),
    ensures
        ({
            let end = run(ConnectionView::<H, P, E>::fresh(ops, routes, base_url), inputs);
            &&& end.metrics.connected_tcp_clients == 1
            &&& end.metrics.disconnected_tcp_clients == (if end.stage is Done {
                1int
            } else {
                0
            })
            &&& end.metrics.request_errors() <= 1
            &&& end.metrics.write_response_errors <= 1
        }),
{
    law_run_keeps_order(ConnectionView::<H, P, E>::fresh(ops, routes, base_url), inputs);
}

/// A connection keeps its handlers and its base URL.
pub proof fn law_run_keeps_settings<H, P, E>(
    start: ConnectionView<H, P, E>,
    inputs: Seq<Input<H, P, E>>,
)
    ensures
        run(start, inputs).routes == start.routes,
        run(start, inputs).base_url == start.base_url,
    decreases inputs.len(),
{
    if inputs.len() > 0 {
        law_run_keeps_settings(start, inputs.drop_last());
    }
}

proof fn lemma_at_most_trans(a: ServerMetrics, b: ServerMetrics, c: ServerMetrics)
    requires
        a.at_most(b),
        b.at_most(c),
    ensures
        a.at_most(c),
{
    assert forall|metric: Metric| #[trigger] a.count(metric) <= c.count(metric) by {
        assert(a.count(metric) <= b.count(metric));
        assert(b.count(metric) <= c.count(metric));
    }
}

proof fn lemma_moved_counts<H, P, E>(
    connection: ConnectionView<H, P, E>,
    from: PhaseKind,
    phase: Phase<ReqView, H, P, E>,
    io: IoStatus,
)
    requires
        connection.metrics.disconnected_tcp_clients == 0,
    ensures
        connection.metrics.at_most(connection.moved(from, phase, io).0.metrics),
{
}

/// No event that a connection waits for makes a count go down.
pub proof fn law_step_counts_never_fall<H, P, E>(
    connection: ConnectionView<H, P, E>,
    event: Event<H, P, E>,
    io: IoStatus,
    bytes: Seq<u8>,
    eos: bool,
)
    requires
        connection.wf(),
        connection.expects(event),
    ensures
        connection.metrics.at_most(connection.step(event, io, bytes, eos).0.metrics),
{
    let metrics = connection.metrics;
    let after = connection.step(event, io, bytes, eos).0.metrics;
    match event {
        Event::IoExecuted(Ok(_)) => match connection.phase {
            Phase::ReadRequestHead => {
                let (next, phase) = connection.after_read(bytes, eos);
                assert(metrics.at_most(next.metrics));
                lemma_moved_counts(next, PhaseKind::ReadRequestHead, phase, io);
                lemma_at_most_trans(metrics, next.metrics, after);
            },
            Phase::DispatchRequest(req) => {
                if let Err(status) = chosen(connection.routes, req.head.method, req.path) {
                    let next = connection.failed(Metric::DispatchRequestErrors);
                    let phase = Phase::WriteResponse(ResEncoder::Error(status));
                    assert(metrics.at_most(next.metrics));
                    lemma_moved_counts(next, PhaseKind::DispatchRequest, phase, io);
                    lemma_at_most_trans(metrics, next.metrics, after);
                }
            },
            _ => {},
        },
        Event::HandlerInitialized(initialized) => {
            let (next, phase) = connection.after_init(initialized);
            assert(metrics.at_most(next.metrics));
            lemma_moved_counts(next, PhaseKind::DispatchRequest, phase, io);
            lemma_at_most_trans(metrics, next.metrics, after);
        },
        Event::InputHandled(handled) => {
            let (next, phase) = connection.after_input(handled);
            assert(metrics.at_most(next.metrics));
            lemma_moved_counts(next, PhaseKind::HandleRequest, phase, io);
            lemma_at_most_trans(metrics, next.metrics, after);
        },
        Event::ResponseEncoded(EncodeState::Failed(_)) => {
            let next = metrics.plus(Metric::WriteResponseErrors);
            assert(metrics.at_most(next));
            assert(next.at_most(after));
            lemma_at_most_trans(metrics, next, after);
        },
        _ => {},
    }
}

/// However a run goes on, no count ever goes down.
pub proof fn law_run_counts_never_fall<H, P, E>(
    start: ConnectionView<H, P, E>,
    inputs: Seq<Input<H, P, E>>,
)
    requires
        start.wf(),
        accepted(start, inputs),
    ensures
        start.metrics.at_most(run(start, inputs).metrics),
    decreases inputs.len(),
{
    if inputs.len() > 0 {
        let last = inputs.last();
        let before = run(start, inputs.drop_last());
        law_run_counts_never_fall(start, inputs.drop_last());
        law_run_keeps_order(start, inputs.drop_last());
        law_step_counts_never_fall(before, last.event, last.io, last.bytes, last.eos);
        lemma_at_most_trans(start.metrics, before.metrics, run(start, inputs).metrics);
    }
}

/// A connection is over exactly when its owner is told so, and is then told nothing more. It ends
/// with an error exactly where reads, writes or the encoding of a response have failed, and
/// without one only where it is closed; it waits, or goes on with reads and writes, only where it
/// is not.
pub proof fn law_ready_is_the_end<H, P, E>(
    connection: ConnectionView<H, P, E>,
    event: Event<H, P, E>,
    io: IoStatus,
    bytes: Seq<u8>,
    eos: bool,
)
    requires
        connection.wf(),
        connection.expects(event),
    ensures
        ({
            let (next, action) = connection.step(event, io, bytes, eos);
            &&& action is Ready <==> next.stage is Done
            &&& action == Action::<ReqView, H, P, E>::Ready(Ok(())) ==> next.is_closed(io)
            &&& action is ExecuteIo || action is Pending ==> !next.is_closed(io)
            &&& next.stage is Done ==> forall|later: Event<H, P, E>| !next.expects(later)
            &&& action == Action::<ReqView, H, P, E>::Ready(Err(())) <==> {
                ||| event matches Event::IoExecuted(Err(_))
                ||| event matches Event::ResponseEncoded(EncodeState::Failed(_))
            }
        }),
{
}

/// The status that a request is answered with where `event` makes it fail.
pub open spec fn error_status<H, P, E>(
    connection: ConnectionView<H, P, E>,
    event: Event<H, P, E>,
) -> Status {
    match event {
        Event::HandlerInitialized(_) => Status::InternalServerError,
        Event::IoExecuted(_) => match connection.phase {
            Phase::DispatchRequest(req) => match chosen(
                connection.routes,
                req.head.method,
                req.path,
            ) {
                Err(status) => status,
                Ok(_) => Status::BadRequest,
            },
            _ => Status::BadRequest,
        },
        _ => Status::BadRequest,
    }
}

/// Every request that fails is answered with the status of its error, and the connection is to be
/// closed after that.
pub proof fn law_failure_is_answered<H, P, E>(
    connection: ConnectionView<H, P, E>,
    event: Event<H, P, E>,
    io: IoStatus,
    bytes: Seq<u8>,
    eos: bool,
)
    requires
        connection.wf(),
        connection.expects(event),
        connection.step(event, io, bytes, eos).0.metrics.request_errors()
            != connection.metrics.request_errors(),
    ensures
        ({
            let next = connection.step(event, io, bytes, eos).0;
            &&& next.phase == Phase::<ReqView, H, P, E>::WriteResponse(
                ResEncoder::Error(error_status(connection, event)),
            )
            &&& next.do_close
        }),
{
}

/// After a request has failed, a connection does nothing but answer it and close: it reads no
/// further request, and calls on no handler.
pub proof fn law_failure_is_the_last<H, P, E>(
    start: ConnectionView<H, P, E>,
    inputs: Seq<Input<H, P, E>>,
)
    requires
        start.wf(),
        start.metrics.request_errors() == 1,
        accepted(start, inputs),
    ensures
        ({
            let end = run(start, inputs);
            &&& end.metrics.request_errors() == 1
            &&& end.do_close
            &&& match end.stage {
                Stage::Idle | Stage::Io => {
                    ||| end.phase matches Phase::WriteResponse(ResEncoder::Error(_))
                    ||| end.phase is Closed
                },
                Stage::EncodeError | Stage::Done => true,
                _ => false,
            }
        }),
{
    law_run_keeps_order(start, inputs);
    law_run_counts_never_fall(start, inputs);
    let before = start.metrics;
    let after = run(start, inputs).metrics;
    assert(before.count(Metric::ReadRequestHeadErrors) <= after.count(
        Metric::ReadRequestHeadErrors,
    ));
    assert(before.count(Metric::ParseRequestPathErrors) <= after.count(
        Metric::ParseRequestPathErrors,
    ));
    assert(before.count(Metric::DispatchRequestErrors) <= after.count(
        Metric::DispatchRequestErrors,
    ));
    assert(before.count(Metric::InitializeHandlerErrors) <= after.count(
        Metric::InitializeHandlerErrors,
    ));
    assert(before.count(Metric::DecodeRequestBodyErrors) <= after.count(
        Metric::DecodeRequestBodyErrors,
    ));
}

/// Once a response is written, the connection is closed if it is to be closed, and otherwise turns
/// to the next request.
pub proof fn law_response_ends_the_request<H, P, E>(
    connection: ConnectionView<H, P, E>,
    io: IoStatus,
    bytes: Seq<u8>,
    eos: bool,
)
    requires
        connection.wf(),
        connection.expects(Event::ResponseEncoded(EncodeState::Complete)),
    ensures
        ({
            let (next, action) = connection.step(
                Event::ResponseEncoded(EncodeState::Complete),
                io,
                bytes,
                eos,
            );
            &&& next.phase == if connection.do_close {
                Phase::<ReqView, H, P, E>::Closed
            } else {
                Phase::<ReqView, H, P, E>::ReadRequestHead
            }
            &&& connection.do_close && io.write_buf_empty ==> action == Action::<
                ReqView,
                H,
                P,
                E,
            >::Ready(Ok(()))
            &&& !connection.do_close && !io.eos && io.server_alive ==> action is ExecuteIo
        }),
{
}

/// A connection that is closed stays closed: whatever comes, it only waits for its last bytes to
/// go out.
pub proof fn law_closed_stays_closed<H, P, E>(
    start: ConnectionView<H, P, E>,
    inputs: Seq<Input<H, P, E>>,
)
    requires
        start.wf(),
        start.phase is Closed,
        start.stage is Idle || start.stage is Io,
        accepted(start, inputs),
    ensures
        ({
            let end = run(start, inputs);
            &&& end.phase is Closed
            &&& end.stage is Idle || end.stage is Io || end.stage is Done
        }),
    decreases inputs.len(),
{
    if inputs.len() > 0 {
        law_closed_stays_closed(start, inputs.drop_last());
    }
}

/// Once the server is dropped, no connection waits or goes on with its reads and writes: it ends
/// at once, or as soon as the outside work that is due has been reported.
pub proof fn law_dropped_server_ends_connections<H, P, E>(
    connection: ConnectionView<H, P, E>,
    event: Event<H, P, E>,
    io: IoStatus,
    bytes: Seq<u8>,
    eos: bool,
)
    requires
        connection.wf(),
        connection.expects(event),
        !io.server_alive,
    ensures
        ({
            let (next, action) = connection.step(event, io, bytes, eos);
            &&& !(action is ExecuteIo)
            &&& !(action is Pending)
            &&& !(event is IoExecuted) ==> action is Ready
            &&& event is Polled ==> action == Action::<ReqView, H, P, E>::Ready(Ok(()))
        }),
{
}

/// A connection waits only where it is not over, its last step has changed nothing but what the
/// phase holds, and reads and writes could not go on.
pub proof fn law_waits_only_when_blocked<H, P, E>(
    connection: ConnectionView<H, P, E>,
    event: Event<H, P, E>,
    io: IoStatus,
    bytes: Seq<u8>,
    eos: bool,
)
    requires
        connection.wf(),
        connection.expects(event),
        connection.step(event, io, bytes, eos).1 is Pending,
    ensures
        ({
            let next = connection.step(event, io, bytes, eos).0;
            &&& io.would_block
            &&& !next.is_closed(io)
            &&& next.phase.spec_kind() == phase_before(connection, event)
            &&& next.stage is Idle
        }),
{
}

/// The kind of the phase that the step of `event` began in.
pub open spec fn phase_before<H, P, E>(
    connection: ConnectionView<H, P, E>,
    event: Event<H, P, E>,
) -> PhaseKind {
    match event {
        Event::Polled => connection.phase.spec_kind(),
        Event::IoExecuted(_) => connection.phase.spec_kind(),
        Event::HandlerInitialized(_) => PhaseKind::DispatchRequest,
        Event::InputHandled(_) => PhaseKind::HandleRequest,
        Event::ReplyPolled(_) => PhaseKind::PollReply,
        Event::ResponseEncoded(_) => PhaseKind::WriteResponse,
    }
}

/// Which phases a phase may be followed by.
pub open spec fn may_follow(before: PhaseKind, after: PhaseKind) -> bool {
    ||| after == before && before != PhaseKind::DispatchRequest
    ||| match before {
        PhaseKind::ReadRequestHead => after == PhaseKind::DispatchRequest || after
            == PhaseKind::WriteResponse,
        PhaseKind::DispatchRequest => after == PhaseKind::HandleRequest || after
            == PhaseKind::WriteResponse,
        PhaseKind::HandleRequest => after == PhaseKind::PollReply || after
            == PhaseKind::WriteResponse,
        PhaseKind::PollReply => after == PhaseKind::WriteResponse,
        PhaseKind::WriteResponse => after == PhaseKind::ReadRequestHead || after
            == PhaseKind::Closed,
        PhaseKind::Closed => false,
    }
}

/// A connection goes through its phases in order: the head, the choice of a handler, the body, the
/// reply, the response, and then the next head or the end; an error leads to the response.
pub proof fn law_phases_come_in_order<H, P, E>(
    connection: ConnectionView<H, P, E>,
    event: Event<H, P, E>,
    io: IoStatus,
    bytes: Seq<u8>,
    eos: bool,
)
    requires
        connection.wf(),
        connection.expects(event),
        !(event is Polled),
    ensures
        ({
            let next = connection.step(event, io, bytes, eos).0;
            next.stage is Idle || next.stage is Io ==> may_follow(
                phase_before(connection, event),
                next.phase.spec_kind(),
            )
        }),
{
}

/// A head that comes in pieces gives the request of the whole head. Whatever has come of it before,
/// a piece that leaves it incomplete is taken and changes nothing that is counted; with the piece
/// that completes it the connection goes on as it does where it finds the whole head at once, and
/// what stays in the read buffer is the same. The head must not be cut between a carriage return and
/// a blank.
///
/// That pieces are joined is what `Connection::read_request_head` ensures of each of its calls.
pub proof fn law_head_may_come_in_pieces<H, P, E>(
    start: ConnectionView<H, P, E>,
    first: Seq<u8>,
    second: Seq<u8>,
    eos: bool,
)
    requires
        start.joins_pieces(first, false),
        start.after_read(first, false).0.joins_pieces(second, eos),
        completes(ops_begin(start.ops), ops_shown(start.ops) + first, second, eos),
        ops_cut_well(ops_fed(ops_fed(start.ops, first, false), second, eos)),
    ensures
        ({
            let begin = ops_begin(start.ops);
            let bytes = ops_shown(start.ops) + first + second;
            let (middle, waiting) = start.after_read(first, false);
            let (end, phase) = middle.after_read(second, eos);
            let (whole, whole_phase) = ConnectionView { ops: begin, ..start }.after_read(bytes, eos);
            &&& waiting is ReadRequestHead
            &&& middle == (ConnectionView { ops: middle.ops, ..start })
            &&& head_rest(start.ops, first, false) == Seq::<u8>::empty()
            &&& phase == whole_phase
            &&& end == (ConnectionView { ops: end.ops, ..whole })
            &&& head_rest(middle.ops, second, eos) == head_rest(begin, bytes, eos)
            &&& phase is DispatchRequest ==> end == (ConnectionView { ops: end.ops, ..start })
        }),
{
    let middle = start.after_read(first, false).0;
    assert(middle.ops.drop_last() =~= start.ops);
    assert(ops_shown(middle.ops) == ops_shown(start.ops) + first);
    assert(ops_begin(middle.ops) == ops_begin(start.ops));
}

/// A request is given to the handler that is registered under its method and path.
pub proof fn law_request_reaches_its_handler<H, P, E>(
    connection: ConnectionView<H, P, E>,
    req: ReqView,
    i: int,
    io: IoStatus,
    bytes: Seq<u8>,
    eos: bool,
)
    requires
        connection.wf(),
        connection.stage is Io,
        connection.phase == Phase::<ReqView, H, P, E>::DispatchRequest(req),
        0 <= i < connection.routes.len(),
        connection.routes[i] == (RouteView { method: req.head.method, path: req.path }),
    ensures
        connection.step(Event::IoExecuted(Ok(())), io, bytes, eos) == (
            ConnectionView { phase: Phase::Closed, stage: Stage::Init, ..connection },
            Action::<ReqView, H, P, E>::InitHandler(i as usize, req),
        ),
{
    let route = RouteView { method: req.head.method, path: req.path };
    let k = choose|k: int| 0 <= k < connection.routes.len() && connection.routes[k] == route;
    assert(k == i);
}

/// A socket that listens goes on listening, and one that is being bound keeps its address until it
/// listens.
pub proof fn law_listener_never_goes_back<F, L, S, X>(
    listener: Listener<F, L>,
    progress: ListenerProgress<L, S, X>,
)
    requires
        listener.expects(progress),
    ensures
        listener is Listening ==> listener.after(progress) == listener,
        listener matches Listener::Binding(_, addr) ==> (listener.after(progress)
            == listener || listener.after(progress) is Listening),
{
}

/// What a server becomes in the course of a run, and what it has asked for on the way.
pub open spec fn server_run<F, L, S, H, P, E, X>(
    start: ServerView<F, L>,
    incoming: Seq<Incoming<L, S, X>>,
) -> (ServerView<F, L>, Seq<ServerAction<S, ConnectionView<H, P, E>, X>>)
    decreases incoming.len(),
{
    if incoming.len() == 0 {
        (start, Seq::empty())
    } else {
        let (server, actions) = server_run::<F, L, S, H, P, E, X>(start, incoming.drop_last());
        let (next, action) = server.step::<S, H, P, E, X>(incoming.last());
        (next, actions.push(action))
    }
}

/// Whether the server waits for each thing that it is told in a run, and whether it is handed back
/// each stream that it has asked to be introduced to.
pub open spec fn server_accepted<F, L, S, H, P, E, X>(
    start: ServerView<F, L>,
    incoming: Seq<Incoming<L, S, X>>,
) -> bool
    decreases incoming.len(),
{
    incoming.len() == 0 || {
        let (server, actions) = server_run::<F, L, S, H, P, E, X>(start, incoming.drop_last());
        &&& server_accepted::<F, L, S, H, P, E, X>(start, incoming.drop_last())
        &&& server.expects(incoming.last())
        &&& incoming.last() matches Incoming::Introduced(stream, _) ==> (actions.last() matches
            ServerAction::Introduce(asked, _) && asked == stream)
    }
}

/// The streams that the socket has given in a run, in order.
pub open spec fn streams_accepted<L, S, X>(incoming: Seq<Incoming<L, S, X>>) -> Seq<S>
    decreases incoming.len(),
{
    if incoming.len() == 0 {
        Seq::empty()
    } else {
        let before = streams_accepted(incoming.drop_last());
        match incoming.last() {
            Incoming::Listener(ListenerProgress::Accepted(Some(Ok((stream, _))))) => before.push(
                stream,
            ),
            _ => before,
        }
    }
}

/// The streams that the server has asked to be introduced to, in order.
pub open spec fn streams_introduced<S, C, X>(actions: Seq<ServerAction<S, C, X>>) -> Seq<S>
    decreases actions.len(),
{
    if actions.len() == 0 {
        Seq::empty()
    } else {
        let before = streams_introduced(actions.drop_last());
        match actions.last() {
            ServerAction::Introduce(stream, _) => before.push(stream),
            _ => before,
        }
    }
}

/// The streams that were given a task of their own, in order.
pub open spec fn streams_spawned<S, C, X>(actions: Seq<ServerAction<S, C, X>>) -> Seq<S>
    decreases actions.len(),
{
    if actions.len() == 0 {
        Seq::empty()
    } else {
        let before = streams_spawned(actions.drop_last());
        match actions.last() {
            ServerAction::Spawn(stream, _) => before.push(stream),
            _ => before,
        }
    }
}

/// The connections that were given a task of their own, in order.
pub open spec fn connections_spawned<S, C, X>(actions: Seq<ServerAction<S, C, X>>) -> Seq<C>
    decreases actions.len(),
{
    if actions.len() == 0 {
        Seq::empty()
    } else {
        let before = connections_spawned(actions.drop_last());
        match actions.last() {
            ServerAction::Spawn(_, connection) => before.push(connection),
            _ => before,
        }
    }
}

/// However a run goes on, a server that was in order stays in order, and keeps its handlers and its
/// settings.
pub proof fn law_server_run_keeps_order<F, L, S, H, P, E, X>(
    start: ServerView<F, L>,
    incoming: Seq<Incoming<L, S, X>>,
)
    requires
        start.wf(),
        server_accepted::<F, L, S, H, P, E, X>(start, incoming),
    ensures
        ({
            let end = server_run::<F, L, S, H, P, E, X>(start, incoming).0;
            &&& end.wf()
            &&& end.routes == start.routes
            &&& end.options == start.options
        }),
    decreases incoming.len(),
{
    if incoming.len() > 0 {
        law_server_run_keeps_order::<F, L, S, H, P, E, X>(start, incoming.drop_last());
    }
}

/// Each stream that the socket gives is introduced exactly once, in the order in which they came.
/// Each is then given a task of its own, exactly once and in the same order, before the next one is
/// accepted: only the last one may still be waiting for that, or have made the server stop.
pub proof fn law_accepted_streams_are_spawned_once<F, L, S, H, P, E, X>(
    start: ServerView<F, L>,
    incoming: Seq<Incoming<L, S, X>>,
)
    requires
        start.wf(),
        start.stage is Idle,
        server_accepted::<F, L, S, H, P, E, X>(start, incoming),
    ensures
        ({
            let (end, actions) = server_run::<F, L, S, H, P, E, X>(start, incoming);
            let accepted = streams_accepted(incoming);
            let spawned = streams_spawned(actions);
            &&& streams_introduced(actions) == accepted
            &&& match end.stage {
                ServerStage::Introduce => accepted.len() > 0 && spawned == accepted.drop_last(),
                ServerStage::Done => spawned == accepted || accepted.len() > 0 && spawned
                    == accepted.drop_last(),
                _ => spawned == accepted,
            }
        }),
    decreases incoming.len(),
{
    if incoming.len() > 0 {
        law_accepted_streams_are_spawned_once::<F, L, S, H, P, E, X>(start, incoming.drop_last());
        law_server_run_keeps_order::<F, L, S, H, P, E, X>(start, incoming.drop_last());
        let (before, asked) = server_run::<F, L, S, H, P, E, X>(start, incoming.drop_last());
        let actions = server_run::<F, L, S, H, P, E, X>(start, incoming).1;
        assert(actions.drop_last() =~= asked);
        let accepted = streams_accepted(incoming.drop_last());
        match incoming.last() {
            Incoming::Introduced(stream, _) => {
                assert(asked.len() > 0);
                assert(accepted.last() == stream);
                assert(accepted.drop_last().push(stream) =~= accepted);
            },
            Incoming::Listener(ListenerProgress::Accepted(Some(Ok((stream, _))))) => {
                assert(accepted.push(stream).drop_last() =~= accepted);
            },
            _ => {},
        }
    }
}

/// How many clients a list of connections has counted as connected, each at the end of its run.
pub open spec fn clients_connected<H, P, E>(
    connections: Seq<ConnectionView<H, P, E>>,
    runs: Seq<Seq<Input<H, P, E>>>,
) -> int
    decreases connections.len(),
{
    if connections.len() == 0 {
        0
    } else {
        clients_connected(connections.drop_last(), runs.drop_last()) + run(
            connections.last(),
            runs.last(),
        ).metrics.connected_tcp_clients
    }
}

/// Whether the connection waits for each event of its run when it comes.
pub open spec fn runs_accepted<H, P, E>(
    connections: Seq<ConnectionView<H, P, E>>,
    runs: Seq<Seq<Input<H, P, E>>>,
) -> bool {
    &&& runs.len() == connections.len()
    &&& forall|i: int| 0 <= i < runs.len() ==> accepted(#[trigger] connections[i], runs[i])
}

/// The local addresses of the streams of a run that make URLs, in order.
pub open spec fn addresses_introduced<L, S, X>(incoming: Seq<Incoming<L, S, X>>) -> Seq<Seq<char>>
    decreases incoming.len(),
{
    if incoming.len() == 0 {
        Seq::empty()
    } else {
        let before = addresses_introduced(incoming.drop_last());
        match incoming.last() {
            Incoming::Introduced(_, Ok(addr)) => if url_parsed("http://"@ + addr@ + "/"@) is Some {
                before.push(addr@)
            } else {
                before
            },
            _ => before,
        }
    }
}

/// Every connection that a server has given a task is new then: nothing is counted on it but its
/// client, it has the handlers and the limits of the server, and its base URL is that of the local
/// address of its stream.
pub proof fn law_spawned_connections_are_new<F, L, S, H, P, E, X>(
    start: ServerView<F, L>,
    incoming: Seq<Incoming<L, S, X>>,
)
    requires
        start.wf(),
        server_accepted::<F, L, S, H, P, E, X>(start, incoming),
    ensures
        ({
            let actions = server_run::<F, L, S, H, P, E, X>(start, incoming).1;
            let connections = connections_spawned(actions);
            let addresses = addresses_introduced(incoming);
            &&& connections.len() == streams_spawned(actions).len()
            &&& connections.len() == addresses.len()
            &&& forall|i: int|
                0 <= i < connections.len() ==> {
                    let c = #[trigger] connections[i];
                    &&& url_parsed("http://"@ + addresses[i] + "/"@) == Some(c.base_url)
                    &&& c.wf()
                    &&& c == ConnectionView::<H, P, E>::fresh(
                        seq![DecoderOp::Created(start.options.decode_options)],
                        start.routes,
                        c.base_url,
                    )
                }
        }),
    decreases incoming.len(),
{
    if incoming.len() > 0 {
        law_spawned_connections_are_new::<F, L, S, H, P, E, X>(start, incoming.drop_last());
        law_server_run_keeps_order::<F, L, S, H, P, E, X>(start, incoming.drop_last());
        let asked = server_run::<F, L, S, H, P, E, X>(start, incoming.drop_last()).1;
        let actions = server_run::<F, L, S, H, P, E, X>(start, incoming).1;
        assert(actions.drop_last() =~= asked);
    }
}

proof fn lemma_each_counts_its_client<H, P, E>(
    connections: Seq<ConnectionView<H, P, E>>,
    runs: Seq<Seq<Input<H, P, E>>>,
)
    requires
        forall|i: int| 0 <= i < connections.len() ==> (#[trigger] connections[i]).wf(),
        runs_accepted(connections, runs),
    ensures
        clients_connected(connections, runs) == connections.len(),
    decreases connections.len(),
{
    if connections.len() > 0 {
        assert forall|i: int| 0 <= i < connections.len() - 1 implies accepted(
            #[trigger] connections.drop_last()[i],
            runs.drop_last()[i],
        ) by {
            assert(accepted(connections[i], runs[i]));
        }
        lemma_each_counts_its_client(connections.drop_last(), runs.drop_last());
        law_run_keeps_order(connections.last(), runs.last());
    }
}

/// Where a server has given tasks to n connections, they have counted n connected clients together,
/// whatever each of them has gone through since.
pub proof fn law_spawned_connections_count_their_clients<F, L, S, H, P, E, X>(
    start: ServerView<F, L>,
    incoming: Seq<Incoming<L, S, X>>,
    runs: Seq<Seq<Input<H, P, E>>>,
)
    requires
        start.wf(),
        server_accepted::<F, L, S, H, P, E, X>(start, incoming),
        runs_accepted(
            connections_spawned(server_run::<F, L, S, H, P, E, X>(start, incoming).1),
            runs,
        ),
    ensures
        ({
            let actions = server_run::<F, L, S, H, P, E, X>(start, incoming).1;
            clients_connected(connections_spawned(actions), runs) == streams_spawned(actions).len()
        }),
{
    law_spawned_connections_are_new::<F, L, S, H, P, E, X>(start, incoming);
    let actions = server_run::<F, L, S, H, P, E, X>(start, incoming).1;
    lemma_each_counts_its_client(connections_spawned(actions), runs);
}

/// A server is over exactly when its owner is told so, and is then told nothing more.
pub proof fn law_server_ready_is_the_end<F, L, S, H, P, E, X>(
    server: ServerView<F, L>,
    incoming: Incoming<L, S, X>,
)
    requires
        server.wf(),
        server.expects(incoming),
    ensures
        ({
            let (next, action) = server.step::<S, H, P, E, X>(incoming);
            &&& action is Ready <==> next.stage is Done
            &&& next.stage is Done ==> forall|later: Incoming<L, S, X>| !next.expects(later)
        }),
{
}

/// A handler that was added stays at its place, with its method and path, whatever is added later,
/// and a second handler for the same method and path is refused.
pub proof fn law_added_handler_stays<T>(
    builder: ServerBuilderView<T>,
    route: RouteView,
    handler: T,
    later: RouteView,
    later_handler: T,
)
    requires
        builder.wf(),
        !builder.routes.contains(route),
        !builder.with_handler(route, handler).routes.contains(later),
    ensures
        ({
            let added = builder.with_handler(route, handler);
            let more = added.with_handler(later, later_handler);
            let i = builder.routes.len() as int;
            &&& added.routes.contains(route)
            &&& more.wf()
            &&& more.routes[i] == route
            &&& more.handlers[i] == handler
            &&& more.routes.contains(route)
        }),
{
    let added = builder.with_handler(route, handler);
    let more = added.with_handler(later, later_handler);
    let i = builder.routes.len() as int;
    assert(added.routes[i] == route);
    assert(more.routes[i] == route);
    assert(added.routes.no_duplicates());
}

/// The settings of a builder do not touch one another: in whatever order they are set, each has
/// the value that it was last given, and the handlers stay as they were.
pub proof fn law_settings_are_independent<T>(
    builder: ServerBuilderView<T>,
    earlier: usize,
    read: usize,
    write: usize,
    decode: DecodeOptions,
)
    ensures
        builder.with_read_buffer_size(read).with_write_buffer_size(write)
            == builder.with_write_buffer_size(write).with_read_buffer_size(read),
        builder.with_read_buffer_size(read).with_decode_options(decode)
            == builder.with_decode_options(decode).with_read_buffer_size(read),
        builder.with_write_buffer_size(write).with_decode_options(decode)
            == builder.with_decode_options(decode).with_write_buffer_size(write),
        builder.with_read_buffer_size(earlier).with_read_buffer_size(read)
            == builder.with_read_buffer_size(read),
        builder.with_write_buffer_size(earlier).with_write_buffer_size(write)
            == builder.with_write_buffer_size(write),
        builder.with_read_buffer_size(read).routes == builder.routes,
        builder.with_write_buffer_size(write).routes == builder.routes,
        builder.with_decode_options(decode).routes == builder.routes,
{
}

} // verus!
