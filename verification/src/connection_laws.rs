//! What a step of a connection gives, seen from its outcome: when a connection ends, waits, counts,
//! answers and hands things on.
use vstd::prelude::*;

use crate::connection::{
    Action, ConnectionView, EncodeState, Event, InputState, IoStatus, ReplyState,
};
use crate::decoder::{
    decoded_size, head_complete, head_decoded, head_rest, DecoderOp, RequestHead, RequestHeadView,
};
use crate::dispatcher::{chosen, routes_view, Route, RouteView};
use crate::metrics::{Metric, ServerMetrics};
use crate::phase::{Phase, PhaseKind, ResEncoder};
use crate::request::{url_joined, Req, ReqView};
use crate::status::{ErrorKind, Status};

verus! {

/// Whether `event` tells the outcome of `action`.
pub open spec fn answers<H, P, E>(action: Action<ReqView, H, P, E>, event: Event<H, P, E>) -> bool {
    match action {
        Action::ExecuteIo => event is IoExecuted,
        Action::InitHandler(..) => event is HandlerInitialized,
        Action::HandleInput(_) => event is InputHandled,
        Action::PollReply(_) => event is ReplyPolled,
        Action::EncodeResponse(ResEncoder::Error(_)) => event matches Event::ResponseEncoded(state)
            && !(state matches EncodeState::Incomplete(ResEncoder::Reply(_))),
        Action::EncodeResponse(ResEncoder::Reply(_)) => event matches Event::ResponseEncoded(state)
            && !(state matches EncodeState::Incomplete(ResEncoder::Error(_))),
        Action::Pending => event is Polled,
        Action::Ready(_) => false,
    }
}

/// A connection waits for the outcome of what it has asked for, and for nothing else.
pub proof fn law_only_the_outcome_is_awaited<H, P, E>(
    connection: ConnectionView<H, P, E>,
    event: Event<H, P, E>,
    io: IoStatus,
    bytes: Seq<u8>,
    eos: bool,
    later: Event<H, P, E>,
)
    ensures
        ({
            let (next, action) = connection.step(event, io, bytes, eos);
            next.expects(later) <==> answers(action, later)
        }),
{
}

/// A new connection reads its first head, has counted its client and nothing else, is not to be
/// closed, and waits to be woken.
pub proof fn law_new_connection_is_blank<H, P, E>(
    ops: Seq<DecoderOp>,
    routes: Seq<RouteView>,
    base_url: Seq<char>,
    event: Event<H, P, E>,
)
    ensures
        ({
            let new = ConnectionView::<H, P, E>::fresh(ops, routes, base_url);
            &&& new.metrics.connected_tcp_clients == 1
            &&& new.metrics.disconnected_tcp_clients == 0
            &&& new.metrics.read_request_head_errors == 0
            &&& new.metrics.parse_request_path_errors == 0
            &&& new.metrics.dispatch_request_errors == 0
            &&& new.metrics.initialize_handler_errors == 0
            &&& new.metrics.decode_request_body_errors == 0
            &&& new.metrics.write_response_errors == 0
            &&& new.ops == ops
            &&& new.routes == routes
            &&& new.base_url == base_url
            &&& new.phase is ReadRequestHead
            &&& !new.do_close
            &&& new.expects(event) <==> event is Polled
        }),
{
}

/// A connection ends without an error only where the stream has ended, or the server is gone, or the
/// last response is written and every byte of the write buffer has gone out. It goes on only where
/// none of these holds. It ends with an error exactly where reads and writes, or the encoding of a
/// response, have failed.
pub proof fn law_end_comes_after_the_last_byte<H, P, E>(
    connection: ConnectionView<H, P, E>,
    event: Event<H, P, E>,
    io: IoStatus,
    bytes: Seq<u8>,
    eos: bool,
)
    ensures
        ({
            let (next, action) = connection.step(event, io, bytes, eos);
            &&& action == Action::<ReqView, H, P, E>::Ready(Ok(())) && !io.eos && io.server_alive
                ==> io.write_buf_empty && next.phase is Closed
            &&& action is ExecuteIo || action is Pending ==> {
                &&& !io.eos
                &&& io.server_alive
                &&& io.write_buf_empty ==> !(next.phase is Closed)
            }
            &&& action == Action::<ReqView, H, P, E>::Ready(Err(())) <==> {
                ||| event matches Event::IoExecuted(Err(_))
                ||| event matches Event::ResponseEncoded(EncodeState::Failed(_))
            }
        }),
{
}

/// A connection asks for outside work only after reads and writes that went well. After any other
/// event, and after those in the phases that need none, it ends, goes on or waits.
pub proof fn law_outside_work_follows_io<H, P, E>(
    connection: ConnectionView<H, P, E>,
    event: Event<H, P, E>,
    io: IoStatus,
    bytes: Seq<u8>,
    eos: bool,
)
    ensures
        ({
            let action = connection.step(event, io, bytes, eos).1;
            &&& action is InitHandler ==> connection.phase is DispatchRequest
            &&& action is HandleInput ==> connection.phase is HandleRequest
            &&& action is PollReply ==> connection.phase is PollReply
            &&& action is EncodeResponse ==> connection.phase is WriteResponse
            &&& action is InitHandler || action is HandleInput || action is PollReply || action
                is EncodeResponse ==> event matches Event::IoExecuted(Ok(_))
        }),
{
}

/// Whether a step that was brought about by `event` and led to `after` has stayed in its phase.
pub open spec fn phase_is_kept<H, P, E>(
    before: Phase<ReqView, H, P, E>,
    event: Event<H, P, E>,
    after: Phase<ReqView, H, P, E>,
) -> bool {
    match event {
        Event::HandlerInitialized(_) => after is DispatchRequest,
        Event::InputHandled(_) => after is HandleRequest,
        Event::ReplyPolled(_) => after is PollReply,
        Event::ResponseEncoded(_) => after is WriteResponse,
        Event::Polled | Event::IoExecuted(_) => {
            ||| before is ReadRequestHead && after is ReadRequestHead
            ||| before is DispatchRequest && after is DispatchRequest
            ||| before is HandleRequest && after is HandleRequest
            ||| before is PollReply && after is PollReply
            ||| before is WriteResponse && after is WriteResponse
            ||| before is Closed && after is Closed
        },
    }
}

/// A connection that is not over waits exactly where its step has stayed in its phase and reads and
/// writes could not go on. A connection that was woken does not wait before it has tried them.
pub proof fn law_waits_exactly_when_blocked<H, P, E>(
    connection: ConnectionView<H, P, E>,
    event: Event<H, P, E>,
    io: IoStatus,
    bytes: Seq<u8>,
    eos: bool,
)
    ensures
        ({
            let (next, action) = connection.step(event, io, bytes, eos);
            &&& event is Polled ==> !(action is Pending)
            &&& !(event is Polled) && (action is ExecuteIo || action is Pending) ==> (action
                is Pending <==> io.would_block && phase_is_kept(
                connection.phase,
                event,
                next.phase,
            ))
        }),
{
}

/// A connection that is woken is over or does its reads and writes; nothing else about it changes.
pub proof fn law_waking_changes_nothing<H, P, E>(
    connection: ConnectionView<H, P, E>,
    io: IoStatus,
    bytes: Seq<u8>,
    eos: bool,
)
    ensures
        ({
            let (next, action) = connection.step(Event::Polled, io, bytes, eos);
            &&& next == (ConnectionView { metrics: next.metrics, stage: next.stage, ..connection })
            &&& action is ExecuteIo || action == Action::<ReqView, H, P, E>::Ready(Ok(()))
            &&& action is ExecuteIo ==> next.metrics == connection.metrics
        }),
{
}

/// A response that is not completely encoded is gone on with, whether or not the connection is to be
/// closed after it. One that is completely encoded is followed by the end of the connection if that
/// is to be closed, and by the next request if not. Nothing else about the connection changes.
pub proof fn law_response_is_written_to_its_end<H, P, E>(
    connection: ConnectionView<H, P, E>,
    encoded: EncodeState<E>,
    io: IoStatus,
    bytes: Seq<u8>,
    eos: bool,
)
    ensures
        ({
            let next = connection.step(Event::ResponseEncoded(encoded), io, bytes, eos).0;
            &&& encoded matches EncodeState::Incomplete(rest) ==> next.phase == Phase::<
                ReqView,
                H,
                P,
                E,
            >::WriteResponse(rest)
            &&& encoded is Complete && connection.do_close ==> next.phase is Closed
            &&& encoded is Complete && !connection.do_close ==> next.phase is ReadRequestHead
            &&& next == (ConnectionView {
                phase: next.phase,
                metrics: next.metrics,
                stage: next.stage,
                ..connection
            })
            &&& encoded is Failed ==> next.stage is Done
        }),
{
}

/// A connection turns to its end only once a response after which it is to be closed is completely
/// encoded.
pub proof fn law_closing_follows_a_whole_response<H, P, E>(
    connection: ConnectionView<H, P, E>,
    event: Event<H, P, E>,
    io: IoStatus,
    bytes: Seq<u8>,
    eos: bool,
)
    requires
        connection.expects(event),
        connection.stage is Idle || connection.stage is Io ==> !(connection.phase is Closed),
        connection.step(event, io, bytes, eos).1 is ExecuteIo || connection.step(
            event,
            io,
            bytes,
            eos,
        ).1 is Pending || connection.step(event, io, bytes, eos).1 == Action::<
            ReqView,
            H,
            P,
            E,
        >::Ready(Ok(())),
        connection.step(event, io, bytes, eos).0.phase is Closed,
    ensures
        event == Event::<H, P, E>::ResponseEncoded(EncodeState::Complete),
        connection.do_close,
{
}

/// What a handler, a reply and an encoder are asked for is done with the very value that was last
/// handed back: the value that an event brings is the one that the next step after reads and writes
/// hands out.
pub proof fn law_values_are_handed_on<H, P, E>(
    connection: ConnectionView<H, P, E>,
    event: Event<H, P, E>,
    io: IoStatus,
    later_io: IoStatus,
    bytes: Seq<u8>,
    eos: bool,
)
    ensures
        ({
            let next = connection.step(event, io, bytes, eos).0;
            let action = next.step(Event::IoExecuted(Ok(())), later_io, bytes, eos).1;
            &&& event matches Event::HandlerInitialized(Ok(handler)) ==> action == Action::<
                ReqView,
                H,
                P,
                E,
            >::HandleInput(handler)
            &&& event matches Event::InputHandled(InputState::Incomplete(handler)) ==> action
                == Action::<ReqView, H, P, E>::HandleInput(handler)
            &&& event matches Event::InputHandled(InputState::Replied(reply, _)) ==> action
                == Action::<ReqView, H, P, E>::PollReply(reply)
            &&& event matches Event::ReplyPolled(ReplyState::Pending(reply)) ==> action == Action::<
                ReqView,
                H,
                P,
                E,
            >::PollReply(reply)
            &&& event matches Event::ReplyPolled(ReplyState::Ready(encoder)) ==> action == Action::<
                ReqView,
                H,
                P,
                E,
            >::EncodeResponse(ResEncoder::Reply(encoder))
            &&& event matches Event::ResponseEncoded(EncodeState::Incomplete(encoder)) ==> action
                == Action::<ReqView, H, P, E>::EncodeResponse(encoder)
            &&& event matches Event::HandlerInitialized(Err(_)) ==> action == Action::<
                ReqView,
                H,
                P,
                E,
            >::EncodeResponse(ResEncoder::Error(Status::InternalServerError))
            &&& event matches Event::InputHandled(InputState::Failed(_)) ==> action == Action::<
                ReqView,
                H,
                P,
                E,
            >::EncodeResponse(ResEncoder::Error(Status::BadRequest))
        }),
{
}

/// What a connection holds is handed out whole: the request, the handler, the reply or the response
/// that its phase is about.
pub proof fn law_phase_is_handed_out<H, P, E>(
    connection: ConnectionView<H, P, E>,
    io: IoStatus,
    bytes: Seq<u8>,
    eos: bool,
)
    ensures
        ({
            let (next, action) = connection.step(Event::IoExecuted(Ok(())), io, bytes, eos);
            &&& connection.phase matches Phase::HandleRequest(handler) ==> action == Action::<
                ReqView,
                H,
                P,
                E,
            >::HandleInput(handler)
            &&& connection.phase matches Phase::PollReply(reply) ==> action == Action::<
                ReqView,
                H,
                P,
                E,
            >::PollReply(reply)
            &&& connection.phase matches Phase::WriteResponse(encoder) ==> action == Action::<
                ReqView,
                H,
                P,
                E,
            >::EncodeResponse(encoder)
            &&& connection.phase is Closed ==> next.phase is Closed
            &&& action matches Action::InitHandler(_, req) ==> connection.phase == Phase::<
                ReqView,
                H,
                P,
                E,
            >::DispatchRequest(req)
        }),
{
}

/// Whether some handler is registered under this method and path.
pub open spec fn has_handler(routes: Seq<RouteView>, method: Seq<char>, path: Seq<char>) -> bool {
    exists|i: int|
        0 <= i < routes.len() && (#[trigger] routes[i]).method == method && routes[i].path == path
}

/// Whether some handler is registered under this path.
pub open spec fn has_path(routes: Seq<RouteView>, path: Seq<char>) -> bool {
    exists|i: int| 0 <= i < routes.len() && (#[trigger] routes[i]).path == path
}

/// The handler that is chosen is registered under the method and the path. There is one wherever
/// some handler is; else the answer is "method not allowed" where the path is known, and "not found"
/// where it is not.
pub proof fn law_chosen_handler_fits(routes: Seq<RouteView>, method: Seq<char>, path: Seq<char>)
    ensures
        chosen(routes, method, path) matches Ok(i) ==> 0 <= i < routes.len() && routes[i].method
            == method && routes[i].path == path,
        chosen(routes, method, path) is Ok <==> has_handler(routes, method, path),
        chosen(routes, method, path) == Err::<int, Status>(Status::MethodNotAllowed) <==> !has_handler(
            routes,
            method,
            path,
        ) && has_path(routes, path),
        chosen(routes, method, path) == Err::<int, Status>(Status::NotFound) <==> !has_path(
            routes,
            path,
        ),
{
    let route = RouteView { method, path };
    if has_handler(routes, method, path) {
        let i = choose|i: int|
            0 <= i < routes.len() && (#[trigger] routes[i]).method == method && routes[i].path
                == path;
        assert(routes[i] == route);
    }
    if exists|i: int| 0 <= i < routes.len() && routes[i] == route {
        let i = choose|i: int| 0 <= i < routes.len() && routes[i] == route;
        assert(routes[i].method == method && routes[i].path == path);
    }
}

/// A request goes, unchanged, to a handler that is registered under its method and path. Where there
/// is none, it is answered with "method not allowed" if the path is known, and with "not found" if
/// it is not, and the connection is to be closed.
pub proof fn law_request_is_dispatched_by_method_and_path<H, P, E>(
    connection: ConnectionView<H, P, E>,
    req: ReqView,
    io: IoStatus,
    bytes: Seq<u8>,
    eos: bool,
)
    requires
        connection.phase == Phase::<ReqView, H, P, E>::DispatchRequest(req),
        connection.routes.len() <= usize::MAX,
    ensures
        ({
            let (next, action) = connection.step(Event::IoExecuted(Ok(())), io, bytes, eos);
            let known = has_handler(connection.routes, req.head.method, req.path);
            &&& action is InitHandler <==> known
            &&& action matches Action::InitHandler(i, given) ==> {
                &&& given == req
                &&& i < connection.routes.len()
                &&& connection.routes[i as int].method == req.head.method
                &&& connection.routes[i as int].path == req.path
                &&& next.do_close == connection.do_close
            }
            &&& !known ==> {
                &&& next.do_close
                &&& next.phase == Phase::<ReqView, H, P, E>::WriteResponse(
                    ResEncoder::Error(
                        if has_path(connection.routes, req.path) {
                            Status::MethodNotAllowed
                        } else {
                            Status::NotFound
                        },
                    ),
                )
            }
        }),
{
    law_chosen_handler_fits(connection.routes, req.head.method, req.path);
}

/// The request that a head becomes carries exactly the head that the decoder has handed out, and the
/// URL that its target stands for. It does become one wherever the decoder hands out a head whose
/// target makes a URL; every other head that the decoder is done with is answered with "bad
/// request". While the decoder is not done, the connection goes on reading, and nothing is counted.
pub proof fn law_request_carries_its_head<H, P, E>(
    connection: ConnectionView<H, P, E>,
    bytes: Seq<u8>,
    eos: bool,
)
    ensures
        ({
            let fed = connection.ops.push(DecoderOp::Fed(bytes, eos));
            let asked = fed.push(DecoderOp::Finished);
            let (next, phase) = connection.after_read(bytes, eos);
            &&& phase matches Phase::DispatchRequest(req) ==> {
                &&& decoded_size(fed) is Some && head_complete(fed)
                &&& head_decoded(asked) == Some(req.head)
                &&& url_joined(connection.base_url, req.head.target) == Some((req.url, req.path))
                &&& next == (ConnectionView { ops: asked, ..connection })
            }
            &&& decoded_size(fed) is Some && head_complete(fed) && head_decoded(asked) is Some
                && url_joined(connection.base_url, head_decoded(asked)->Some_0.target) is Some
                ==> phase is DispatchRequest
            &&& phase is ReadRequestHead <==> decoded_size(fed) is Some && !head_complete(fed)
            &&& phase is ReadRequestHead ==> next == (ConnectionView { ops: fed, ..connection })
            &&& phase is DispatchRequest || phase is ReadRequestHead || (phase == Phase::<
                ReqView,
                H,
                P,
                E,
            >::WriteResponse(ResEncoder::Error(Status::BadRequest)) && next.do_close)
            &&& next == (ConnectionView {
                ops: next.ops,
                metrics: next.metrics,
                do_close: next.do_close,
                ..connection
            })
        }),
{
}

/// A step that reads a head ends in the phase that the head leads to.
pub proof fn law_step_reads_the_head<H, P, E>(
    connection: ConnectionView<H, P, E>,
    io: IoStatus,
    bytes: Seq<u8>,
    eos: bool,
)
    requires
        connection.phase is ReadRequestHead,
    ensures
        ({
            let fed = connection.ops.push(DecoderOp::Fed(bytes, eos));
            let asked = fed.push(DecoderOp::Finished);
            let next = connection.step(Event::IoExecuted(Ok(())), io, bytes, eos).0;
            &&& next.phase matches Phase::DispatchRequest(req) ==> {
                &&& head_decoded(asked) == Some(req.head)
                &&& url_joined(connection.base_url, req.head.target) == Some((req.url, req.path))
                &&& next.do_close == connection.do_close
            }
            &&& next.phase is DispatchRequest <==> decoded_size(fed) is Some && head_complete(fed)
                && head_decoded(asked) is Some && url_joined(
                connection.base_url,
                head_decoded(asked)->Some_0.target,
            ) is Some
            &&& next.phase is ReadRequestHead <==> decoded_size(fed) is Some && !head_complete(fed)
            &&& next.phase is DispatchRequest || next.phase is ReadRequestHead || next.phase
                == Phase::<ReqView, H, P, E>::WriteResponse(ResEncoder::Error(Status::BadRequest))
            &&& next.ops == if decoded_size(fed) is None {
                fed.push(DecoderOp::Failed)
            } else if !head_complete(fed) {
                fed
            } else if head_decoded(asked) is None {
                asked.push(DecoderOp::Failed)
            } else {
                asked
            }
        }),
{
}

/// The bytes that the decoder takes leave the read buffer at the front, and no others.
pub proof fn law_untaken_bytes_stay(ops: Seq<DecoderOp>, bytes: Seq<u8>, eos: bool)
    ensures
        ({
            let taken = decoded_size(ops.push(DecoderOp::Fed(bytes, eos)));
            let rest = head_rest(ops, bytes, eos);
            &&& taken is None ==> rest == bytes
            &&& taken matches Some(n) ==> (n <= bytes.len() ==> bytes.take(n as int) + rest == bytes
                && rest.len() == bytes.len() - n)
        }),
{
    let taken = decoded_size(ops.push(DecoderOp::Fed(bytes, eos)));
    if taken is Some && taken->Some_0 <= bytes.len() {
        assert(bytes.take(taken->Some_0 as int) + head_rest(ops, bytes, eos) =~= bytes);
    }
}

/// Whether a count has gone up by one if `happened`, and stayed as it was if not.
pub open spec fn counted(before: u64, after: u64, happened: bool) -> bool {
    after == before + (if happened {
        1int
    } else {
        0int
    })
}

/// Each count goes up exactly where what it counts has happened: a client is disconnected at the end
/// of its connection, and each kind of error is counted under its own name.
pub proof fn law_every_event_is_counted_under_its_name<H, P, E>(
    connection: ConnectionView<H, P, E>,
    event: Event<H, P, E>,
    io: IoStatus,
    bytes: Seq<u8>,
    eos: bool,
)
    requires
        connection.wf(),
        connection.expects(event),
    ensures
        ({
            let (next, action) = connection.step(event, io, bytes, eos);
            let (before, after) = (connection.metrics, next.metrics);
            let fed = connection.ops.push(DecoderOp::Fed(bytes, eos));
            let asked = fed.push(DecoderOp::Finished);
            let reading = event matches Event::IoExecuted(Ok(_)) && connection.phase
                is ReadRequestHead;
            let unreadable = decoded_size(fed) is None || head_complete(fed) && head_decoded(asked)
                is None;
            let homeless = !unreadable && head_complete(fed) && url_joined(
                connection.base_url,
                head_decoded(asked)->Some_0.target,
            ) is None;
            let refused = match connection.phase {
                Phase::DispatchRequest(req) => !has_handler(
                    connection.routes,
                    req.head.method,
                    req.path,
                ),
                _ => false,
            };
            &&& after.connected_tcp_clients == before.connected_tcp_clients
            &&& counted(
                before.disconnected_tcp_clients,
                after.disconnected_tcp_clients,
                action is Ready,
            )
            &&& counted(
                before.read_request_head_errors,
                after.read_request_head_errors,
                reading && unreadable,
            )
            &&& counted(
                before.parse_request_path_errors,
                after.parse_request_path_errors,
                reading && homeless,
            )
            &&& counted(
                before.dispatch_request_errors,
                after.dispatch_request_errors,
                event is IoExecuted && event->IoExecuted_0 is Ok && refused,
            )
            &&& counted(
                before.initialize_handler_errors,
                after.initialize_handler_errors,
                event is HandlerInitialized && event->HandlerInitialized_0 is Err,
            )
            &&& counted(
                before.decode_request_body_errors,
                after.decode_request_body_errors,
                event is InputHandled && event->InputHandled_0 is Failed,
            )
            &&& counted(
                before.write_response_errors,
                after.write_response_errors,
                event is ResponseEncoded && event->ResponseEncoded_0 is Failed,
            )
        }),
{
    if let Phase::DispatchRequest(req) = connection.phase {
        law_chosen_handler_fits(connection.routes, req.head.method, req.path);
    }
}

/// A connection is to be closed after a response where its request has failed, and where the handler
/// has said so. Otherwise this stays as it was.
pub proof fn law_closing_is_decided_by_errors_and_handlers<H, P, E>(
    connection: ConnectionView<H, P, E>,
    event: Event<H, P, E>,
    io: IoStatus,
    bytes: Seq<u8>,
    eos: bool,
)
    requires
        connection.wf(),
        connection.expects(event),
    ensures
        ({
            let next = connection.step(event, io, bytes, eos).0;
            let (before, after) = (connection.metrics, next.metrics);
            let failed = {
                ||| after.read_request_head_errors != before.read_request_head_errors
                ||| after.parse_request_path_errors != before.parse_request_path_errors
                ||| after.dispatch_request_errors != before.dispatch_request_errors
                ||| after.initialize_handler_errors != before.initialize_handler_errors
                ||| after.decode_request_body_errors != before.decode_request_body_errors
            };
            &&& failed ==> next.do_close && next.phase is WriteResponse
                && next.phase->WriteResponse_0 is Error
            &&& event matches Event::InputHandled(InputState::Replied(_, close)) ==> next.do_close
                == close
            &&& !failed && !(event is InputHandled) ==> next.do_close == connection.do_close
            &&& event matches Event::InputHandled(InputState::Incomplete(_)) ==> next.do_close
                == connection.do_close
        }),
{
}

/// Whatever a connection is told, it keeps its handlers and its base URL, and its decoder is left
/// alone unless a head is being read.
pub proof fn law_step_keeps_settings<H, P, E>(
    connection: ConnectionView<H, P, E>,
    event: Event<H, P, E>,
    io: IoStatus,
    bytes: Seq<u8>,
    eos: bool,
)
    ensures
        ({
            let next = connection.step(event, io, bytes, eos).0;
            &&& next.routes == connection.routes
            &&& next.base_url == connection.base_url
            &&& !(event is IoExecuted) || event->IoExecuted_0 is Err || !(connection.phase
                is ReadRequestHead) ==> next.ops == connection.ops
        }),
{
}

/// What the single steps decide does not depend on how the connection is driven: given the outcome of
/// the outside work alone, they choose the phase, and change nothing but the counts of errors and
/// whether the connection is to be closed.
pub proof fn law_outcome_decides_the_phase<H, P, E>(
    connection: ConnectionView<H, P, E>,
    initialized: Result<H, ErrorKind>,
    handled: InputState<H, P>,
    polled: ReplyState<P, E>,
    encoded: EncodeState<E>,
)
    ensures
        ({
            let (next, phase) = connection.after_init(initialized);
            &&& initialized matches Ok(handler) ==> phase == Phase::<
                ReqView,
                H,
                P,
                E,
            >::HandleRequest(handler) && next == connection
            &&& initialized is Err ==> next.do_close && phase == Phase::<
                ReqView,
                H,
                P,
                E,
            >::WriteResponse(ResEncoder::Error(Status::InternalServerError))
        }),
        ({
            let (next, phase) = connection.after_input(handled);
            &&& handled matches InputState::Incomplete(handler) ==> phase == Phase::<
                ReqView,
                H,
                P,
                E,
            >::HandleRequest(handler) && next == connection
            &&& handled matches InputState::Replied(reply, close) ==> phase == Phase::<
                ReqView,
                H,
                P,
                E,
            >::PollReply(reply) && next.do_close == close && next.metrics == connection.metrics
            &&& handled is Failed ==> next.do_close && phase == Phase::<
                ReqView,
                H,
                P,
                E,
            >::WriteResponse(ResEncoder::Error(Status::BadRequest))
        }),
        ({
            let phase = ConnectionView::<H, P, E>::after_reply(polled);
            &&& polled matches ReplyState::Pending(reply) ==> phase == Phase::<
                ReqView,
                H,
                P,
                E,
            >::PollReply(reply)
            &&& polled matches ReplyState::Ready(encoder) ==> phase == Phase::<
                ReqView,
                H,
                P,
                E,
            >::WriteResponse(ResEncoder::Reply(encoder))
        }),
        ({
            let phase = connection.after_encode(encoded);
            &&& phase is None <==> encoded is Failed
            &&& encoded matches EncodeState::Incomplete(rest) ==> phase == Some(
                Phase::<ReqView, H, P, E>::WriteResponse(rest),
            )
            &&& encoded is Complete ==> (phase->Some_0 is Closed <==> connection.do_close)
            &&& encoded is Complete ==> (phase->Some_0 is ReadRequestHead <==> !connection.do_close)
        }),
{
}

/// Whether `metric` was counted once between two counts, and nothing else was.
pub open spec fn counted_once(before: ServerMetrics, after: ServerMetrics, metric: Metric) -> bool {
    forall|m: Metric| #[trigger] after.count(m) == before.count(m) + (if m == metric {
        1int
    } else {
        0int
    })
}

/// Each way in which a request can fail is counted once, under its own name; the connection is then
/// to be closed, and is otherwise as it was.
pub proof fn law_failure_is_counted_once<H, P, E>(
    connection: ConnectionView<H, P, E>,
    error: ErrorKind,
    head: RequestHeadView,
    metric: Metric,
)
    requires
        connection.metrics.request_errors() < u64::MAX,
        connection.metrics.count(metric) < u64::MAX,
    ensures
        counted_once(connection.metrics, connection.failed(metric).metrics, metric),
        counted_once(
            connection.metrics,
            connection.after_init(Err(error)).0.metrics,
            Metric::InitializeHandlerErrors,
        ),
        counted_once(
            connection.metrics,
            connection.after_input(InputState::Failed(error)).0.metrics,
            Metric::DecodeRequestBodyErrors,
        ),
        counted_once(
            connection.metrics,
            connection.after_decode(Err(()), None).0.metrics,
            Metric::ReadRequestHeadErrors,
        ),
        counted_once(
            connection.metrics,
            connection.after_decode(Ok(Some(head)), None).0.metrics,
            Metric::ParseRequestPathErrors,
        ),
        counted_once(
            connection.metrics,
            connection.after_parse(None).0.metrics,
            Metric::ParseRequestPathErrors,
        ),
        is_failed(connection, connection.failed(metric)),
        is_failed(connection, connection.after_init(Err(error)).0),
        is_failed(connection, connection.after_input(InputState::Failed(error)).0),
        is_failed(connection, connection.after_decode(Err(()), None).0),
        is_failed(connection, connection.after_decode(Ok(Some(head)), None).0),
        is_failed(connection, connection.after_parse(None).0),
{
}

/// Whether a connection is to be closed, and has otherwise changed in its counts alone.
pub open spec fn is_failed<H, P, E>(
    before: ConnectionView<H, P, E>,
    after: ConnectionView<H, P, E>,
) -> bool {
    &&& after.do_close
    &&& after.ops == before.ops
    &&& after.routes == before.routes
    &&& after.base_url == before.base_url
    &&& after.phase == before.phase
    &&& after.stage == before.stage
}

/// A head that was handed in becomes a request that carries it unchanged, with the URL that its
/// target was resolved to; a request that was handed in is dispatched as it is. Neither changes the
/// connection. Where neither a head nor an error was handed in, the connection goes on reading.
pub proof fn law_given_head_becomes_a_request<H, P, E>(
    connection: ConnectionView<H, P, E>,
    head: RequestHeadView,
    url: Seq<char>,
    path: Seq<char>,
    req: ReqView,
)
    ensures
        ({
            let (next, phase) = connection.after_decode(Ok(Some(head)), Some((url, path)));
            &&& next == connection
            &&& phase is DispatchRequest
            &&& phase->DispatchRequest_0.head == head
            &&& phase->DispatchRequest_0.url == url
            &&& phase->DispatchRequest_0.path == path
        }),
        ({
            let (next, phase) = connection.after_parse(Some(req));
            next == connection && phase == Phase::<ReqView, H, P, E>::DispatchRequest(req)
        }),
        ({
            let (next, phase) = connection.after_decode(Ok(None), None);
            next == connection && phase is ReadRequestHead
        }),
        connection.after_decode(Err(()), None).1 == Phase::<ReqView, H, P, E>::WriteResponse(
            ResEncoder::Error(Status::BadRequest),
        ),
        connection.after_decode(Ok(Some(head)), None).1 == Phase::<ReqView, H, P, E>::WriteResponse(
            ResEncoder::Error(Status::BadRequest),
        ),
        connection.after_parse(None).1 == Phase::<ReqView, H, P, E>::WriteResponse(
            ResEncoder::Error(Status::BadRequest),
        ),
{
}

/// Two phases are of one kind exactly where they are the same phase, whatever they hold.
pub proof fn law_kind_tells_phases_apart<Q, H, P, E>(phase: Phase<Q, H, P, E>)
    ensures
        phase.spec_kind() == PhaseKind::ReadRequestHead <==> phase is ReadRequestHead,
        phase.spec_kind() == PhaseKind::DispatchRequest <==> phase is DispatchRequest,
        phase.spec_kind() == PhaseKind::HandleRequest <==> phase is HandleRequest,
        phase.spec_kind() == PhaseKind::PollReply <==> phase is PollReply,
        phase.spec_kind() == PhaseKind::WriteResponse <==> phase is WriteResponse,
        phase.spec_kind() == PhaseKind::Closed <==> phase is Closed,
{
}

/// What contracts say of a request, a head or a list of routes is said of its own texts, one by one.
pub proof fn law_views_hold_every_part(
    req: Req,
    head: RequestHead,
    route: Route,
    routes: Seq<Route>,
)
    ensures
        routes_view(routes).len() == routes.len(),
        forall|i: int| 0 <= i < routes.len() ==> (#[trigger] routes_view(routes)[i]) == routes[i]@,
        req@.head == req.head@,
        req@.url == req.url@,
        req@.path == req.path@,
        head@.method == head.method@,
        head@.target == head.target@,
        head@.version == head.version,
        head@.fields.len() == head.fields.len(),
        forall|i: int|
            0 <= i < head.fields.len() ==> (#[trigger] head@.fields[i]) == (
                head.fields[i].0@,
                head.fields[i].1@,
            ),
        route@.method == route.method@,
        route@.path == route.path@,
{
}

/// What contracts say of a phase or of an action is said of that very phase or action.
pub proof fn law_views_keep_what_is_done<H, P, E>(
    phase: Phase<Req, H, P, E>,
    action: Action<Req, H, P, E>,
)
    ensures
        phase is ReadRequestHead <==> phase@ is ReadRequestHead,
        phase is DispatchRequest <==> phase@ is DispatchRequest,
        phase matches Phase::DispatchRequest(req) ==> phase@->DispatchRequest_0 == req@,
        phase is HandleRequest <==> phase@ is HandleRequest,
        phase matches Phase::HandleRequest(handler) ==> phase@->HandleRequest_0 == handler,
        phase is PollReply <==> phase@ is PollReply,
        phase matches Phase::PollReply(reply) ==> phase@->PollReply_0 == reply,
        phase is WriteResponse <==> phase@ is WriteResponse,
        phase matches Phase::WriteResponse(encoder) ==> phase@->WriteResponse_0 == encoder,
        phase is Closed <==> phase@ is Closed,
        action is ExecuteIo <==> action@ is ExecuteIo,
        action is InitHandler <==> action@ is InitHandler,
        action matches Action::InitHandler(i, req) ==> action@->InitHandler_0 == i
            && action@->InitHandler_1 == req@,
        action is HandleInput <==> action@ is HandleInput,
        action matches Action::HandleInput(handler) ==> action@->HandleInput_0 == handler,
        action is PollReply <==> action@ is PollReply,
        action matches Action::PollReply(reply) ==> action@->PollReply_0 == reply,
        action is EncodeResponse <==> action@ is EncodeResponse,
        action matches Action::EncodeResponse(encoder) ==> action@->EncodeResponse_0 == encoder,
        action is Pending <==> action@ is Pending,
        action is Ready <==> action@ is Ready,
        action matches Action::Ready(result) ==> action@->Ready_0 == result,
{
}

} // verus!
