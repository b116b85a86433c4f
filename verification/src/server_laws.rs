//! What a step of a server gives, seen from its outcome, and what its builder and its counts keep.
use vstd::prelude::*;

use crate::connection::{Connection, ConnectionView};
use crate::decoder::DecoderOp;
use crate::dispatcher::RouteView;
use crate::metrics::{excess, Metric, ServerMetrics};
use crate::options::DecodeOptions;
use crate::request::url_parsed;
use crate::server::{
    after_connection, after_listener, default_options, Incoming, Listener, ListenerProgress,
    ListenerStep, ServeError, ServerAction, ServerBuilderView, ServerView,
};
use crate::status::{ErrorKind, Status};

verus! {

/// Whether `incoming` tells the outcome of `action`.
pub open spec fn answers_server<L, S, C, X>(
    action: ServerAction<S, C, X>,
    incoming: Incoming<L, S, X>,
) -> bool {
    match action {
        ServerAction::PollBind => incoming matches Incoming::Listener(progress) && progress is Bound,
        ServerAction::PollAccept => incoming matches Incoming::Listener(progress) && progress
            is Accepted,
        ServerAction::Introduce(..) => incoming is Introduced,
        ServerAction::Spawn(..) => incoming is Spawned,
        ServerAction::Pending => incoming matches Incoming::Listener(progress) && progress is Polled,
        ServerAction::Ready(_) => false,
    }
}

/// A server waits for the outcome of what it has asked for, and for nothing else.
pub proof fn law_server_awaits_only_the_outcome<F, L, S, H, P, E, X>(
    server: ServerView<F, L>,
    incoming: Incoming<L, S, X>,
    later: Incoming<L, S, X>,
)
    ensures
        ({
            let (next, action) = server.step::<S, H, P, E, X>(incoming);
            next.expects(later) <==> answers_server(action, later)
        }),
{
}

/// A server asks to be introduced to exactly those streams that its socket gives, with the addresses
/// that come with them. It waits exactly where its socket has nothing for it.
pub proof fn law_server_takes_what_its_socket_gives<F, L, S, H, P, E, X>(
    server: ServerView<F, L>,
    incoming: Incoming<L, S, X>,
)
    ensures
        ({
            let action = server.step::<S, H, P, E, X>(incoming).1;
            &&& action matches ServerAction::Introduce(stream, addr) ==> incoming == Incoming::<
                L,
                S,
                X,
            >::Listener(ListenerProgress::Accepted(Some(Ok((stream, addr)))))
            &&& incoming matches Incoming::Listener(ListenerProgress::Accepted(Some(Ok(_))))
                ==> action is Introduce
            &&& action is Pending <==> {
                ||| incoming == Incoming::<L, S, X>::Listener(ListenerProgress::Bound(None))
                ||| incoming == Incoming::<L, S, X>::Listener(ListenerProgress::Accepted(None))
            }
        }),
{
}

/// A server polls its socket as the state of that demands: it asks for a stream only where the socket
/// listens, and goes on binding it only where it does not. It does so whenever it is woken, whenever
/// the socket is bound, and whenever a connection was given its task.
pub proof fn law_server_polls_its_socket<F, L, S, H, P, E, X>(
    server: ServerView<F, L>,
    incoming: Incoming<L, S, X>,
)
    requires
        server.wf(),
        server.expects(incoming),
    ensures
        ({
            let (next, action) = server.step::<S, H, P, E, X>(incoming);
            &&& action is PollBind ==> next.listener is Binding
            &&& action is PollAccept ==> next.listener is Listening
            &&& action is PollBind || action is PollAccept <==> {
                ||| incoming == Incoming::<L, S, X>::Listener(ListenerProgress::Polled)
                ||| incoming == Incoming::<L, S, X>::Spawned
                ||| incoming is Listener && incoming->Listener_0 is Bound
                    && incoming->Listener_0->Bound_0 is Some
                    && incoming->Listener_0->Bound_0->Some_0 is Ok
            }
        }),
{
}

/// A server changes its socket only once that is bound, for the one that listens, and never changes
/// its handlers or its settings.
pub proof fn law_server_keeps_its_socket<F, L, S, H, P, E, X>(
    server: ServerView<F, L>,
    incoming: Incoming<L, S, X>,
)
    ensures
        ({
            let next = server.step::<S, H, P, E, X>(incoming).0;
            &&& incoming matches Incoming::Listener(ListenerProgress::Bound(Some(Ok(listener))))
                ==> next.listener == Listener::<F, L>::Listening(listener)
            &&& next.listener != server.listener ==> incoming is Listener && incoming->Listener_0
                is Bound && incoming->Listener_0->Bound_0 is Some
                && incoming->Listener_0->Bound_0->Some_0 is Ok
            &&& next.routes == server.routes
            &&& next.options == server.options
        }),
{
}

/// A server stops exactly where its socket or a new stream reports an error, with that error, or
/// where the address of a new stream makes no URL. It never stops on its own account.
pub proof fn law_server_stops_on_errors_only<F, L, S, H, P, E, X>(
    server: ServerView<F, L>,
    incoming: Incoming<L, S, X>,
    e: X,
)
    ensures
        ({
            let action = server.step::<S, H, P, E, X>(incoming).1;
            &&& action == ServerAction::<S, ConnectionView<H, P, E>, X>::Ready(
                Err(ServeError::Io(e)),
            ) <==> {
                ||| incoming == Incoming::<L, S, X>::Listener(
                    ListenerProgress::Bound(Some(Err(e))),
                )
                ||| incoming == Incoming::<L, S, X>::Listener(
                    ListenerProgress::Accepted(Some(Err(e))),
                )
                ||| incoming is Introduced && incoming->Introduced_1 == Err::<String, X>(e)
            }
            &&& action matches ServerAction::Ready(Err(ServeError::Connection(kind))) ==> kind
                == ErrorKind::InvalidInput
            &&& (action is Ready && action->Ready_0 is Err && action->Ready_0->Err_0 is Connection)
                <==> incoming is Introduced && incoming->Introduced_1 is Ok && url_parsed(
                "http://"@ + incoming->Introduced_1->Ok_0@ + "/"@,
            ) is None
            &&& action is Ready ==> action->Ready_0 is Err
        }),
{
}

/// A stream whose address makes a URL becomes a connection, with that URL as its base, with the
/// handlers and the limits of the server, and with nothing done on it yet. No other connection is
/// given a task.
pub proof fn law_connection_is_made_of_its_stream<F, L, S, H, P, E, X>(
    server: ServerView<F, L>,
    incoming: Incoming<L, S, X>,
)
    ensures
        ({
            let action = server.step::<S, H, P, E, X>(incoming).1;
            &&& action matches ServerAction::Spawn(stream, connection) ==> {
                &&& incoming is Introduced && incoming->Introduced_0 == stream
                &&& incoming->Introduced_1 is Ok
                &&& url_parsed("http://"@ + incoming->Introduced_1->Ok_0@ + "/"@) == Some(
                    connection.base_url,
                )
                &&& connection.routes == server.routes
                &&& connection.ops == seq![DecoderOp::Created(server.options.decode_options)]
                &&& connection.phase is ReadRequestHead
                &&& !connection.do_close
            }
            &&& incoming is Introduced && incoming->Introduced_1 is Ok && url_parsed(
                "http://"@ + incoming->Introduced_1->Ok_0@ + "/"@,
            ) is Some ==> action is Spawn
        }),
{
}

/// What a socket has done decides what follows for it: it is polled again where it was only woken or
/// has just been bound, is left alone where it has nothing, and else gives what it has.
pub proof fn law_socket_gives_what_it_has<F, L, S, X>(
    listener: Listener<F, L>,
    progress: ListenerProgress<L, S, X>,
)
    requires
        listener.expects(progress),
    ensures
        ({
            let step = listener.step(progress);
            let after = listener.after(progress);
            &&& step is PollBind ==> after is Binding
            &&& step is PollAccept ==> after is Listening
            &&& step is PollBind || step is PollAccept <==> progress is Polled || (progress is Bound
                && progress->Bound_0 is Some && progress->Bound_0->Some_0 is Ok)
            &&& step is Pending <==> progress == ListenerProgress::<L, S, X>::Bound(None) || progress
                == ListenerProgress::<L, S, X>::Accepted(None)
            &&& progress matches ListenerProgress::Bound(Some(Err(e))) ==> step == ListenerStep::<
                S,
                X,
            >::Next(Some(Err(e)))
            &&& progress matches ListenerProgress::Accepted(Some(accepted)) ==> step
                == ListenerStep::<S, X>::Next(Some(accepted))
            &&& progress matches ListenerProgress::Bound(Some(Ok(bound))) ==> after == Listener::<
                F,
                L,
            >::Listening(bound)
            &&& after != listener ==> progress is Bound
        }),
{
}

/// What is fit for a socket follows its state alone: its binding is reported while it is being bound,
/// and streams once it listens.
pub proof fn law_socket_reports_fit_its_state<F, L, S, X>(
    listener: Listener<F, L>,
    progress: ListenerProgress<L, S, X>,
)
    ensures
        progress is Polled ==> listener.expects(progress),
        progress is Bound ==> (listener.expects(progress) <==> listener is Binding),
        progress is Accepted ==> (listener.expects(progress) <==> listener is Listening),
{
}

/// A stream or an error that a socket gives is passed on as it is, and a socket without further
/// streams ends the server.
pub proof fn law_streams_and_errors_are_passed_on<S, C, X>(
    step: ListenerStep<S, X>,
    stream: S,
    made: Result<C, ErrorKind>,
)
    ensures
        ({
            let action = after_listener::<S, C, X>(step);
            &&& step is PollBind <==> action is PollBind
            &&& step is PollAccept <==> action is PollAccept
            &&& step is Pending <==> action is Pending
            &&& step matches ListenerStep::Next(Some(Ok((given, addr)))) ==> action
                == ServerAction::<S, C, X>::Introduce(given, addr)
            &&& step matches ListenerStep::Next(Some(Err(e))) ==> action == ServerAction::<
                S,
                C,
                X,
            >::Ready(Err(ServeError::Io(e)))
            &&& step matches ListenerStep::Next(None) ==> action == ServerAction::<S, C, X>::Ready(
                Ok(()),
            )
        }),
        ({
            let action = after_connection::<S, C, X>(stream, made);
            &&& made matches Ok(connection) ==> action == ServerAction::<S, C, X>::Spawn(
                stream,
                connection,
            )
            &&& made matches Err(kind) ==> action == ServerAction::<S, C, X>::Ready(
                Err(ServeError::Connection(kind)),
            )
        }),
{
}

/// Waiting for the address of a server changes nothing but its socket: that listens as soon as it is
/// bound, and the server is over where it cannot be bound.
pub proof fn law_waiting_for_the_address_binds<F, L, X>(
    server: ServerView<F, L>,
    polled: Option<Result<L, X>>,
)
    ensures
        ({
            let next = server.bound(polled);
            &&& polled is None ==> next == server
            &&& polled matches Some(Ok(listener)) ==> next.listener == Listener::<F, L>::Listening(
                listener,
            ) && next.stage == server.stage
            &&& polled matches Some(Err(_)) ==> next.stage is Done && next.listener
                == server.listener
            &&& next.routes == server.routes
            &&& next.options == server.options
        }),
{
}

/// Where no settings are chosen, both buffers have 8192 bytes, and a request line and a header 65535
/// each.
pub proof fn law_default_settings()
    ensures
        default_options().read_buffer_size == 8192,
        default_options().write_buffer_size == 8192,
        default_options().decode_options.max_start_line_size == 65535,
        default_options().decode_options.max_header_size == 65535,
{
}

/// Each setting of a builder sets what it is named after and leaves everything else as it was.
pub proof fn law_setting_sets_what_it_names<T>(
    builder: ServerBuilderView<T>,
    n: usize,
    decode: DecodeOptions,
)
    ensures
        ({
            let set = builder.with_read_buffer_size(n);
            &&& set.options.read_buffer_size == n
            &&& set.options.write_buffer_size == builder.options.write_buffer_size
            &&& set.options.decode_options == builder.options.decode_options
            &&& set == (ServerBuilderView { options: set.options, ..builder })
        }),
        ({
            let set = builder.with_write_buffer_size(n);
            &&& set.options.read_buffer_size == builder.options.read_buffer_size
            &&& set.options.write_buffer_size == n
            &&& set.options.decode_options == builder.options.decode_options
            &&& set == (ServerBuilderView { options: set.options, ..builder })
        }),
        ({
            let set = builder.with_decode_options(decode);
            &&& set.options.read_buffer_size == builder.options.read_buffer_size
            &&& set.options.write_buffer_size == builder.options.write_buffer_size
            &&& set.options.decode_options == decode
            &&& set == (ServerBuilderView { options: set.options, ..builder })
        }),
{
}

/// A handler is added behind those that are there, which all keep their places, and nothing else
/// about the builder changes.
pub proof fn law_handler_is_added_at_the_end<T>(
    builder: ServerBuilderView<T>,
    route: RouteView,
    handler: T,
)
    requires
        builder.wf(),
        !builder.routes.contains(route),
    ensures
        ({
            let added = builder.with_handler(route, handler);
            &&& added.wf()
            &&& added.routes.len() == builder.routes.len() + 1
            &&& added.routes.last() == route
            &&& added.handlers.last() == handler
            &&& added.routes.drop_last() == builder.routes
            &&& added.handlers.drop_last() == builder.handlers
            &&& added.bind_addr == builder.bind_addr
            &&& added.metrics == builder.metrics
            &&& added.options == builder.options
        }),
{
    let added = builder.with_handler(route, handler);
    assert(added.routes.drop_last() =~= builder.routes);
    assert(added.handlers.drop_last() =~= builder.handlers);
}

/// What is counted goes up by one, and everything else stays as it was.
pub proof fn law_only_what_happens_is_counted(metrics: ServerMetrics, metric: Metric, other: Metric)
    requires
        metrics.count(metric) < u64::MAX,
    ensures
        metrics.plus(metric).count(metric) == metrics.count(metric) + 1,
        other != metric ==> metrics.plus(metric).count(other) == metrics.count(other),
{
}

/// Each thing that is counted has a count of its own name, and the errors that requests are answered
/// with are five of them.
pub proof fn law_counts_have_names(metrics: ServerMetrics)
    ensures
        metrics.count(Metric::ConnectedTcpClients) == metrics.connected_tcp_clients,
        metrics.count(Metric::DisconnectedTcpClients) == metrics.disconnected_tcp_clients,
        metrics.count(Metric::ReadRequestHeadErrors) == metrics.read_request_head_errors,
        metrics.count(Metric::ParseRequestPathErrors) == metrics.parse_request_path_errors,
        metrics.count(Metric::DispatchRequestErrors) == metrics.dispatch_request_errors,
        metrics.count(Metric::InitializeHandlerErrors) == metrics.initialize_handler_errors,
        metrics.count(Metric::DecodeRequestBodyErrors) == metrics.decode_request_body_errors,
        metrics.count(Metric::WriteResponseErrors) == metrics.write_response_errors,
        metrics.request_errors() == metrics.count(Metric::ReadRequestHeadErrors) + metrics.count(
            Metric::ParseRequestPathErrors,
        ) + metrics.count(Metric::DispatchRequestErrors) + metrics.count(
            Metric::InitializeHandlerErrors,
        ) + metrics.count(Metric::DecodeRequestBodyErrors),
{
}

/// At first nothing is counted.
pub proof fn law_counts_begin_at_zero(metric: Metric)
    ensures
        ServerMetrics::zero().count(metric) == 0,
{
}

/// What has been added since is what brings the earlier count to the later one.
pub proof fn law_excess_fills_the_gap(now: u64, before: u64)
    ensures
        before <= now ==> before + excess(now, before) == now,
        now <= before ==> excess(now, before) == 0,
{
}

/// The statuses of a server's own responses have different numbers. All but "internal server error"
/// say that the client is at fault.
pub proof fn law_statuses_have_numbers(a: Status, b: Status)
    ensures
        a.spec_code() == b.spec_code() <==> a == b,
        a is InternalServerError ==> a.spec_code() == 500,
        !(a is InternalServerError) ==> 400 <= a.spec_code() < 500,
{
}

/// What contracts say of an action of a server is said of that very action.
pub proof fn law_views_keep_what_a_server_does<S, H, P, E, X>(
    action: ServerAction<S, Connection<H, P, E>, X>,
)
    ensures
        action is PollBind <==> action@ is PollBind,
        action is PollAccept <==> action@ is PollAccept,
        action is Introduce <==> action@ is Introduce,
        action matches ServerAction::Introduce(stream, addr) ==> action@->Introduce_0 == stream
            && action@->Introduce_1 == addr,
        action is Spawn <==> action@ is Spawn,
        action matches ServerAction::Spawn(stream, connection) ==> action@->Spawn_0 == stream
            && action@->Spawn_1 == connection@,
        action is Pending <==> action@ is Pending,
        action is Ready <==> action@ is Ready,
        action matches ServerAction::Ready(result) ==> action@->Ready_0 == result,
{
}

} // verus!
