use fibers_http_server::{
    Connection, DecodeOptions, ErrorKind, Incoming, Listener, ListenerProgress, ListenerStep,
    LocalAddr, PhaseKind, ServeError, Server, ServerAction, ServerBuilder, ServerOptions,
    ServerParts, SocketAddr,
};
use prometrics::metrics::MetricBuilder;

const ADDR: SocketAddr = SocketAddr::V4 { ipv4: 0x7F00_0001, port: 3100 };
const CLIENT: SocketAddr = SocketAddr::V6 { ipv6: 1, port: 9, flowinfo: 0, scope_id: 2 };

type Parts = ServerParts<&'static str, u8, &'static str>;
type Act = ServerAction<char, Connection<(), (), ()>, i32>;

fn server() -> Server<&'static str, u8> {
    let mut builder = ServerBuilder::new(ADDR);
    builder.add_handler("GET", "/hello", "hello").unwrap();
    let parts: Parts = builder.finish("binding");
    parts.server
}

fn progress(server: &mut Server<&'static str, u8>, p: ListenerProgress<u8, char, i32>) -> Act {
    let incoming = Incoming::Listener(p);
    assert!(server.expects(&incoming));
    server.poll(incoming)
}

/// Makes a server whose socket listens and is asked for a stream.
fn listening() -> Server<&'static str, u8> {
    let mut server = server();
    assert!(matches!(progress(&mut server, ListenerProgress::Polled), ServerAction::PollBind));
    let action = progress(&mut server, ListenerProgress::Bound(Some(Ok(3))));
    assert!(matches!(action, ServerAction::PollAccept));
    server
}

fn told(server: &mut Server<&'static str, u8>, incoming: Incoming<u8, char, i32>) -> Act {
    assert!(server.expects(&incoming));
    server.poll(incoming)
}

fn local(server: &Server<&'static str, u8>) -> Result<SocketAddr, u8> {
    match server.local_addr_immediate() {
        LocalAddr::Known(addr) => Ok(addr),
        LocalAddr::Ask(listener) => Err(*listener),
    }
}

#[test]
fn builder_has_default_settings() {
    let builder: ServerBuilder<()> = ServerBuilder::new(ADDR);
    let parts: ServerParts<(), (), ()> = builder.finish(());
    assert_eq!(
        parts.server.options(),
        ServerOptions {
            read_buffer_size: 8192,
            write_buffer_size: 8192,
            decode_options: DecodeOptions { max_start_line_size: 65535, max_header_size: 65535 },
        }
    );
    assert!(parts.handlers.is_empty());
}

#[test]
fn builder_settings_are_independent() {
    let decode = DecodeOptions { max_start_line_size: 1, max_header_size: 2 };
    let mut a: ServerBuilder<()> = ServerBuilder::new(ADDR);
    a.read_buffer_size(5).write_buffer_size(6).read_buffer_size(7).decode_options(decode);
    let mut b: ServerBuilder<()> = ServerBuilder::new(ADDR);
    b.decode_options(decode).write_buffer_size(6).read_buffer_size(7);
    b.metrics(MetricBuilder::without_registry());
    let a: ServerParts<(), (), ()> = a.finish(());
    let b: ServerParts<(), (), ()> = b.finish(());
    let expected =
        ServerOptions { read_buffer_size: 7, write_buffer_size: 6, decode_options: decode };
    assert_eq!(a.server.options(), expected);
    assert_eq!(b.server.options(), expected);
}

#[test]
fn builder_passes_its_metric_builder_on() {
    let mut builder: ServerBuilder<()> = ServerBuilder::new(ADDR);
    let mut metrics = MetricBuilder::without_registry();
    metrics.namespace("mine");
    builder.metrics(metrics);
    let parts: ServerParts<(), (), ()> = builder.finish(());
    assert!(format!("{:?}", parts.metrics).contains("mine"));
}

#[test]
fn conflicting_handlers_are_refused() {
    let mut builder = ServerBuilder::new(ADDR);
    assert!(builder.add_handler("GET", "/hello", 1).is_ok());
    assert!(builder.add_handler("PUT", "/hello", 2).is_ok());
    assert!(builder.add_handler("GET", "/bye", 3).is_ok());
    assert!(matches!(builder.add_handler("GET", "/hello", 4), Err(ErrorKind::InvalidInput)));
    assert!(builder.add_handler("PUT", "/bye", 5).is_ok());
    let parts: ServerParts<(), (), i32> = builder.finish(());
    assert_eq!(parts.handlers, [1, 2, 3, 5]);
}

#[test]
fn builder_has_the_default_metric_builder() {
    let builder: ServerBuilder<()> = ServerBuilder::new(ADDR);
    let parts: ServerParts<(), (), ()> = builder.finish(());
    assert_eq!(format!("{:?}", parts.metrics), format!("{:?}", MetricBuilder::default()));
}

#[test]
fn address_is_known_until_the_socket_listens() {
    let mut server = server();
    assert_eq!(local(&server), Ok(ADDR));
    progress(&mut server, ListenerProgress::Polled);
    assert!(matches!(progress(&mut server, ListenerProgress::Bound(None)), ServerAction::Pending));
    assert_eq!(local(&server), Ok(ADDR));
    assert_eq!(server.listening(), None);
    progress(&mut server, ListenerProgress::Polled);
    progress(&mut server, ListenerProgress::Bound(Some(Ok(3))));
    assert_eq!(local(&server), Err(3));
    assert_eq!(server.listening(), Some(&3));
    let (server, addr) = server.local_addr::<i32>(Ok(CLIENT)).ok().unwrap();
    assert_eq!(addr, CLIENT);
    assert!(matches!(server.local_addr(Err(4)), Err(4)));
}

#[test]
fn address_can_be_waited_for() {
    let mut s = server();
    assert_eq!(s.binding_polled::<i32>(None), None);
    assert_eq!(local(&s), Ok(ADDR));
    assert_eq!(s.binding_polled::<i32>(Some(Ok(3))), Some(Ok(())));
    assert_eq!(local(&s), Err(3));
    assert!(s.binding_mut().is_none());
    let (mut s, _) = s.local_addr::<i32>(Ok(CLIENT)).ok().unwrap();
    assert!(matches!(progress(&mut s, ListenerProgress::Polled), ServerAction::PollAccept));

    let mut s = server();
    assert_eq!(s.binding_polled(Some(Err(5))), Some(Err(5)));
    assert!(!s.expects(&Incoming::<u8, char, i32>::Listener(ListenerProgress::Polled)));
}

#[test]
fn listener_says_its_state() {
    let mut listener: Listener<(), ()> = Listener::Binding((), ADDR);
    assert_eq!(listener.debug_text(), "Listener Binding");
    let step: ListenerStep<(), ()> = listener.poll_next(ListenerProgress::Bound(Some(Ok(()))));
    assert!(matches!(step, ListenerStep::PollAccept));
    assert_eq!(listener.debug_text(), "Listener Listening");
    assert!(matches!(listener.local_addr(), LocalAddr::Ask(())));
}

#[test]
fn server_binds_and_then_accepts() {
    let mut server = server();
    let action = progress(&mut server, ListenerProgress::Polled);
    assert!(matches!(action, ServerAction::PollBind));
    assert!(!server.expects(&Incoming::<u8, char, i32>::Listener(ListenerProgress::Accepted(None))));
    assert_eq!(server.binding_mut(), Some(&mut "binding"));
    let action = progress(&mut server, ListenerProgress::Bound(Some(Ok(3))));
    assert!(matches!(action, ServerAction::PollAccept));
    assert_eq!(server.listening(), Some(&3));
    assert!(!server.expects(&Incoming::<u8, char, i32>::Listener(ListenerProgress::Bound(None))));
    let action = progress(&mut server, ListenerProgress::Accepted(None));
    assert!(matches!(action, ServerAction::Pending));
    let action = progress(&mut server, ListenerProgress::Polled);
    assert!(matches!(action, ServerAction::PollAccept));
}

#[test]
fn accepted_stream_becomes_a_connection() {
    let mut server = listening();
    let action = progress(&mut server, ListenerProgress::Accepted(Some(Ok(('s', CLIENT)))));
    assert!(matches!(action, ServerAction::Introduce('s', CLIENT)));
    assert!(!server.expects(&Incoming::<u8, char, i32>::Spawned));
    let address = Ok("127.0.0.1:3100".to_owned());
    match told(&mut server, Incoming::Introduced('s', address)) {
        ServerAction::Spawn('s', connection) => {
            assert_eq!(connection.phase_kind(), PhaseKind::ReadRequestHead);
            assert_eq!(connection.metrics().connected_tcp_clients, 1);
        }
        action => panic!("{:?}", action),
    }
    assert!(!server.expects(&Incoming::<u8, char, i32>::Introduced('s', Err(1))));
    assert!(matches!(told(&mut server, Incoming::Spawned), ServerAction::PollAccept));
}

#[test]
fn accepted_streams_are_spawned_once_and_in_order() {
    let mut server = listening();
    let mut spawned = Vec::new();
    let mut connected = 0;
    for stream in ['a', 'b', 'c'] {
        let accepted = ListenerProgress::Accepted(Some(Ok((stream, CLIENT))));
        match progress(&mut server, accepted) {
            ServerAction::Introduce(s, CLIENT) => {
                let address = Ok("[::1]:3100".to_owned());
                match told(&mut server, Incoming::Introduced(s, address)) {
                    ServerAction::Spawn(s, connection) => {
                        spawned.push(s);
                        connected += connection.metrics().connected_tcp_clients;
                    }
                    action => panic!("{:?}", action),
                }
            }
            action => panic!("{:?}", action),
        }
        assert!(matches!(told(&mut server, Incoming::Spawned), ServerAction::PollAccept));
    }
    assert_eq!(spawned, ['a', 'b', 'c']);
    assert_eq!(connected, 3);
}

#[test]
fn server_stops_on_errors() {
    let over = Incoming::<u8, char, i32>::Listener(ListenerProgress::Polled);
    let mut s = server();
    progress(&mut s, ListenerProgress::Polled);
    let action = progress(&mut s, ListenerProgress::Bound(Some(Err(1))));
    assert!(matches!(action, ServerAction::Ready(Err(ServeError::Io(1)))));
    assert_eq!(local(&s), Ok(ADDR));
    assert!(!s.expects(&over));

    let mut s = listening();
    let action = progress(&mut s, ListenerProgress::Accepted(Some(Err(2))));
    assert!(matches!(action, ServerAction::Ready(Err(ServeError::Io(2)))));
    assert!(!s.expects(&over));

    let mut s = listening();
    progress(&mut s, ListenerProgress::Accepted(Some(Ok(('s', CLIENT)))));
    let action = told(&mut s, Incoming::Introduced('s', Err(5)));
    assert!(matches!(action, ServerAction::Ready(Err(ServeError::Io(5)))));

    let mut s = listening();
    progress(&mut s, ListenerProgress::Accepted(Some(Ok(('s', CLIENT)))));
    let action = told(&mut s, Incoming::Introduced('s', Ok("a b".to_owned())));
    let invalid = ErrorKind::InvalidInput;
    assert!(matches!(action, ServerAction::Ready(Err(ServeError::Connection(k))) if k == invalid));
}

#[test]
fn server_ends_with_its_socket() {
    let action: ServerAction<char, (), i32> =
        Server::<(), ()>::listener_polled(ListenerStep::Next(None));
    assert!(matches!(action, ServerAction::Ready(Ok(()))));
    let action: ServerAction<char, u8, i32> = Server::<(), ()>::connection_made('s', Ok(1));
    assert!(matches!(action, ServerAction::Spawn('s', 1)));
}
