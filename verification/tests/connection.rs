use bytecodec::io::{ReadBuf, StreamState};
use fibers_http_server::{
    new_read_buf, Action, Connection, DecodeOptions, DispatcherBuilder, EncodeState, ErrorKind, Event,
    HttpVersion, InputState, IoStatus, Phase, PhaseKind, ReplyState, Req, RequestHead, ResEncoder,
    ServerMetrics, ServerOptions, Status,
};
use std::io::Read;

/// A handler is a number, a reply a text, and a response a list of bytes.
type Conn = Connection<u32, &'static str, Vec<u8>>;

/// A reader that has these bytes and then would block.
struct Chunk<'a>(&'a [u8]);
impl<'a> Read for Chunk<'a> {
    fn read(&mut self, buf: &mut [u8]) -> std::io::Result<usize> {
        if self.0.is_empty() {
            return Err(std::io::Error::from(std::io::ErrorKind::WouldBlock));
        }
        let n = self.0.len().min(buf.len());
        buf[..n].copy_from_slice(&self.0[..n]);
        self.0 = &self.0[n..];
        Ok(n)
    }
}

fn options() -> ServerOptions {
    ServerOptions {
        read_buffer_size: 1024,
        write_buffer_size: 1024,
        decode_options: DecodeOptions::default(),
    }
}

fn connection() -> Conn {
    let mut builder = DispatcherBuilder::new();
    builder.register_handler("GET", "/hello").unwrap();
    builder.register_handler("PUT", "/hello").unwrap();
    builder.register_handler("GET", "/bye").unwrap();
    Connection::new("127.0.0.1:3100", builder.finish(), &options()).unwrap()
}

fn buffer(bytes: &[u8]) -> ReadBuf<Vec<u8>> {
    let mut buf = new_read_buf(vec![0; 1024]);
    buf.fill(Chunk(bytes)).unwrap();
    buf
}

fn rest(buf: &mut ReadBuf<Vec<u8>>) -> Vec<u8> {
    let mut bytes = Vec::new();
    buf.read_to_end(&mut bytes).unwrap();
    bytes
}

const BUSY: IoStatus =
    IoStatus { eos: false, write_buf_empty: true, would_block: false, server_alive: true };
const BLOCKED: IoStatus =
    IoStatus { eos: false, write_buf_empty: true, would_block: true, server_alive: true };

/// Leads a connection to the choice of a handler, and returns what is to be done then.
fn read_head(conn: &mut Conn, buf: &mut ReadBuf<Vec<u8>>) -> Action<Req, u32, &'static str, Vec<u8>> {
    assert!(matches!(conn.poll(Event::Polled, BLOCKED, buf), Action::ExecuteIo));
    conn.poll(Event::IoExecuted(Ok(())), BLOCKED, buf)
}

/// Leads a connection to a response that is being written.
fn reply(conn: &mut Conn, buf: &mut ReadBuf<Vec<u8>>, close: bool) {
    assert!(matches!(read_head(conn, buf), Action::ExecuteIo));
    let action = conn.poll(Event::IoExecuted(Ok(())), BLOCKED, buf);
    assert!(matches!(action, Action::InitHandler(..)));
    let action = conn.poll(Event::HandlerInitialized(Ok(7)), BLOCKED, buf);
    assert!(matches!(action, Action::ExecuteIo));
    let action = conn.poll(Event::IoExecuted(Ok(())), BLOCKED, buf);
    assert!(matches!(action, Action::HandleInput(7)));
    let action = conn.poll(Event::InputHandled(InputState::Replied("r", close)), BLOCKED, buf);
    assert!(matches!(action, Action::ExecuteIo));
    let action = conn.poll(Event::IoExecuted(Ok(())), BLOCKED, buf);
    assert!(matches!(action, Action::PollReply("r")));
    let action = conn.poll(Event::ReplyPolled(ReplyState::Ready(vec![1, 2])), BLOCKED, buf);
    assert!(matches!(action, Action::ExecuteIo));
    match conn.poll(Event::IoExecuted(Ok(())), BLOCKED, buf) {
        Action::EncodeResponse(ResEncoder::Reply(bytes)) => assert_eq!(bytes, [1, 2]),
        action => panic!("{:?}", action),
    }
}

/// Checks that a connection answers with an error and then ends.
fn answers(conn: &mut Conn, buf: &mut ReadBuf<Vec<u8>>, status: Status) {
    assert_eq!(conn.phase_kind(), PhaseKind::WriteResponse);
    assert!(conn.do_close());
    match conn.poll(Event::IoExecuted(Ok(())), BLOCKED, buf) {
        Action::EncodeResponse(ResEncoder::Error(s)) => assert_eq!(s, status),
        action => panic!("{:?}", action),
    }
    let io = IoStatus { write_buf_empty: false, ..BLOCKED };
    let action = conn.poll(Event::ResponseEncoded(EncodeState::Complete), io, buf);
    assert!(matches!(action, Action::ExecuteIo));
    assert_eq!(conn.phase_kind(), PhaseKind::Closed);
    let action = conn.poll(Event::IoExecuted(Ok(())), io, buf);
    assert!(matches!(action, Action::Pending));
    let action = conn.poll(Event::Polled, BLOCKED, buf);
    assert!(matches!(action, Action::Ready(Ok(()))));
    assert_eq!(conn.metrics().disconnected_tcp_clients, 1);
}

fn errors(conn: &Conn) -> [u64; 6] {
    let m = conn.metrics();
    [
        m.read_request_head_errors,
        m.parse_request_path_errors,
        m.dispatch_request_errors,
        m.initialize_handler_errors,
        m.decode_request_body_errors,
        m.write_response_errors,
    ]
}

#[test]
fn new_connection_counts_its_client() {
    let conn = connection();
    let expected = ServerMetrics { connected_tcp_clients: 1, ..ServerMetrics::new() };
    assert_eq!(conn.metrics(), expected);
    assert_eq!(conn.phase_kind(), PhaseKind::ReadRequestHead);
    assert!(!conn.do_close());
}

#[test]
fn new_connection_needs_an_address_that_makes_a_url() {
    let made: Result<Conn, ErrorKind> =
        Connection::new("no address", DispatcherBuilder::new().finish(), &options());
    assert!(matches!(made, Err(ErrorKind::InvalidInput)));
    let made: Result<Conn, ErrorKind> =
        Connection::new("[::1]:8080", DispatcherBuilder::new().finish(), &options());
    assert!(made.is_ok());
}

#[test]
fn whole_head_is_read_and_the_body_stays_in_the_buffer() {
    let mut conn = connection();
    let mut buf = buffer(b"GET /hello?x=1 HTTP/1.1\r\nHost: a b\r\nN:\r\n\r\nBODY");
    assert!(matches!(read_head(&mut conn, &mut buf), Action::ExecuteIo));
    assert_eq!(conn.phase_kind(), PhaseKind::DispatchRequest);
    assert_eq!(buf.len(), 4);
    match conn.poll(Event::IoExecuted(Ok(())), BLOCKED, &mut buf) {
        Action::InitHandler(0, req) => {
            assert_eq!(req.head.method, "GET");
            assert_eq!(req.head.target, "/hello?x=1");
            assert_eq!(req.head.version, HttpVersion::V1_1);
            assert_eq!(
                req.head.fields,
                [("Host".to_owned(), "a b".to_owned()), ("N".to_owned(), "".to_owned())]
            );
            assert_eq!(req.url, "http://127.0.0.1:3100/hello?x=1");
            assert_eq!(req.path, "/hello");
        }
        action => panic!("{:?}", action),
    }
    assert_eq!(rest(&mut buf), b"BODY");
}

#[test]
fn head_may_come_in_pieces() {
    let mut conn = connection();
    let mut buf = buffer(b"GET /bye HT");
    assert!(matches!(read_head(&mut conn, &mut buf), Action::Pending));
    assert_eq!(conn.phase_kind(), PhaseKind::ReadRequestHead);
    assert_eq!(buf.len(), 0);
    buf.fill(Chunk(b"TP/1.0\r\nA: 1\r")).unwrap();
    assert!(matches!(read_head(&mut conn, &mut buf), Action::Pending));
    buf.fill(Chunk(b"\n\r\n")).unwrap();
    assert!(matches!(read_head(&mut conn, &mut buf), Action::ExecuteIo));
    match conn.poll(Event::IoExecuted(Ok(())), BLOCKED, &mut buf) {
        Action::InitHandler(2, req) => {
            assert_eq!(req.head.version, HttpVersion::V1_0);
            assert_eq!(req.head.fields, [("A".to_owned(), "1".to_owned())]);
        }
        action => panic!("{:?}", action),
    }
}

const HEAD: &[u8] = b"GET /hello?x=1 HTTP/1.1\r\nHost:  a b \r\nN:\r\n:e\r\n\r\n";

/// What a request reads.
fn parts(req: Req) -> (String, String, HttpVersion, Vec<(String, String)>, String) {
    (req.head.method, req.head.target, req.head.version, req.head.fields, req.url)
}

#[test]
fn head_may_be_cut_anywhere() {
    let whole = match connection().read_request_head(&mut buffer(HEAD)) {
        Phase::DispatchRequest(req) => parts(req),
        phase => panic!("{:?}", phase),
    };
    assert_eq!(whole.3[0], ("Host".to_owned(), "a b".to_owned()));
    for i in 1..HEAD.len() {
        let mut conn = connection();
        let mut buf = buffer(&HEAD[..i]);
        assert!(matches!(conn.read_request_head(&mut buf), Phase::ReadRequestHead));
        assert_eq!(buf.len(), 0);
        assert_eq!(conn.metrics(), connection().metrics());
        buf.fill(Chunk(&HEAD[i..])).unwrap();
        buf.fill(Chunk(b"BODY")).unwrap();
        match conn.read_request_head(&mut buf) {
            Phase::DispatchRequest(req) => assert_eq!(parts(req), whole),
            phase => panic!("{:?}", phase),
        }
        assert_eq!(rest(&mut buf), b"BODY");
        assert_eq!(conn.metrics(), connection().metrics());
        assert!(!conn.do_close());
    }
}

#[test]
fn head_may_come_byte_by_byte() {
    let mut conn = connection();
    let mut buf = buffer(b"");
    for (i, byte) in HEAD.iter().enumerate() {
        buf.fill(Chunk(&[*byte])).unwrap();
        let phase = conn.read_request_head(&mut buf);
        assert_eq!(buf.len(), 0);
        if i + 1 < HEAD.len() {
            assert!(matches!(phase, Phase::ReadRequestHead));
        } else {
            assert!(matches!(phase, Phase::DispatchRequest(_)));
        }
    }
}

fn first_value(phase: Phase<Req, u32, &'static str, Vec<u8>>) -> String {
    match phase {
        Phase::DispatchRequest(req) => req.head.fields[0].1.clone(),
        phase => panic!("{:?}", phase),
    }
}

#[test]
fn blank_behind_a_carriage_return_makes_a_cut_visible() {
    let mut buf = buffer(b"GET / HTTP/1.1\r\nN:\r x\n\r\n");
    assert_eq!(first_value(connection().read_request_head(&mut buf)), "\r ");
    let mut conn = connection();
    let mut buf = buffer(b"GET / HTTP/1.1\r\nN:\r");
    assert!(matches!(conn.read_request_head(&mut buf), Phase::ReadRequestHead));
    buf.fill(Chunk(b" x\n\r\n")).unwrap();
    assert_eq!(first_value(conn.read_request_head(&mut buf)), " ");
}

#[test]
fn other_cuts_of_such_a_head_are_not_visible() {
    let head = b"GET / HTTP/1.1\r\nN: \r \tx y\nM:\rz\n\r\n";
    let whole = first_value(connection().read_request_head(&mut buffer(head)));
    assert_eq!(whole, "\r \tx ");
    let cr = head.windows(2).position(|w| w == b"\r ").unwrap();
    for i in (1..head.len()).filter(|i| *i != cr + 1 && *i != cr + 2) {
        let mut conn = connection();
        let mut buf = buffer(&head[..i]);
        assert!(matches!(conn.read_request_head(&mut buf), Phase::ReadRequestHead));
        buf.fill(Chunk(&head[i..])).unwrap();
        assert_eq!(first_value(conn.read_request_head(&mut buf)), whole);
    }
}

#[test]
fn limit_is_held_against_all_that_is_shown_at_once() {
    let mut options = options();
    options.decode_options.max_start_line_size = 20;
    let made = || -> Conn {
        Connection::new("127.0.0.1:3100", DispatcherBuilder::new().finish(), &options).unwrap()
    };
    let head = b"GET / HTTP/1.1\r\nN: 1\r\n\r\n";
    let mut conn = made();
    let phase = conn.read_request_head(&mut buffer(head));
    assert!(matches!(phase, Phase::WriteResponse(ResEncoder::Error(Status::BadRequest))));
    let mut conn = made();
    let mut buf = buffer(&head[..16]);
    assert!(matches!(conn.read_request_head(&mut buf), Phase::ReadRequestHead));
    buf.fill(Chunk(&head[16..])).unwrap();
    assert!(matches!(conn.read_request_head(&mut buf), Phase::DispatchRequest(_)));
}

#[test]
fn new_read_buf_is_empty_and_has_room() {
    let mut buf = new_read_buf(vec![7; 3]);
    assert_eq!((buf.len(), buf.room()), (0, 3));
    assert!(!buf.stream_state().is_eos());
    buf.fill(Chunk(b"abcd")).unwrap();
    assert_eq!(rest(&mut buf), b"abc");
}

#[test]
fn path_is_resolved_against_the_base_url() {
    let mut conn = connection();
    let mut buf = buffer(b"GET /x/../hello#f HTTP/1.1\r\n\r\n");
    read_head(&mut conn, &mut buf);
    match conn.poll(Event::IoExecuted(Ok(())), BLOCKED, &mut buf) {
        Action::InitHandler(0, req) => {
            assert_eq!(req.path, "/hello");
            assert_eq!(req.url, "http://127.0.0.1:3100/hello#f");
        }
        action => panic!("{:?}", action),
    }
}

#[test]
fn bad_head_is_answered_with_bad_request() {
    let mut conn = connection();
    let mut buf = buffer(b"G:T / HTTP/1.1\r\n\r\n");
    assert!(matches!(read_head(&mut conn, &mut buf), Action::ExecuteIo));
    assert_eq!(errors(&conn), [1, 0, 0, 0, 0, 0]);
    assert_eq!(buf.len(), 18);
    answers(&mut conn, &mut buf, Status::BadRequest);
    assert_eq!(errors(&conn), [1, 0, 0, 0, 0, 0]);
}

#[test]
fn unknown_version_is_answered_with_bad_request() {
    let mut conn = connection();
    let mut buf = buffer(b"GET / HTTP/1.2\r\n\r\n");
    assert!(matches!(read_head(&mut conn, &mut buf), Action::ExecuteIo));
    assert_eq!(errors(&conn), [1, 0, 0, 0, 0, 0]);
    answers(&mut conn, &mut buf, Status::BadRequest);
}

#[test]
fn limits_of_the_head_are_kept() {
    let mut options = options();
    options.decode_options.max_start_line_size = 10;
    let mut conn: Conn =
        Connection::new("127.0.0.1:3100", DispatcherBuilder::new().finish(), &options).unwrap();
    let mut buf = buffer(b"GET /hello");
    assert!(matches!(read_head(&mut conn, &mut buf), Action::Pending));
    buf.fill(Chunk(b"x")).unwrap();
    assert!(matches!(read_head(&mut conn, &mut buf), Action::ExecuteIo));
    assert_eq!(errors(&conn), [1, 0, 0, 0, 0, 0]);
    answers(&mut conn, &mut buf, Status::BadRequest);
}

#[test]
fn bad_path_is_answered_with_bad_request() {
    let mut conn = connection();
    let mut buf = buffer(b"GET //[ HTTP/1.1\r\n\r\n");
    assert!(matches!(read_head(&mut conn, &mut buf), Action::ExecuteIo));
    assert_eq!(errors(&conn), [0, 1, 0, 0, 0, 0]);
    answers(&mut conn, &mut buf, Status::BadRequest);
}

#[test]
fn unknown_path_is_answered_with_not_found() {
    let mut conn = connection();
    let mut buf = buffer(b"GET /nowhere HTTP/1.1\r\n\r\n");
    read_head(&mut conn, &mut buf);
    let action = conn.poll(Event::IoExecuted(Ok(())), BLOCKED, &mut buf);
    assert!(matches!(action, Action::ExecuteIo));
    assert_eq!(errors(&conn), [0, 0, 1, 0, 0, 0]);
    answers(&mut conn, &mut buf, Status::NotFound);
}

#[test]
fn unknown_method_is_answered_with_method_not_allowed() {
    let mut conn = connection();
    let mut buf = buffer(b"POST /hello HTTP/1.1\r\n\r\n");
    read_head(&mut conn, &mut buf);
    conn.poll(Event::IoExecuted(Ok(())), BLOCKED, &mut buf);
    assert_eq!(errors(&conn), [0, 0, 1, 0, 0, 0]);
    answers(&mut conn, &mut buf, Status::MethodNotAllowed);
}

#[test]
fn handler_that_cannot_be_made_is_an_internal_server_error() {
    let mut conn = connection();
    let mut buf = buffer(b"PUT /hello HTTP/1.1\r\n\r\n");
    read_head(&mut conn, &mut buf);
    let action = conn.poll(Event::IoExecuted(Ok(())), BLOCKED, &mut buf);
    assert!(matches!(action, Action::InitHandler(1, _)));
    let failed = Event::HandlerInitialized(Err(ErrorKind::Other));
    assert!(matches!(conn.poll(failed, BLOCKED, &mut buf), Action::ExecuteIo));
    assert_eq!(errors(&conn), [0, 0, 0, 1, 0, 0]);
    answers(&mut conn, &mut buf, Status::InternalServerError);
}

#[test]
fn bad_body_is_answered_with_bad_request() {
    let mut conn = connection();
    let mut buf = buffer(b"GET /hello HTTP/1.1\r\n\r\n");
    read_head(&mut conn, &mut buf);
    conn.poll(Event::IoExecuted(Ok(())), BLOCKED, &mut buf);
    conn.poll(Event::HandlerInitialized(Ok(7)), BLOCKED, &mut buf);
    conn.poll(Event::IoExecuted(Ok(())), BLOCKED, &mut buf);
    let failed = Event::InputHandled(InputState::Failed(ErrorKind::InvalidInput));
    assert!(matches!(conn.poll(failed, BLOCKED, &mut buf), Action::ExecuteIo));
    assert_eq!(errors(&conn), [0, 0, 0, 0, 1, 0]);
    answers(&mut conn, &mut buf, Status::BadRequest);
}

#[test]
fn connection_waits_for_the_body_and_for_the_reply() {
    let mut conn = connection();
    let mut buf = buffer(b"GET /hello HTTP/1.1\r\n\r\n");
    read_head(&mut conn, &mut buf);
    conn.poll(Event::IoExecuted(Ok(())), BLOCKED, &mut buf);
    conn.poll(Event::HandlerInitialized(Ok(7)), BLOCKED, &mut buf);
    conn.poll(Event::IoExecuted(Ok(())), BLOCKED, &mut buf);
    let more = Event::InputHandled(InputState::Incomplete(8));
    assert!(matches!(conn.poll(more, BLOCKED, &mut buf), Action::Pending));
    assert!(matches!(conn.poll(Event::Polled, BLOCKED, &mut buf), Action::ExecuteIo));
    let action = conn.poll(Event::IoExecuted(Ok(())), BLOCKED, &mut buf);
    assert!(matches!(action, Action::HandleInput(8)));
    let more = Event::InputHandled(InputState::Incomplete(8));
    assert!(matches!(conn.poll(more, BUSY, &mut buf), Action::ExecuteIo));
    conn.poll(Event::IoExecuted(Ok(())), BLOCKED, &mut buf);
    conn.poll(Event::InputHandled(InputState::Replied("r", false)), BLOCKED, &mut buf);
    conn.poll(Event::IoExecuted(Ok(())), BLOCKED, &mut buf);
    let pending = Event::ReplyPolled(ReplyState::Pending("s"));
    assert!(matches!(conn.poll(pending, BLOCKED, &mut buf), Action::Pending));
    conn.poll(Event::Polled, BLOCKED, &mut buf);
    let action = conn.poll(Event::IoExecuted(Ok(())), BLOCKED, &mut buf);
    assert!(matches!(action, Action::PollReply("s")));
}

#[test]
fn connection_is_kept_for_the_next_request() {
    let mut conn = connection();
    let mut buf = buffer(b"GET /hello HTTP/1.1\r\n\r\nGET /bye HTTP/1.1\r\n\r\n");
    reply(&mut conn, &mut buf, false);
    let more = Event::ResponseEncoded(EncodeState::Incomplete(ResEncoder::Reply(vec![2])));
    assert!(matches!(conn.poll(more, BLOCKED, &mut buf), Action::Pending));
    conn.poll(Event::Polled, BLOCKED, &mut buf);
    conn.poll(Event::IoExecuted(Ok(())), BLOCKED, &mut buf);
    let action = conn.poll(Event::ResponseEncoded(EncodeState::Complete), BLOCKED, &mut buf);
    assert!(matches!(action, Action::ExecuteIo));
    assert_eq!(conn.phase_kind(), PhaseKind::ReadRequestHead);
    conn.poll(Event::IoExecuted(Ok(())), BLOCKED, &mut buf);
    let action = conn.poll(Event::IoExecuted(Ok(())), BLOCKED, &mut buf);
    assert!(matches!(action, Action::InitHandler(2, _)));
    assert_eq!(errors(&conn), [0; 6]);
}

#[test]
fn connection_is_closed_after_a_reply_that_says_so() {
    let mut conn = connection();
    let mut buf = buffer(b"GET /hello HTTP/1.1\r\n\r\n");
    reply(&mut conn, &mut buf, true);
    assert!(conn.do_close());
    let action = conn.poll(Event::ResponseEncoded(EncodeState::Complete), BLOCKED, &mut buf);
    assert!(matches!(action, Action::Ready(Ok(()))));
    assert_eq!(conn.phase_kind(), PhaseKind::Closed);
    assert_eq!(errors(&conn), [0; 6]);
    assert_eq!(conn.metrics().disconnected_tcp_clients, 1);
}

#[test]
fn response_that_cannot_be_encoded_ends_the_connection() {
    let mut conn = connection();
    let mut buf = buffer(b"GET /hello HTTP/1.1\r\n\r\n");
    reply(&mut conn, &mut buf, false);
    let failed = Event::ResponseEncoded(EncodeState::Failed(ErrorKind::Other));
    assert!(matches!(conn.poll(failed, BLOCKED, &mut buf), Action::Ready(Err(()))));
    assert_eq!(errors(&conn), [0, 0, 0, 0, 0, 1]);
    assert_eq!(conn.metrics().disconnected_tcp_clients, 1);
}

#[test]
fn failed_io_ends_the_connection() {
    let mut conn = connection();
    let mut buf = buffer(b"");
    conn.poll(Event::Polled, BLOCKED, &mut buf);
    let action = conn.poll(Event::IoExecuted(Err(ErrorKind::Other)), BLOCKED, &mut buf);
    assert!(matches!(action, Action::Ready(Err(()))));
    assert_eq!(errors(&conn), [0; 6]);
    assert_eq!(conn.metrics().disconnected_tcp_clients, 1);
}

#[test]
fn client_may_leave_between_requests() {
    let mut conn = connection();
    let mut buf = buffer(b"");
    conn.poll(Event::Polled, BLOCKED, &mut buf);
    buf.fill(b"".as_ref()).unwrap();
    assert_eq!(buf.stream_state(), StreamState::Eos);
    let io = IoStatus { eos: true, ..BUSY };
    let action = conn.poll(Event::IoExecuted(Ok(())), io, &mut buf);
    assert!(matches!(action, Action::Ready(Ok(()))));
    assert_eq!(conn.phase_kind(), PhaseKind::ReadRequestHead);
    assert_eq!(errors(&conn), [0; 6]);
}

#[test]
fn client_may_leave_after_a_request() {
    let mut conn = connection();
    let mut buf = buffer(b"GET /hello HTTP/1.1\r\n\r\n");
    reply(&mut conn, &mut buf, false);
    conn.poll(Event::ResponseEncoded(EncodeState::Complete), BLOCKED, &mut buf);
    buf.fill(b"".as_ref()).unwrap();
    let io = IoStatus { eos: true, ..BUSY };
    let action = conn.poll(Event::IoExecuted(Ok(())), io, &mut buf);
    assert!(matches!(action, Action::Ready(Ok(()))));
    assert_eq!(errors(&conn), [0; 6]);
}

#[test]
fn client_that_leaves_within_a_head_has_made_an_error() {
    let mut conn = connection();
    let mut buf = buffer(b"GET /hel");
    read_head(&mut conn, &mut buf);
    buf.fill(b"".as_ref()).unwrap();
    conn.poll(Event::Polled, BLOCKED, &mut buf);
    let io = IoStatus { eos: true, ..BUSY };
    let action = conn.poll(Event::IoExecuted(Ok(())), io, &mut buf);
    assert!(matches!(action, Action::Ready(Ok(()))));
    assert_eq!(errors(&conn), [1, 0, 0, 0, 0, 0]);
}

#[test]
fn dropped_server_ends_its_connections() {
    let gone = IoStatus { server_alive: false, ..BUSY };
    let mut buf = buffer(b"GET /hello HTTP/1.1\r\n\r\n");
    let mut conn = connection();
    assert!(conn.is_closed(gone));
    assert!(matches!(conn.poll(Event::Polled, gone, &mut buf), Action::Ready(Ok(()))));
    let mut conn = connection();
    reply(&mut conn, &mut buf, false);
    let action = conn.poll(Event::ResponseEncoded(EncodeState::Complete), gone, &mut buf);
    assert!(matches!(action, Action::Ready(Ok(()))));
    assert_eq!(conn.metrics().disconnected_tcp_clients, 1);
}

#[test]
fn connection_is_closed_by_the_stream_the_phase_or_the_server() {
    let conn = connection();
    assert!(!conn.is_closed(BUSY));
    assert!(conn.is_closed(IoStatus { eos: true, ..BUSY }));
    assert!(conn.is_closed(IoStatus { server_alive: false, ..BUSY }));
}

#[test]
fn only_the_awaited_event_is_expected() {
    let mut conn = connection();
    let mut buf = buffer(b"GET /hello HTTP/1.1\r\n\r\n");
    assert!(conn.expects(&Event::Polled));
    assert!(!conn.expects(&Event::IoExecuted(Ok(()))));
    reply(&mut conn, &mut buf, false);
    assert!(conn.expects(&Event::ResponseEncoded(EncodeState::Complete)));
    let own = EncodeState::Incomplete(ResEncoder::Reply(Vec::new()));
    assert!(conn.expects(&Event::ResponseEncoded(own)));
    let other = EncodeState::Incomplete(ResEncoder::Error(Status::NotFound));
    assert!(!conn.expects(&Event::ResponseEncoded(other)));
    conn.poll(Event::ResponseEncoded(EncodeState::Failed(ErrorKind::Other)), BUSY, &mut buf);
    assert!(!conn.expects(&Event::Polled));
    assert!(!conn.expects(&Event::IoExecuted(Ok(()))));
}

fn head(target: &str) -> RequestHead {
    RequestHead {
        method: "GET".to_owned(),
        target: target.to_owned(),
        version: HttpVersion::V1_1,
        fields: Vec::new(),
    }
}

#[test]
fn decoded_head_decides_the_phase() {
    let phase = connection().request_head_decoded(Ok(None));
    assert!(matches!(phase, Phase::ReadRequestHead));
    match connection().request_head_decoded(Ok(Some(head("/a%20b?c")))) {
        Phase::DispatchRequest(req) => {
            assert_eq!(req.path, "/a%20b");
            assert_eq!(req.url, "http://127.0.0.1:3100/a%20b?c");
        }
        phase => panic!("{:?}", phase),
    }
    let mut conn = connection();
    let phase = conn.request_head_decoded(Err(ErrorKind::Other));
    assert!(matches!(phase, Phase::WriteResponse(ResEncoder::Error(Status::BadRequest))));
    assert_eq!(errors(&conn), [1, 0, 0, 0, 0, 0]);
}

#[test]
fn parsed_path_decides_the_phase() {
    let mut conn = connection();
    let phase = conn.request_path_parsed(Err(ErrorKind::InvalidInput));
    assert!(matches!(phase, Phase::WriteResponse(ResEncoder::Error(Status::BadRequest))));
    assert_eq!(errors(&conn), [0, 1, 0, 0, 0, 0]);
    let req = Req::new(head("http://other/x"), "http://a/").unwrap();
    assert_eq!((req.url.as_str(), req.path.as_str()), ("http://other/x", "/x"));
    assert!(matches!(connection().request_path_parsed(Ok(req)), Phase::DispatchRequest(_)));
}

#[test]
fn base_url_is_taken_as_it_is_given() {
    let dispatcher = DispatcherBuilder::new().finish();
    let mut conn: Conn =
        Connection::with_base_url("http://example.org/".to_owned(), dispatcher, &options());
    match conn.request_head_decoded(Ok(Some(head("/p")))) {
        Phase::DispatchRequest(req) => assert_eq!(req.url, "http://example.org/p"),
        phase => panic!("{:?}", phase),
    }
}

#[test]
fn base_url_is_normalized() {
    let dispatcher = DispatcherBuilder::new().finish();
    let mut conn: Conn = Connection::new("[0:0::1]:80", dispatcher, &options()).unwrap();
    match conn.request_head_decoded(Ok(Some(head("/p")))) {
        Phase::DispatchRequest(req) => assert_eq!(req.url, "http://[::1]/p"),
        phase => panic!("{:?}", phase),
    }
}
