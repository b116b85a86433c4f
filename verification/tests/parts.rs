use fibers_http_server::request::base_url;
use fibers_http_server::{
    DecodeOptions, DispatcherBuilder, ErrorKind, HttpVersion, Metric, Phase, PhaseKind, Req,
    RequestHead, ResEncoder, ServerMetrics, Status,
};

fn req(method: &str, target: &str) -> Req {
    let head = RequestHead {
        method: method.to_owned(),
        target: target.to_owned(),
        version: HttpVersion::V1_1,
        fields: Vec::new(),
    };
    Req::new(head, "http://127.0.0.1/").unwrap()
}

#[test]
fn phase_is_taken_out() {
    let mut phase: Phase<(), u8, (), ()> = Phase::HandleRequest(5);
    assert!(!phase.is_closed());
    assert!(matches!(phase.take(), Phase::HandleRequest(5)));
    assert!(phase.is_closed());
    assert!(matches!(phase.take(), Phase::Closed));
    assert!(phase.is_closed());
}

#[test]
fn phase_kinds_ignore_what_phases_hold() {
    let phases: [(Phase<u8, u8, u8, u8>, PhaseKind); 7] = [
        (Phase::ReadRequestHead, PhaseKind::ReadRequestHead),
        (Phase::DispatchRequest(1), PhaseKind::DispatchRequest),
        (Phase::HandleRequest(1), PhaseKind::HandleRequest),
        (Phase::PollReply(1), PhaseKind::PollReply),
        (Phase::WriteResponse(ResEncoder::Reply(1)), PhaseKind::WriteResponse),
        (Phase::WriteResponse(ResEncoder::Error(Status::NotFound)), PhaseKind::WriteResponse),
        (Phase::Closed, PhaseKind::Closed),
    ];
    for (phase, kind) in phases {
        assert_eq!(phase.kind(), kind);
        assert_eq!(phase.is_closed(), kind == PhaseKind::Closed);
    }
}

#[test]
fn status_codes() {
    assert_eq!(Status::BadRequest.code(), 400);
    assert_eq!(Status::NotFound.code(), 404);
    assert_eq!(Status::MethodNotAllowed.code(), 405);
    assert_eq!(Status::InternalServerError.code(), 500);
    assert_eq!(Status::BadRequest.reason_phrase(), "Bad Request");
    assert_eq!(Status::NotFound.reason_phrase(), "Not Found");
    assert_eq!(Status::MethodNotAllowed.reason_phrase(), "Method Not Allowed");
    assert_eq!(Status::InternalServerError.reason_phrase(), "Internal Server Error");
}

#[test]
fn default_decode_options() {
    let options = DecodeOptions::default();
    assert_eq!(options.max_start_line_size, 65535);
    assert_eq!(options.max_header_size, 65535);
}

#[test]
fn base_url_of_an_address() {
    assert_eq!(base_url("127.0.0.1:80"), "http://127.0.0.1:80/");
    assert_eq!(base_url(""), "http:///");
}

#[test]
fn request_with_a_bad_target() {
    let head = RequestHead {
        method: "GET".to_owned(),
        target: "http://[".to_owned(),
        version: HttpVersion::V1_0,
        fields: Vec::new(),
    };
    assert!(matches!(Req::new(head, "http://127.0.0.1/"), Err(ErrorKind::InvalidInput)));
}

#[test]
fn handlers_are_chosen_by_method_and_path() {
    let mut builder = DispatcherBuilder::new();
    assert_eq!(builder.register_handler("GET", "/a"), Ok(()));
    assert_eq!(builder.register_handler("PUT", "/a"), Ok(()));
    assert_eq!(builder.register_handler("GET", "/b"), Ok(()));
    assert_eq!(builder.register_handler("GET", "/a"), Err(ErrorKind::InvalidInput));
    let dispatcher = builder.finish().clone();
    assert_eq!(dispatcher.dispatch(&req("GET", "/a")), Ok(0));
    assert_eq!(dispatcher.dispatch(&req("PUT", "/a?q")), Ok(1));
    assert_eq!(dispatcher.dispatch(&req("GET", "/b")), Ok(2));
    assert_eq!(dispatcher.dispatch(&req("PUT", "/b")), Err(Status::MethodNotAllowed));
    assert_eq!(dispatcher.dispatch(&req("GET", "/a/")), Err(Status::NotFound));
}

#[test]
fn metrics_are_counted_one_by_one() {
    let all = [
        Metric::ConnectedTcpClients,
        Metric::DisconnectedTcpClients,
        Metric::ReadRequestHeadErrors,
        Metric::ParseRequestPathErrors,
        Metric::DispatchRequestErrors,
        Metric::InitializeHandlerErrors,
        Metric::DecodeRequestBodyErrors,
        Metric::WriteResponseErrors,
    ];
    let zero = ServerMetrics::new();
    for metric in all {
        let mut metrics = ServerMetrics::new();
        metrics.increment(metric);
        metrics.increment(metric);
        for other in all {
            assert_eq!(metrics.since(&zero, other), if other == metric { 2 } else { 0 });
            assert_eq!(zero.since(&metrics, other), 0);
        }
    }
}
