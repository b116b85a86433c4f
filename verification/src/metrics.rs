//! Counting what happens on connections.
use vstd::prelude::*;

verus! {

/// A thing that is counted.
#[derive(Debug, Clone, Copy, PartialEq, Eq, Structural)]
pub enum Metric {
    ConnectedTcpClients,
    DisconnectedTcpClients,
    ReadRequestHeadErrors,
    ParseRequestPathErrors,
    DispatchRequestErrors,
    InitializeHandlerErrors,
    DecodeRequestBodyErrors,
    WriteResponseErrors,
}

/// How often each [`Metric`] has occurred.
#[derive(Debug, Clone, Copy, PartialEq, Eq, Structural)]
pub struct ServerMetrics {
    pub connected_tcp_clients: u64,
    pub disconnected_tcp_clients: u64,
    pub read_request_head_errors: u64,
    pub parse_request_path_errors: u64,
    pub dispatch_request_errors: u64,
    pub initialize_handler_errors: u64,
    pub decode_request_body_errors: u64,
    pub write_response_errors: u64,
}

/// How much larger `a` is than `b`, and 0 where it is not.
pub open spec fn excess(a: u64, b: u64) -> u64 {
    if a >= b {
        (a - b) as u64
    } else {
        0
    }
}

impl ServerMetrics {
    /// Nothing has occurred.
    pub open spec fn zero() -> ServerMetrics {
        ServerMetrics {
            connected_tcp_clients: 0,
            disconnected_tcp_clients: 0,
            read_request_head_errors: 0,
            parse_request_path_errors: 0,
            dispatch_request_errors: 0,
            initialize_handler_errors: 0,
            decode_request_body_errors: 0,
            write_response_errors: 0,
        }
    }

    /// How often `metric` has occurred.
    pub open spec fn count(self, metric: Metric) -> u64 {
        match metric {
            Metric::ConnectedTcpClients => self.connected_tcp_clients,
            Metric::DisconnectedTcpClients => self.disconnected_tcp_clients,
            Metric::ReadRequestHeadErrors => self.read_request_head_errors,
            Metric::ParseRequestPathErrors => self.parse_request_path_errors,
            Metric::DispatchRequestErrors => self.dispatch_request_errors,
            Metric::InitializeHandlerErrors => self.initialize_handler_errors,
            Metric::DecodeRequestBodyErrors => self.decode_request_body_errors,
            Metric::WriteResponseErrors => self.write_response_errors,
        }
    }

    /// The errors that a request was answered with by the server itself.
    pub open spec fn request_errors(self) -> int {
        self.read_request_head_errors + self.parse_request_path_errors
            + self.dispatch_request_errors + self.initialize_handler_errors
            + self.decode_request_body_errors
    }

    /// `self` after one more occurrence of `metric`.
    pub open spec fn plus(self, metric: Metric) -> ServerMetrics {
        let n = (self.count(metric) + 1) as u64;
        match metric {
            Metric::ConnectedTcpClients => ServerMetrics { connected_tcp_clients: n, ..self },
            Metric::DisconnectedTcpClients => ServerMetrics { disconnected_tcp_clients: n, ..self },
            Metric::ReadRequestHeadErrors => ServerMetrics { read_request_head_errors: n, ..self },
            Metric::ParseRequestPathErrors => ServerMetrics { parse_request_path_errors: n, ..self },
            Metric::DispatchRequestErrors => ServerMetrics { dispatch_request_errors: n, ..self },
            Metric::InitializeHandlerErrors => ServerMetrics { initialize_handler_errors: n, ..self },
            Metric::DecodeRequestBodyErrors => ServerMetrics { decode_request_body_errors: n, ..self },
            Metric::WriteResponseErrors => ServerMetrics { write_response_errors: n, ..self },
        }
    }

    /// No count of `self` is above that of `later`.
    pub open spec fn at_most(self, later: ServerMetrics) -> bool {
        forall|metric: Metric| #[trigger] self.count(metric) <= later.count(metric)
    }

    /// Makes counts of which every one is 0.
    pub fn new() -> (r: Self)
        ensures
            r == ServerMetrics::zero(),
    {
        ServerMetrics {
            connected_tcp_clients: 0,
            disconnected_tcp_clients: 0,
            read_request_head_errors: 0,
            parse_request_path_errors: 0,
            dispatch_request_errors: 0,
            initialize_handler_errors: 0,
            decode_request_body_errors: 0,
            write_response_errors: 0,
        }
    }

    /// Counts one occurrence of `metric`.
    pub fn increment(&mut self, metric: Metric)
        requires
            old(self).count(metric) < u64::MAX,
        ensures
            *final(self) == old(self).plus(metric),
    {
        match metric {
            Metric::ConnectedTcpClients => self.connected_tcp_clients = self.connected_tcp_clients + 1,
            Metric::DisconnectedTcpClients => self.disconnected_tcp_clients =
            self.disconnected_tcp_clients + 1,
            Metric::ReadRequestHeadErrors => self.read_request_head_errors =
            self.read_request_head_errors + 1,
            Metric::ParseRequestPathErrors => self.parse_request_path_errors =
            self.parse_request_path_errors + 1,
            Metric::DispatchRequestErrors => self.dispatch_request_errors =
            self.dispatch_request_errors + 1,
            Metric::InitializeHandlerErrors => self.initialize_handler_errors =
            self.initialize_handler_errors + 1,
            Metric::DecodeRequestBodyErrors => self.decode_request_body_errors =
            self.decode_request_body_errors + 1,
            Metric::WriteResponseErrors => self.write_response_errors = self.write_response_errors
                + 1,
        }
    }

    /// Returns how often `metric` has occurred since the counts were `earlier`.
    pub fn since(&self, earlier: &ServerMetrics, metric: Metric) -> (r: u64)
        ensures
            r == excess(self.count(metric), earlier.count(metric)),
    {
        let (now, before): (u64, u64) = match metric {
            Metric::ConnectedTcpClients => (
                self.connected_tcp_clients,
                earlier.connected_tcp_clients,
            ),
            Metric::DisconnectedTcpClients => (
                self.disconnected_tcp_clients,
                earlier.disconnected_tcp_clients,
            ),
            Metric::ReadRequestHeadErrors => (
                self.read_request_head_errors,
                earlier.read_request_head_errors,
            ),
            Metric::ParseRequestPathErrors => (
                self.parse_request_path_errors,
                earlier.parse_request_path_errors,
            ),
            Metric::DispatchRequestErrors => (
                self.dispatch_request_errors,
                earlier.dispatch_request_errors,
            ),
            Metric::InitializeHandlerErrors => (
                self.initialize_handler_errors,
                earlier.initialize_handler_errors,
            ),
            Metric::DecodeRequestBodyErrors => (
                self.decode_request_body_errors,
                earlier.decode_request_body_errors,
            ),
            Metric::WriteResponseErrors => (
                self.write_response_errors,
                earlier.write_response_errors,
            ),
        };
        if now >= before {
            now - before
        } else {
            0
        }
    }
}

} // verus!
