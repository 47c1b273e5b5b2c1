use vstd::prelude::*;
use vstd::string::StringExecFns;
use crate::dispatch::status_success;

verus! {

/// Pause between two rounds of the health-check loop, in milliseconds.
pub const HEALTH_INTERVAL_MS: u64 = 5000;

/// Configuration of the circuit-breaking proxy.
#[derive(Clone, Debug)]
pub struct Settings {
    pub server_url: String,
    pub server_port: u16,
    pub payment_processor_default: String,
    pub payment_processor_fallback: String,
}

impl Settings {
    /// Settings made of the given values.
    pub fn new(
        server_url: String,
        server_port: u16,
        payment_processor_default: String,
        payment_processor_fallback: String,
    ) -> (r: Settings)
        ensures
            r.server_url == server_url,
            r.server_port == server_port,
            r.payment_processor_default == payment_processor_default,
            r.payment_processor_fallback == payment_processor_fallback,
    {
        Settings { server_url, server_port, payment_processor_default, payment_processor_fallback }
    }
}

/// State of the breaker: `Closed` routes to the primary, `Open` to the fallback.
#[derive(Clone, Copy, Debug, PartialEq, Eq, Structural)]
pub enum CircuitState {
    Closed,
    Open,
}

impl CircuitState {
    /// The state held by a flag that is set while the circuit is open.
    pub fn from_flag(open: bool) -> (r: CircuitState)
        ensures
            r == (if open {
                CircuitState::Open
            } else {
                CircuitState::Closed
            }),
    {
        if open {
            CircuitState::Open
        } else {
            CircuitState::Closed
        }
    }

    /// Whether the circuit is open.
    pub fn is_open(&self) -> (r: bool)
        ensures
            r == (*self == CircuitState::Open),
    {
        match self {
            CircuitState::Open => true,
            CircuitState::Closed => false,
        }
    }
}

/// How a forwarded request ended.
#[derive(Clone, Copy, Debug, PartialEq, Eq, Structural)]
pub enum ForwardOutcome {
    /// The upstream could not be reached or its answer could not be read.
    TransportError,
    /// The upstream answered with this status.
    Status(u16),
}

pub open spec fn forward_succeeded(o: ForwardOutcome) -> bool {
    match o {
        ForwardOutcome::TransportError => false,
        ForwardOutcome::Status(s) => status_success(s),
    }
}

/// What the proxy answers its caller.
#[derive(Clone, Copy, Debug, PartialEq, Eq, Structural)]
pub enum ProxyReply {
    /// Relay the upstream's answer.
    Relay,
    /// Answer with a gateway error; the request is not retried elsewhere.
    BadGateway,
}

/// Everything that moves the breaker.
pub enum CircuitEvent {
    /// A proxied request ended with this outcome at the upstream it used.
    Forwarded(ForwardOutcome),
    /// A health probe of the primary answered, with its `failing` field when
    /// it answered successfully with one.
    Probed(Option<bool>),
}

/// The breaker's transitions: any unsuccessful forward opens it; a probe that
/// reports the primary as not failing closes it; nothing else moves it.
pub open spec fn circuit_next(s: CircuitState, e: CircuitEvent) -> CircuitState {
    match e {
        CircuitEvent::Forwarded(o) => if forward_succeeded(o) {
            s
        } else {
            CircuitState::Open
        },
        CircuitEvent::Probed(failing) => if s == CircuitState::Open && failing == Some(false) {
            CircuitState::Closed
        } else {
            s
        },
    }
}

/// The breaker leaves `Open` for `Closed` only on a probe that reports
/// `failing == false`, and leaves `Closed` for `Open` only on an unsuccessful
/// forward through the upstream in use.
pub proof fn lemma_circuit_transitions(s: CircuitState, e: CircuitEvent)
    ensures
        (s == CircuitState::Open && circuit_next(s, e) == CircuitState::Closed) ==> e
            == CircuitEvent::Probed(Some(false)),
        (s == CircuitState::Closed && circuit_next(s, e) == CircuitState::Open) ==> (
        e matches CircuitEvent::Forwarded(o) && !forward_succeeded(o)),
{
}

/// The reverse proxy in front of the two processors.
pub struct Proxy {
    pub url_default: String,
    pub url_fallback: String,
}

impl Proxy {
    pub fn new(settings: &Settings) -> (r: Proxy)
        ensures
            r.url_default == settings.payment_processor_default,
            r.url_fallback == settings.payment_processor_fallback,
    {
        Proxy {
            url_default: settings.payment_processor_default.clone(),
            url_fallback: settings.payment_processor_fallback.clone(),
        }
    }

    pub open spec fn upstream_spec(&self, s: CircuitState) -> Seq<char> {
        match s {
            CircuitState::Closed => self.url_default@,
            CircuitState::Open => self.url_fallback@,
        }
    }

    /// The URL a request is forwarded to: the selected upstream's base URL
    /// followed by the request's path and query (`/` when there is none).
    pub fn target_url(&self, s: CircuitState, path_and_query: Option<String>) -> (r: String)
        ensures
            r@ == self.upstream_spec(s) + match path_and_query {
                Some(pq) => pq@,
                None => "/"@,
            },
    {
        let mut r = match s {
            CircuitState::Closed => self.url_default.clone(),
            CircuitState::Open => self.url_fallback.clone(),
        };
        match path_and_query {
            Some(pq) => r.append(pq.as_str()),
            None => r.append("/"),
        }
        r
    }

    /// The breaker's state and the reply after a forward.
    pub fn after_forward(s: CircuitState, outcome: ForwardOutcome) -> (r: (CircuitState, ProxyReply))
        ensures
            r.0 == circuit_next(s, CircuitEvent::Forwarded(outcome)),
            r.1 == (if forward_succeeded(outcome) {
                ProxyReply::Relay
            } else {
                ProxyReply::BadGateway
            }),
    {
        let ok = match outcome {
            ForwardOutcome::TransportError => false,
            ForwardOutcome::Status(st) => 200 <= st && st < 300,
        };
        if ok {
            (s, ProxyReply::Relay)
        } else {
            (CircuitState::Open, ProxyReply::BadGateway)
        }
    }

    /// Whether the health loop probes the primary in this round: only while
    /// the circuit is open.
    pub fn should_probe(s: CircuitState) -> (r: bool)
        ensures
            r == (s == CircuitState::Open),
    {
        s.is_open()
    }

    /// The health endpoint of the primary.
    pub fn health_url(&self) -> (r: String)
        ensures
            r@ == self.url_default@ + "/payments/service-health"@,
    {
        let mut r = self.url_default.clone();
        r.append("/payments/service-health");
        r
    }

    /// The breaker's state after a probe of the primary.
    pub fn after_probe(s: CircuitState, failing: Option<bool>) -> (r: CircuitState)
        ensures
            r == circuit_next(s, CircuitEvent::Probed(failing)),
    {
        match failing {
            Some(false) => match s {
                CircuitState::Open => CircuitState::Closed,
                CircuitState::Closed => CircuitState::Closed,
            },
            _ => s,
        }
    }
}

} // verus!
