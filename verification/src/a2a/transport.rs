//! Transport for agent-to-agent messages: errors, the retry policy with
//! exponential backoff, and how endpoint URLs are formed.

use vstd::prelude::*;
use vstd::arithmetic::power2::{lemma_pow2_unfold, pow2};

use crate::text::{push_str, starts_with_seq, str_starts_with, to_owned_string};

verus! {

/// Transport failures.
#[derive(Debug, Clone, PartialEq, Eq)]
pub enum TransportError {
    ConnectionFailed(String),
    SendFailed(String),
    ReceiveFailed(String),
    Timeout,
    AuthenticationFailed,
    EncryptionError(String),
}

/// The message describing a transport failure.
pub open spec fn transport_error_message(e: TransportError) -> Seq<char> {
    match e {
        TransportError::ConnectionFailed(m) => "Connection failed: "@ + m@,
        TransportError::SendFailed(m) => "Send failed: "@ + m@,
        TransportError::ReceiveFailed(m) => "Receive failed: "@ + m@,
        TransportError::Timeout => "Timeout"@,
        TransportError::AuthenticationFailed => "Authentication failed"@,
        TransportError::EncryptionError(m) => "Encryption error: "@ + m@,
    }
}

impl TransportError {
    /// The message describing this failure.
    pub fn message(&self) -> (s: String)
        ensures
            s@ == transport_error_message(*self),
    {
        match self {
            TransportError::ConnectionFailed(m) => {
                let mut s = to_owned_string("Connection failed: ");
                push_str(&mut s, m.as_str());
                s
            },
            TransportError::SendFailed(m) => {
                let mut s = to_owned_string("Send failed: ");
                push_str(&mut s, m.as_str());
                s
            },
            TransportError::ReceiveFailed(m) => {
                let mut s = to_owned_string("Receive failed: ");
                push_str(&mut s, m.as_str());
                s
            },
            TransportError::Timeout => to_owned_string("Timeout"),
            TransportError::AuthenticationFailed => to_owned_string("Authentication failed"),
            TransportError::EncryptionError(m) => {
                let mut s = to_owned_string("Encryption error: ");
                push_str(&mut s, m.as_str());
                s
            },
        }
    }
}

/// A WebSocket transport to a URL.
#[derive(Debug)]
pub struct WebSocketTransport {
    url: String,
}

impl View for WebSocketTransport {
    /// The URL.
    type V = Seq<char>;

    closed spec fn view(&self) -> Seq<char> {
        self.url@
    }
}

impl WebSocketTransport {
    /// A transport to the given URL.
    pub fn new(url: String) -> (t: Self)
        ensures
            t@ == url@,
    {
        WebSocketTransport { url }
    }
}

/// Retry policy for transport operations.
#[derive(Debug, Clone, Copy, PartialEq, Eq, Structural)]
pub struct RetryPolicy {
    pub max_retries: u32,
    pub base_delay_ms: u64,
    pub max_delay_ms: u64,
}

impl Default for RetryPolicy {
    /// Three retries, starting at 100 ms and capped at 5 s.
    fn default() -> (p: Self)
        ensures
            p.max_retries == 3,
            p.base_delay_ms == 100,
            p.max_delay_ms == 5000,
    {
        RetryPolicy { max_retries: 3, base_delay_ms: 100, max_delay_ms: 5000 }
    }
}

/// The delay before retrying after attempt `attempt` (counted from 0): the
/// base delay doubled `attempt` times, capped at the maximum.
pub open spec fn backoff_delay(p: RetryPolicy, attempt: nat) -> int {
    let d = p.base_delay_ms * pow2(attempt);
    if d <= p.max_delay_ms {
        d
    } else {
        p.max_delay_ms as int
    }
}

impl RetryPolicy {
    /// The delay in milliseconds before retrying after attempt `attempt`:
    /// exponential backoff capped at the maximum delay. The uncapped delay
    /// must fit in 64 bits.
    pub fn delay_for_attempt(&self, attempt: u32) -> (d: u64)
        requires
            self.base_delay_ms * pow2(attempt as nat) <= u64::MAX,
        ensures
            d == backoff_delay(*self, attempt as nat),
    {
        if self.base_delay_ms == 0 {
            return 0;
        }
        let mut factor: u64 = 1;
        let mut i: u32 = 0;
        assert(pow2(0) == 1) by {
            reveal(vstd::arithmetic::power::pow);
        }
        while i < attempt
            invariant
                i <= attempt,
                self.base_delay_ms > 0,
                factor == pow2(i as nat),
                self.base_delay_ms * pow2(attempt as nat) <= u64::MAX,
            decreases attempt - i,
        {
            proof {
                lemma_pow2_unfold((i + 1) as nat);
                lemma_factor_fits(self.base_delay_ms, (i + 1) as nat, attempt as nat);
            }
            factor = factor * 2;
            i = i + 1;
        }
        proof {
            lemma_factor_fits(self.base_delay_ms, attempt as nat, attempt as nat);
        }
        let delay: u64 = self.base_delay_ms * factor;
        assert(delay == self.base_delay_ms * pow2(attempt as nat));
        if delay <= self.max_delay_ms {
            delay
        } else {
            self.max_delay_ms
        }
    }

    /// After a failed attempt `attempt` (counted from 0), the delay before
    /// the next one, or `None` when the retries are used up.
    pub fn retry_after(&self, attempt: u32) -> (r: Option<u64>)
        requires
            attempt < self.max_retries ==> self.base_delay_ms * pow2(attempt as nat) <= u64::MAX,
        ensures
            attempt < self.max_retries ==> r == Some(backoff_delay(*self, attempt as nat) as u64),
            attempt >= self.max_retries ==> r is None,
    {
        if attempt < self.max_retries {
            Some(self.delay_for_attempt(attempt))
        } else {
            None
        }
    }
}

proof fn lemma_factor_fits(base: u64, e: nat, top: nat)
    requires
        e <= top,
        base > 0,
        base * pow2(top) <= u64::MAX,
    ensures
        pow2(e) <= u64::MAX,
        base * pow2(e) <= u64::MAX,
{
    if e < top {
        vstd::arithmetic::power2::lemma_pow2_strictly_increases(e, top);
    }
    assert(pow2(e) <= base * pow2(e)) by (nonlinear_arith)
        requires
            base > 0,
    ;
    assert(base * pow2(e) <= base * pow2(top)) by (nonlinear_arith)
        requires
            pow2(e) <= pow2(top),
    ;
}

/// The URL a message to `endpoint` is posted to: the endpoint itself when
/// it starts with `http`, otherwise the endpoint under the base URL.
pub open spec fn endpoint_url_of(base_url: Seq<char>, endpoint: Seq<char>) -> Seq<char> {
    if starts_with_seq(endpoint, "http"@) {
        endpoint
    } else {
        base_url + "/"@ + endpoint
    }
}

/// The health-check URL of `endpoint`.
pub open spec fn health_url_of(base_url: Seq<char>, endpoint: Seq<char>) -> Seq<char> {
    if starts_with_seq(endpoint, "http"@) {
        endpoint + "/health"@
    } else {
        base_url + "/"@ + endpoint + "/health"@
    }
}

/// The URL a message to `endpoint` is posted to.
pub fn endpoint_url(base_url: &str, endpoint: &str) -> (s: String)
    ensures
        s@ == endpoint_url_of(base_url@, endpoint@),
{
    if str_starts_with(endpoint, "http") {
        to_owned_string(endpoint)
    } else {
        let mut s = to_owned_string(base_url);
        push_str(&mut s, "/");
        push_str(&mut s, endpoint);
        s
    }
}

/// The health-check URL of `endpoint`.
pub fn health_url(base_url: &str, endpoint: &str) -> (s: String)
    ensures
        s@ == health_url_of(base_url@, endpoint@),
{
    let mut s = endpoint_url(base_url, endpoint);
    push_str(&mut s, "/health");
    s
}

} // verus!
