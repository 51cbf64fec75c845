//! The error types every plant handle returns.

use vstd::prelude::*;

use crate::text::{decimal, decimal_string, sanitize_for_display, strip_controls};

verus! {

/// Structured server-side rejection keeping the Rithmic `rp_code` tuple.
///
/// Rithmic returns request-level errors as `rp_code = [code, message]`; the
/// raw payload is kept in [`Self::rp_code`], and its first two elements in
/// [`Self::code`] and [`Self::message`]. Such a rejection is a protocol-level
/// outcome, never a reason to reconnect.
#[derive(Debug, Clone, PartialEq, Eq)]
pub struct RithmicRequestError {
    /// Raw rp_code payload exactly as received.
    pub rp_code: Vec<String>,
    /// First rp_code element when present.
    pub code: Option<String>,
    /// Second rp_code element when present; `None` for a one-element rp_code.
    pub message: Option<String>,
}

/// What a request rejection shows: `[code] message`, `[code]` when the
/// message is empty or absent, and the bare message when the code is empty
/// or absent. Control characters from the server are removed from both.
pub open spec fn request_error_text(code: Option<Seq<char>>, message: Option<Seq<char>>) -> Seq<char> {
    let shown_message = match message {
        Some(m) => Some(strip_controls(m)),
        None => None,
    };
    match code {
        Some(c) => {
            if c.len() > 0 {
                let shown_code = strip_controls(c);
                match shown_message {
                    Some(m) => {
                        if m.len() > 0 {
                            "["@ + shown_code + "] "@ + m
                        } else {
                            "["@ + shown_code + "]"@
                        }
                    },
                    None => "["@ + shown_code + "]"@,
                }
            } else {
                match shown_message {
                    Some(m) => m,
                    None => Seq::empty(),
                }
            }
        },
        None => match shown_message {
            Some(m) => m,
            None => Seq::empty(),
        },
    }
}

impl RithmicRequestError {
    /// The text this rejection is shown as.
    pub open spec fn text(&self) -> Seq<char> {
        request_error_text(self.code.deep_view(), self.message.deep_view())
    }

    /// Renders the rejection for a log line or a terminal.
    pub fn to_display_string(&self) -> (s: String)
        ensures
            s@ == self.text(),
    {
        let message: Option<String> = match &self.message {
            Some(m) => Some(sanitize_for_display(m.as_str())),
            None => None,
        };
        match &self.code {
            Some(code) => {
                if !code.as_str().is_empty() {
                    let shown = sanitize_for_display(code.as_str());
                    let mut out = String::new();
                    out.append("[");
                    out.append(shown.as_str());
                    match &message {
                        Some(m) => {
                            if !m.as_str().is_empty() {
                                out.append("] ");
                                out.append(m.as_str());
                            } else {
                                out.append("]");
                            }
                        },
                        None => {
                            out.append("]");
                        },
                    }
                    proof {
                        assert(Seq::<char>::empty() + "["@ =~= "["@);
                    }
                    out
                } else {
                    match message {
                        Some(m) => m,
                        None => String::new(),
                    }
                }
            },
            None => match message {
                Some(m) => m,
                None => String::new(),
            },
        }
    }
}

/// The message a connection-health broadcast carries to subscribers.
#[derive(Debug, Clone, Copy, PartialEq, Eq, Structural)]
pub enum ConnectionMessage {
    /// Keep-alive detected that the connection is dead.
    HeartbeatTimeout,
    /// Any other connection failure.
    ConnectionError,
}

/// Typed errors returned by all plant handle methods.
#[derive(Debug, Clone, PartialEq, Eq)]
pub enum RithmicError {
    /// WebSocket connection could not be established.
    ConnectionFailed(String),
    /// The plant's WebSocket connection is gone; pending requests will never complete.
    ConnectionClosed,
    /// WebSocket send failed or timed out after the request was registered.
    SendFailed,
    /// Server returned an empty response where at least one was expected.
    EmptyResponse,
    /// Structured protocol-level rejection carrying the rp_code tuple.
    RequestRejected(RithmicRequestError),
    /// Non-transport failure without an rp_code, such as a decode failure.
    ProtocolError(String),
    /// A caller-supplied argument is invalid; the message says which and why.
    InvalidArgument(String),
    /// Keep-alive detected the connection is dead.
    HeartbeatTimeout,
    /// Server terminated the session with a reason string.
    ForcedLogout(String),
}

/// The text each error is shown as.
pub open spec fn error_text(e: RithmicError) -> Seq<char> {
    match e {
        RithmicError::ConnectionFailed(msg) => "connection failed: "@ + msg@,
        RithmicError::ConnectionClosed => "connection closed"@,
        RithmicError::SendFailed => "WebSocket send failed or timed out"@,
        RithmicError::EmptyResponse => "empty response"@,
        RithmicError::RequestRejected(err) => "request rejected: "@ + err.text(),
        RithmicError::ProtocolError(msg) => "protocol error: "@ + msg@,
        RithmicError::InvalidArgument(msg) => "invalid argument: "@ + msg@,
        RithmicError::HeartbeatTimeout => "heartbeat timeout"@,
        RithmicError::ForcedLogout(reason) => "forced logout: "@ + strip_controls(reason@),
    }
}

/// Transport and connection-health failures, as opposed to protocol outcomes.
pub open spec fn is_connection_failure(e: RithmicError) -> bool {
    ||| e is ConnectionFailed
    ||| e is ConnectionClosed
    ||| e is SendFailed
    ||| e is HeartbeatTimeout
    ||| e is ForcedLogout
}

/// Builds `prefix` followed by `rest`.
fn prefixed(prefix: &str, rest: &str) -> (s: String)
    ensures
        s@ == prefix@ + rest@,
{
    let mut s = String::new();
    s.append(prefix);
    s.append(rest);
    proof {
        assert(Seq::<char>::empty() + prefix@ =~= prefix@);
    }
    s
}

impl RithmicError {
    /// True when this error reflects a transport or connection-health failure
    /// rather than a protocol-level rejection.
    pub fn is_connection_issue(&self) -> (b: bool)
        ensures
            b == is_connection_failure(*self),
    {
        match self {
            RithmicError::ConnectionFailed(_)
            | RithmicError::ConnectionClosed
            | RithmicError::SendFailed
            | RithmicError::HeartbeatTimeout
            | RithmicError::ForcedLogout(_) => true,
            _ => false,
        }
    }

    /// The synthetic subscription message a connection-health broadcast
    /// carries: `HeartbeatTimeout` keeps the keep-alive signal, every other
    /// error surfaces as `ConnectionError`.
    pub fn as_connection_message(&self) -> (m: ConnectionMessage)
        ensures
            (m == ConnectionMessage::HeartbeatTimeout) == (*self is HeartbeatTimeout),
            (m == ConnectionMessage::ConnectionError) == !(*self is HeartbeatTimeout),
    {
        match self {
            RithmicError::HeartbeatTimeout => ConnectionMessage::HeartbeatTimeout,
            _ => ConnectionMessage::ConnectionError,
        }
    }

    /// The underlying rejection, for a `RequestRejected` error.
    pub fn source(&self) -> (r: Option<&RithmicRequestError>)
        ensures
            r is Some == (*self is RequestRejected),
            *self is RequestRejected ==> r == Some(&self->RequestRejected_0),
    {
        match self {
            RithmicError::RequestRejected(inner) => Some(inner),
            _ => None,
        }
    }

    /// Renders the error for a log line or a terminal.
    pub fn to_display_string(&self) -> (s: String)
        ensures
            s@ == error_text(*self),
    {
        match self {
            RithmicError::ConnectionFailed(msg) => prefixed("connection failed: ", msg.as_str()),
            RithmicError::ConnectionClosed => "connection closed".to_owned(),
            RithmicError::SendFailed => "WebSocket send failed or timed out".to_owned(),
            RithmicError::EmptyResponse => "empty response".to_owned(),
            RithmicError::RequestRejected(err) => {
                let inner = err.to_display_string();
                prefixed("request rejected: ", inner.as_str())
            },
            RithmicError::ProtocolError(msg) => prefixed("protocol error: ", msg.as_str()),
            RithmicError::InvalidArgument(msg) => prefixed("invalid argument: ", msg.as_str()),
            RithmicError::HeartbeatTimeout => "heartbeat timeout".to_owned(),
            RithmicError::ForcedLogout(reason) => {
                let shown = sanitize_for_display(reason.as_str());
                prefixed("forced logout: ", shown.as_str())
            },
        }
    }
}

/// A request is a success, or a benign empty result, when its rp_code is
/// empty, starts with `"0"`, or is exactly the `["7", "no data"]` reply that
/// list and replay requests give when there is nothing to list.
pub open spec fn rp_code_is_success(rp_code: Seq<Seq<char>>) -> bool {
    ||| rp_code.len() == 0
    ||| rp_code[0] == "0"@
    ||| (rp_code.len() == 2 && rp_code[0] == "7"@ && rp_code[1] == "no data"@)
}

/// The error an rp_code reports, if any: `None` for a success, else a
/// rejection carrying the whole payload, its first element as the code and
/// its second as the message.
pub open spec fn rp_code_error(rp_code: Seq<Seq<char>>) -> Option<(Seq<Seq<char>>, Option<Seq<char>>, Option<Seq<char>>)> {
    if rp_code_is_success(rp_code) {
        None
    } else {
        Some((
            rp_code,
            Some(rp_code[0]),
            if rp_code.len() >= 2 { Some(rp_code[1]) } else { None },
        ))
    }
}

/// Compares a string with a literal.
fn str_equals(a: &str, b: &str) -> (r: bool)
    ensures
        r == (a@ == b@),
{
    let n = a.unicode_len();
    let m = b.unicode_len();
    if n != m {
        return false;
    }
    let mut i: usize = 0;
    while i < n
        invariant
            n == a@.len(),
            m == b@.len(),
            n == m,
            i <= n,
            forall|j: int| 0 <= j < i ==> a@[j] == b@[j],
        decreases n - i,
    {
        if a.get_char(i) != b.get_char(i) {
            return false;
        }
        i = i + 1;
    }
    proof {
        assert(a@ =~= b@);
    }
    true
}

/// Copies a list of strings.
pub fn clone_strings(v: &Vec<String>) -> (out: Vec<String>)
    ensures
        out.deep_view() == v.deep_view(),
{
    let mut out: Vec<String> = Vec::new();
    let mut i: usize = 0;
    while i < v.len()
        invariant
            i <= v.len(),
            out.len() == i,
            forall|j: int| 0 <= j < i ==> out@[j]@ == v@[j]@,
        decreases v.len() - i,
    {
        out.push(v[i].clone());
        i = i + 1;
    }
    proof {
        assert(out.deep_view() =~= v.deep_view());
    }
    out
}

/// Turns an rp_code into the rejection it reports, or `None` for a success.
pub fn classify_rp_code_error(rp_code: &Vec<String>) -> (r: Option<RithmicError>)
    ensures
        match rp_code_error(rp_code.deep_view()) {
            None => r is None,
            Some((payload, code, message)) => r matches Some(RithmicError::RequestRejected(e))
                && e.rp_code.deep_view() == payload
                && e.code.deep_view() == code
                && e.message.deep_view() == message,
        },
{
    let ghost rv = rp_code.deep_view();
    if rp_code.len() == 0 {
        return None;
    }
    proof {
        assert(rv[0] == rp_code@[0]@);
    }
    if str_equals(rp_code[0].as_str(), "0") {
        return None;
    }
    if rp_code.len() == 2 {
        proof {
            assert(rv[1] == rp_code@[1]@);
        }
        if str_equals(rp_code[0].as_str(), "7") && str_equals(rp_code[1].as_str(), "no data") {
            return None;
        }
    }
    let message = if rp_code.len() >= 2 {
        proof {
            assert(rv[1] == rp_code@[1]@);
        }
        Some(rp_code[1].clone())
    } else {
        None
    };
    Some(RithmicError::RequestRejected(RithmicRequestError {
        rp_code: clone_strings(rp_code),
        code: Some(rp_code[0].clone()),
        message,
    }))
}

/// `ProtocolError("<prefix><n> bytes")`-style message with a decimal count.
pub fn protocol_error_with_count(prefix: &str, n: u64, suffix: &str) -> (e: RithmicError)
    ensures
        e matches RithmicError::ProtocolError(msg) && msg@ == prefix@ + decimal(n as nat) + suffix@,
{
    let digits = decimal_string(n);
    let mut msg = String::new();
    msg.append(prefix);
    msg.append(digits.as_str());
    msg.append(suffix);
    proof {
        assert(Seq::<char>::empty() + prefix@ =~= prefix@);
    }
    RithmicError::ProtocolError(msg)
}

/// An rp_code rejection is a protocol outcome, never a connection issue, so
/// it never calls for a reconnect.
pub proof fn lemma_rejections_keep_the_connection(err: RithmicRequestError)
    ensures
        !is_connection_failure(RithmicError::RequestRejected(err)),
{
}

} // verus!
