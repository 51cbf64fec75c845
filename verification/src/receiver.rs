//! Classifies and routes what arrives from a plant.
//!
//! Every inbound message names its template. The template decides whether
//! the message answers a request (and so carries the request's message id and
//! an rp_code), whether it is one frame of a multi-part answer, or whether it
//! is an update pushed by the server; that in turn decides where the message
//! is delivered and which error, if any, it reports.

use vstd::prelude::*;

use crate::error::{classify_rp_code_error, clone_strings, rp_code_error, RithmicError};
use crate::framing::{frame_payload, short_frame_text};
use crate::config::owned;
use crate::text::{signed_decimal, signed_decimal_string};

verus! {

/// What kind of message a template is.
#[derive(Debug, Clone, Copy, PartialEq, Eq, Structural)]
pub enum MessageKind {
    /// Answers a request: carries its message id and an rp_code. A
    /// multi-part answer signals further frames in `rq_handler_rp_code`.
    Reply {
        /// Whether the answer may span several frames.
        multi_response: bool,
    },
    /// The heartbeat answer: a reply, delivered with the updates because it
    /// is a connection-health event.
    HeartbeatReply,
    /// Pushed by the server, not answering a request.
    Update,
    /// The server ended the session.
    ForcedLogout,
}

/// The kind of each template the protocol defines; `None` for any other.
pub open spec fn template_kind(template_id: i32) -> Option<MessageKind> {
    match template_id {
        11 | 13 | 15 | 17 | 21 | 75 | 101 | 104 | 106 | 114 | 118 | 122 | 201 | 205 | 211 | 301
        | 309 | 321 | 323 | 325 | 327 | 333 | 335 | 337 | 345 | 347 | 401 | 403 | 505 | 509
        | 3501 | 3503 | 3507 | 3509 => Some(MessageKind::Reply { multi_response: false }),
        103 | 108 | 110 | 112 | 116 | 120 | 203 | 207 | 209 | 303 | 305 | 307 | 311 | 313 | 315
        | 317 | 319 | 329 | 331 | 339 | 341 | 343 | 349 | 501 | 503 | 507 | 3505 => Some(
            MessageKind::Reply { multi_response: true },
        ),
        19 => Some(MessageKind::HeartbeatReply),
        76 | 150 | 151 | 152 | 153 | 154 | 155 | 156 | 157 | 158 | 159 | 160 | 161 | 162 | 163
        | 250 | 251 | 350 | 351 | 352 | 353 | 354 | 355 | 356 | 450 | 451 => Some(MessageKind::Update),
        77 => Some(MessageKind::ForcedLogout),
        _ => None,
    }
}

/// Whether messages of a kind are delivered with the subscription updates.
pub open spec fn kind_is_update(kind: MessageKind) -> bool {
    !(kind is Reply)
}

/// The kind of a template.
pub fn message_kind(template_id: i32) -> (k: Option<MessageKind>)
    ensures
        k == template_kind(template_id),
{
    match template_id {
        11 | 13 | 15 | 17 | 21 | 75 | 101 | 104 | 106 | 114 | 118 | 122 | 201 | 205 | 211 | 301
        | 309 | 321 | 323 | 325 | 327 | 333 | 335 | 337 | 345 | 347 | 401 | 403 | 505 | 509
        | 3501 | 3503 | 3507 | 3509 => Some(MessageKind::Reply { multi_response: false }),
        103 | 108 | 110 | 112 | 116 | 120 | 203 | 207 | 209 | 303 | 305 | 307 | 311 | 313 | 315
        | 317 | 319 | 329 | 331 | 339 | 341 | 343 | 349 | 501 | 503 | 507 | 3505 => Some(
            MessageKind::Reply { multi_response: true },
        ),
        19 => Some(MessageKind::HeartbeatReply),
        76 | 150 | 151 | 152 | 153 | 154 | 155 | 156 | 157 | 158 | 159 | 160 | 161 | 162 | 163
        | 250 | 251 | 350 | 351 | 352 | 353 | 354 | 355 | 356 | 450 | 451 => Some(MessageKind::Update),
        77 => Some(MessageKind::ForcedLogout),
        _ => None,
    }
}

/// Whether messages of template `template_id` go with the subscription
/// updates: so it is for a known template whose kind is not a reply. A
/// message of a known template that cannot be decoded is reported where it
/// would have been delivered.
pub fn delivered_as_update(template_id: i32) -> (b: bool)
    ensures
        b == (template_kind(template_id) matches Some(k) && kind_is_update(k)),
{
    match message_kind(template_id) {
        Some(MessageKind::Reply { .. }) => false,
        Some(_) => true,
        None => false,
    }
}

/// Whether a multi-part answer has more frames to come: the presence of
/// `rq_handler_rp_code`, whatever it holds, means more frames follow; the
/// terminal frame carries `rp_code` instead.
pub fn has_multiple(rq_handler_rp_code: &[String]) -> (b: bool)
    ensures
        b == (rq_handler_rp_code@.len() > 0),
{
    rq_handler_rp_code.len() != 0
}

/// The fields of an inbound message that its routing depends on. A message
/// without a field has it empty.
#[derive(Debug, Clone, Default, PartialEq)]
pub struct MessageHeader {
    /// The message's template.
    pub template_id: i32,
    /// The message ids it answers.
    pub user_msg: Vec<String>,
    /// Present on every frame of a multi-part answer but the last.
    pub rq_handler_rp_code: Vec<String>,
    /// The outcome of the request, on a terminal frame.
    pub rp_code: Vec<String>,
}

/// How a message is delivered, and what error it reports.
#[derive(Debug, Clone, PartialEq)]
pub struct RithmicResponse {
    /// The message id of the request answered; empty for updates.
    pub request_id: String,
    /// The message's template; `None` when no message could be read.
    pub template_id: Option<i32>,
    /// Delivered with the subscription updates rather than to a requester.
    pub is_update: bool,
    /// More frames of the same answer follow.
    pub has_more: bool,
    /// Part of an answer that may span several frames.
    pub multi_response: bool,
    /// What went wrong, if anything.
    pub error: Option<RithmicError>,
    /// The message's rp_code exactly as received; empty for a message that
    /// carries none and for one that could not be read.
    pub rp_code: Vec<String>,
    /// The plant the message came from.
    pub source: String,
}

impl RithmicResponse {
    /// The message's rp_code exactly as received.
    pub fn rp_code(&self) -> (r: &[String])
        ensures
            r@ == self.rp_code@,
    {
        self.rp_code.as_slice()
    }

    /// The rp_code's first element, its numeric code, when there is one.
    pub fn rp_code_num(&self) -> (r: Option<&str>)
        ensures
            self.rp_code@.len() > 0 ==> (r matches Some(t) && t@ == self.rp_code@[0]@),
            self.rp_code@.len() == 0 ==> r is None,
    {
        if self.rp_code.len() > 0 {
            Some(self.rp_code[0].as_str())
        } else {
            None
        }
    }

    /// The rp_code's second element, its text, when there is one.
    pub fn rp_code_text(&self) -> (r: Option<&str>)
        ensures
            self.rp_code@.len() > 1 ==> (r matches Some(t) && t@ == self.rp_code@[1]@),
            self.rp_code@.len() <= 1 ==> r is None,
    {
        if self.rp_code.len() > 1 {
            Some(self.rp_code[1].as_str())
        } else {
            None
        }
    }
}

/// Whether `e` is the error an rp_code reports.
pub open spec fn reports_rp_code(e: Option<RithmicError>, rp_code: Seq<Seq<char>>) -> bool {
    match rp_code_error(rp_code) {
        None => e is None,
        Some((payload, code, message)) => e matches Some(RithmicError::RequestRejected(err))
            && err.rp_code.deep_view() == payload
            && err.code.deep_view() == code
            && err.message.deep_view() == message,
    }
}

/// The request id a reply answers: its first `user_msg`, or empty.
pub open spec fn first_or_empty(v: Seq<Seq<char>>) -> Seq<char> {
    if v.len() > 0 {
        v[0]
    } else {
        Seq::empty()
    }
}

/// Whether `r` is the delivery of a message of kind `kind` with header `h`
/// from plant `source`.
pub open spec fn delivers(r: RithmicResponse, kind: MessageKind, h: MessageHeader, source: Seq<char>) -> bool {
    &&& r.template_id == Some(h.template_id)
    &&& r.source@ == source
    &&& r.rp_code.deep_view() == h.rp_code.deep_view()
    &&& r.is_update == kind_is_update(kind)
    &&& match kind {
        MessageKind::Reply { multi_response } => {
            &&& r.request_id@ == first_or_empty(h.user_msg.deep_view())
            &&& r.multi_response == multi_response
            &&& r.has_more == (multi_response && h.rq_handler_rp_code@.len() > 0)
            &&& reports_rp_code(r.error, h.rp_code.deep_view())
        },
        MessageKind::HeartbeatReply => {
            &&& r.request_id@ == first_or_empty(h.user_msg.deep_view())
            &&& !r.multi_response
            &&& !r.has_more
            &&& reports_rp_code(r.error, h.rp_code.deep_view())
        },
        MessageKind::Update => {
            &&& r.request_id@ == Seq::<char>::empty()
            &&& !r.multi_response
            &&& !r.has_more
            &&& r.error is None
        },
        MessageKind::ForcedLogout => {
            &&& r.request_id@ == Seq::<char>::empty()
            &&& !r.multi_response
            &&& !r.has_more
            &&& r.error matches Some(RithmicError::ForcedLogout(reason)) && reason@ == "forced logout from server"@
        },
    }
}

/// Whether `r` reports a message nothing could be read from, with error text
/// `text`.
pub open spec fn reports_unreadable(r: RithmicResponse, is_update: bool, text: Seq<char>, source: Seq<char>) -> bool {
    &&& r.template_id is None
    &&& r.request_id@ == Seq::<char>::empty()
    &&& r.rp_code@.len() == 0
    &&& r.is_update == is_update
    &&& !r.has_more
    &&& !r.multi_response
    &&& r.source@ == source
    &&& r.error matches Some(RithmicError::ProtocolError(m)) && m@ == text
}

/// The error text of a message whose template is not known.
pub open spec fn unknown_template_text(template_id: i32) -> Seq<char> {
    "Unknown message type: template_id="@ + signed_decimal(template_id as int)
}

/// The error text of a message that could not be decoded.
pub open spec fn decode_failure_text(detail: Seq<char>) -> Seq<char> {
    "Failed to decode message: "@ + detail
}

/// The report for a message that could not be decoded, `detail` saying why.
/// `is_update` is where the message would have been delivered.
pub fn decode_error(source: &str, detail: &str, is_update: bool) -> (r: RithmicResponse)
    ensures
        reports_unreadable(r, is_update, decode_failure_text(detail@), source@),
{
    let mut m = String::new();
    m.append("Failed to decode message: ");
    m.append(detail);
    proof {
        assert(Seq::<char>::empty() + "Failed to decode message: "@ =~= "Failed to decode message: "@);
    }
    RithmicResponse {
        request_id: String::new(),
        template_id: None,
        rp_code: Vec::new(),
        is_update,
        has_more: false,
        multi_response: false,
        error: Some(RithmicError::ProtocolError(m)),
        source: owned(source),
    }
}

/// Receives the messages of one plant.
#[derive(Debug, Clone)]
pub struct RithmicReceiverApi {
    /// The plant messages come from, recorded on every response.
    pub source: String,
}

impl RithmicReceiverApi {
    /// The encoded message inside a frame, or the report for a frame shorter
    /// than its header.
    pub fn payload(&self, data: &[u8]) -> (r: Result<Vec<u8>, RithmicResponse>)
        ensures
            data@.len() >= 4 ==> (r matches Ok(p) && p@ == data@.skip(4)),
            data@.len() < 4 ==> (r matches Err(resp)
                && reports_unreadable(resp, false, short_frame_text(data@.len()), self.source@)),
    {
        match frame_payload(data) {
            Ok(p) => Ok(p),
            Err(e) => Err(RithmicResponse {
                request_id: String::new(),
                template_id: None,
        rp_code: Vec::new(),
                is_update: false,
                has_more: false,
                multi_response: false,
                error: Some(e),
                source: self.source.clone(),
            }),
        }
    }

    /// Routes a decoded message by its template: how it is delivered and
    /// which error it reports. A template the protocol does not define is
    /// refused, as an update carrying a protocol error naming it.
    pub fn route(&self, header: &MessageHeader) -> (r: Result<RithmicResponse, RithmicResponse>)
        ensures
            match template_kind(header.template_id) {
                Some(kind) => r matches Ok(resp) && delivers(resp, kind, *header, self.source@),
                None => r matches Err(resp)
                    && reports_unreadable(resp, true, unknown_template_text(header.template_id), self.source@),
            },
    {
        match message_kind(header.template_id) {
            Some(kind) => Ok(self.deliver(kind, header)),
            None => {
                let digits = signed_decimal_string(header.template_id);
                let mut m = String::new();
                m.append("Unknown message type: template_id=");
                m.append(digits.as_str());
                proof {
                    assert(Seq::<char>::empty() + "Unknown message type: template_id="@
                        =~= "Unknown message type: template_id="@);
                }
                Err(RithmicResponse {
                    request_id: String::new(),
                    template_id: None,
        rp_code: Vec::new(),
                    is_update: true,
                    has_more: false,
                    multi_response: false,
                    error: Some(RithmicError::ProtocolError(m)),
                    source: self.source.clone(),
                })
            },
        }
    }

    /// The delivery of a message of a known kind.
    pub fn deliver(&self, kind: MessageKind, header: &MessageHeader) -> (r: RithmicResponse)
        ensures
            delivers(r, kind, *header, self.source@),
    {
        match kind {
            MessageKind::Reply { multi_response } => {
                let has_more = if multi_response { has_multiple(header.rq_handler_rp_code.as_slice()) } else { false };
                RithmicResponse {
                    request_id: first_user_msg(&header.user_msg),
                    template_id: Some(header.template_id),
                rp_code: clone_strings(&header.rp_code),
                    is_update: false,
                    has_more,
                    multi_response,
                    error: classify_rp_code_error(&header.rp_code),
                    source: self.source.clone(),
                }
            },
            MessageKind::HeartbeatReply => RithmicResponse {
                request_id: first_user_msg(&header.user_msg),
                template_id: Some(header.template_id),
                rp_code: clone_strings(&header.rp_code),
                is_update: true,
                has_more: false,
                multi_response: false,
                error: classify_rp_code_error(&header.rp_code),
                source: self.source.clone(),
            },
            MessageKind::Update => RithmicResponse {
                request_id: String::new(),
                template_id: Some(header.template_id),
                rp_code: clone_strings(&header.rp_code),
                is_update: true,
                has_more: false,
                multi_response: false,
                error: None,
                source: self.source.clone(),
            },
            MessageKind::ForcedLogout => RithmicResponse {
                request_id: String::new(),
                template_id: Some(header.template_id),
                rp_code: clone_strings(&header.rp_code),
                is_update: true,
                has_more: false,
                multi_response: false,
                error: Some(RithmicError::ForcedLogout(owned("forced logout from server"))),
                source: self.source.clone(),
            },
        }
    }
}

/// The first message id of a reply, or empty.
fn first_user_msg(user_msg: &Vec<String>) -> (s: String)
    ensures
        s@ == first_or_empty(user_msg.deep_view()),
{
    if user_msg.len() > 0 {
        user_msg[0].clone()
    } else {
        String::new()
    }
}

/// Replies and only replies are delivered to a requester, and only a
/// multi-part reply can announce more frames.
pub proof fn lemma_updates_never_continue(kind: MessageKind, h: MessageHeader, source: Seq<char>, r: RithmicResponse)
    requires
        delivers(r, kind, h, source),
    ensures
        r.has_more ==> !r.is_update && r.multi_response,
        r.is_update ==> !r.has_more,
{
}

/// What each template of the protocol is. Every message the server pushes
/// unasked (the order, bracket, PnL and market data updates, templates 150
/// to 163, 250, 251, 350 to 356, 450, 451 and the reject notice 76) is an
/// update; 19 is the heartbeat reply and 77 the forced logout; the listed
/// responses answer requests, in several frames or in one; and no other
/// template is known.
pub proof fn lemma_template_classes(t: i32)
    ensures
        (150 <= t <= 163 || t == 76 || t == 250 || t == 251 || 350 <= t <= 356 || t == 450 || t == 451)
            ==> template_kind(t) == Some(MessageKind::Update),
        t == 19 ==> template_kind(t) == Some(MessageKind::HeartbeatReply),
        t == 77 ==> template_kind(t) == Some(MessageKind::ForcedLogout),
        (t == 11 || t == 13 || t == 15 || t == 17 || t == 21 || t == 75 || t == 101 || t == 104
            || t == 106 || t == 114 || t == 118 || t == 122 || t == 201 || t == 205 || t == 211 || t == 301
            || t == 309 || t == 321 || t == 323 || t == 325 || t == 327 || t == 333 || t == 335 || t == 337
            || t == 345 || t == 347 || t == 401 || t == 403 || t == 505 || t == 509 || t == 3501 || t == 3503
            || t == 3507 || t == 3509) ==> template_kind(t) == Some(MessageKind::Reply { multi_response: false }),
        (t == 103 || t == 108 || t == 110 || t == 112 || t == 116 || t == 120 || t == 203 || t == 207
            || t == 209 || t == 303 || t == 305 || t == 307 || t == 311 || t == 313 || t == 315 || t == 317
            || t == 319 || t == 329 || t == 331 || t == 339 || t == 341 || t == 343 || t == 349 || t == 501
            || t == 503 || t == 507 || t == 3505) ==> template_kind(t) == Some(MessageKind::Reply { multi_response: true }),
        template_kind(t) is None <==> !(150 <= t <= 163 || t == 76 || t == 250 || t == 251 || 350 <= t <= 356
            || t == 450 || t == 451 || t == 19 || t == 77 || t == 11 || t == 13 || t == 15 || t == 17 || t == 21 || t == 75 || t == 101 || t == 104
            || t == 106 || t == 114 || t == 118 || t == 122 || t == 201 || t == 205 || t == 211 || t == 301
            || t == 309 || t == 321 || t == 323 || t == 325 || t == 327 || t == 333 || t == 335 || t == 337
            || t == 345 || t == 347 || t == 401 || t == 403 || t == 505 || t == 509 || t == 3501 || t == 3503
            || t == 3507 || t == 3509 || t == 103 || t == 108 || t == 110 || t == 112 || t == 116 || t == 120 || t == 203 || t == 207
            || t == 209 || t == 303 || t == 305 || t == 307 || t == 311 || t == 313 || t == 315 || t == 317
            || t == 319 || t == 329 || t == 331 || t == 339 || t == 341 || t == 343 || t == 349 || t == 501
            || t == 503 || t == 507 || t == 3505),
{
}

/// A message the server pushes unasked is delivered with the updates, with
/// no request id and no error, and never announces more frames.
pub proof fn lemma_pushed_messages_are_updates(h: MessageHeader, source: Seq<char>, r: RithmicResponse)
    requires
        150 <= h.template_id <= 163 || h.template_id == 76 || h.template_id == 250 || h.template_id == 251
            || 350 <= h.template_id <= 356 || h.template_id == 450 || h.template_id == 451,
        delivers(r, template_kind(h.template_id).unwrap(), h, source),
    ensures
        r.is_update,
        r.request_id@ == Seq::<char>::empty(),
        r.error is None,
        !r.has_more,
        r.template_id == Some(h.template_id),
{
    lemma_template_classes(h.template_id);
}

} // verus!
