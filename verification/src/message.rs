//! The message protocol: the four kinds of frame, and how each is written to
//! and read from JSON text.

use vstd::prelude::*;
use vstd::string::*;
use crate::json::{
    field_text, field_to_text, find_member, json_object_members, json_quote, json_quoted,
    member_of, members_view, parse_object, JsonField, JsonFieldView, JsonMember, JsonMemberView,
};
use crate::text::{text_eq, text_view};

verus! {

/// The text of one JSON value, carried through the gateway as it is.
#[derive(Debug)]
pub struct JsonText {
    pub text: String,
}

impl View for JsonText {
    type V = Seq<char>;

    open spec fn view(&self) -> Seq<char> {
        self.text@
    }
}

impl Clone for JsonText {
    fn clone(&self) -> (r: Self)
        ensures
            r@ == self@,
    {
        JsonText { text: self.text.clone() }
    }
}

impl JsonText {
    /// Wraps text that the caller knows to be one JSON value.
    pub fn new(text: String) -> (r: JsonText)
        ensures
            r@ == text@,
    {
        JsonText { text }
    }

    /// The JSON value `null`.
    pub fn null() -> (r: JsonText)
        ensures
            r@ == "null"@,
    {
        JsonText { text: String::from_str("null") }
    }

    /// The text itself.
    pub fn as_str(&self) -> (r: &str)
        ensures
            r@ == self@,
    {
        self.text.as_str()
    }
}

/// The view of an optional payload.
pub open spec fn payload_view(payload: Option<JsonText>) -> Option<Seq<char>> {
    match payload {
        Some(p) => Some(p@),
        None => None,
    }
}

/// A request that expects exactly one reply with the same `id` and `method`.
#[derive(Debug)]
pub struct CallBody {
    pub id: String,
    pub method: String,
    pub params: Option<JsonText>,
}

/// A request to subscribe the sending connection to a channel.
#[derive(Debug)]
pub struct ListenBody {
    pub channel: String,
}

/// The answer to a call: `data` on success, `error` on failure.
#[derive(Debug)]
pub struct ReplyBody {
    pub id: String,
    pub method: String,
    pub ok: bool,
    pub data: Option<JsonText>,
    pub error: Option<String>,
}

/// An unsolicited message to the subscribers of a channel.
#[derive(Debug)]
pub struct EventBody {
    pub channel: String,
    pub payload: JsonText,
}

/// One frame of the protocol.
#[derive(Debug)]
#[allow(inconsistent_fields)]
pub enum WsMessage {
    Call { body: CallBody },
    Listen { body: ListenBody },
    Reply { body: ReplyBody },
    Event { body: EventBody },
}

/// The mathematical value of a [`WsMessage`].
pub enum WsMessageView {
    Call { id: Seq<char>, method: Seq<char>, params: Option<Seq<char>> },
    Listen { channel: Seq<char> },
    Reply {
        id: Seq<char>,
        method: Seq<char>,
        ok: bool,
        data: Option<Seq<char>>,
        error: Option<Seq<char>>,
    },
    Event { channel: Seq<char>, payload: Seq<char> },
}

impl View for WsMessage {
    type V = WsMessageView;

    open spec fn view(&self) -> WsMessageView {
        match self {
            WsMessage::Call { body } => WsMessageView::Call {
                id: body.id@,
                method: body.method@,
                params: payload_view(body.params),
            },
            WsMessage::Listen { body } => WsMessageView::Listen { channel: body.channel@ },
            WsMessage::Reply { body } => WsMessageView::Reply {
                id: body.id@,
                method: body.method@,
                ok: body.ok,
                data: payload_view(body.data),
                error: text_view(body.error),
            },
            WsMessage::Event { body } => WsMessageView::Event {
                channel: body.channel@,
                payload: body.payload@,
            },
        }
    }
}

/// The view of an optional message.
pub open spec fn message_view(message: Option<WsMessage>) -> Option<WsMessageView> {
    match message {
        Some(m) => Some(m@),
        None => None,
    }
}

/// The successful reply to the call `id` of `method`.
pub open spec fn success_reply(id: Seq<char>, method: Seq<char>, data: Seq<char>) -> WsMessageView {
    WsMessageView::Reply { id, method, ok: true, data: Some(data), error: None }
}

/// The failed reply to the call `id` of `method`.
pub open spec fn error_reply(id: Seq<char>, method: Seq<char>, error: Seq<char>) -> WsMessageView {
    WsMessageView::Reply { id, method, ok: false, data: None, error: Some(error) }
}

impl WsMessageView {
    /// The frame as JSON text: the members in the order of the protocol, the
    /// optional ones left out where they are absent.
    pub open spec fn wire(self) -> Seq<char> {
        match self {
            WsMessageView::Call { id, method, params } => {
                "{\"type\":\"call\",\"id\":"@ + json_quoted(id) + ",\"method\":"@ + json_quoted(
                    method,
                ) + (match params {
                    Some(p) => ",\"params\":"@ + p,
                    None => Seq::empty(),
                }) + "}"@
            },
            WsMessageView::Listen { channel } => {
                "{\"type\":\"listen\",\"channel\":"@ + json_quoted(channel) + "}"@
            },
            WsMessageView::Reply { id, method, ok, data, error } => {
                "{\"type\":\"reply\",\"id\":"@ + json_quoted(id) + ",\"method\":"@ + json_quoted(
                    method,
                ) + ",\"ok\":"@ + (if ok {
                    "true"@
                } else {
                    "false"@
                }) + (match data {
                    Some(d) => ",\"data\":"@ + d,
                    None => Seq::empty(),
                }) + (match error {
                    Some(e) => ",\"error\":"@ + json_quoted(e),
                    None => Seq::empty(),
                }) + "}"@
            },
            WsMessageView::Event { channel, payload } => {
                "{\"type\":\"event\",\"channel\":"@ + json_quoted(channel) + ",\"payload\":"@
                    + payload + "}"@
            },
        }
    }
}

impl Clone for WsMessage {
    fn clone(&self) -> (r: Self)
        ensures
            r@ == self@,
    {
        match self {
            WsMessage::Call { body } => {
                let params = match &body.params {
                    Some(p) => Some(p.clone()),
                    None => None,
                };
                WsMessage::Call {
                    body: CallBody { id: body.id.clone(), method: body.method.clone(), params },
                }
            },
            WsMessage::Listen { body } => WsMessage::Listen {
                body: ListenBody { channel: body.channel.clone() },
            },
            WsMessage::Reply { body } => {
                let data = match &body.data {
                    Some(d) => Some(d.clone()),
                    None => None,
                };
                let error = match &body.error {
                    Some(e) => Some(e.clone()),
                    None => None,
                };
                WsMessage::Reply {
                    body: ReplyBody {
                        id: body.id.clone(),
                        method: body.method.clone(),
                        ok: body.ok,
                        data,
                        error,
                    },
                }
            },
            WsMessage::Event { body } => WsMessage::Event {
                body: EventBody { channel: body.channel.clone(), payload: body.payload.clone() },
            },
        }
    }
}

impl WsMessage {
    /// The reply that carries the result of a call.
    pub fn reply_success(id: String, method: String, data: JsonText) -> (r: WsMessage)
        ensures
            r@ == success_reply(id@, method@, data@),
    {
        WsMessage::Reply { body: ReplyBody { id, method, ok: true, data: Some(data), error: None } }
    }

    /// The reply that carries the failure of a call.
    pub fn reply_error(id: String, method: String, error: String) -> (r: WsMessage)
        ensures
            r@ == error_reply(id@, method@, error@),
    {
        WsMessage::Reply { body: ReplyBody { id, method, ok: false, data: None, error: Some(error) } }
    }

    /// An event on `channel`.
    pub fn event(channel: String, payload: JsonText) -> (r: WsMessage)
        ensures
            r@ == (WsMessageView::Event { channel: channel@, payload: payload@ }),
    {
        WsMessage::Event { body: EventBody { channel, payload } }
    }

    /// Writes the frame as JSON text.
    pub fn encode(&self) -> (r: String)
        ensures
            r@ == self@.wire(),
    {
        match self {
            WsMessage::Call { body } => {
                let mut out = String::from_str("{\"type\":\"call\",\"id\":");
                out.append(json_quote(body.id.as_str()).as_str());
                out.append(",\"method\":");
                out.append(json_quote(body.method.as_str()).as_str());
                match &body.params {
                    Some(p) => {
                        out.append(",\"params\":");
                        out.append(p.as_str());
                    },
                    None => {},
                }
                out.append("}");
                assert(out@ =~= self@.wire());
                out
            },
            WsMessage::Listen { body } => {
                let mut out = String::from_str("{\"type\":\"listen\",\"channel\":");
                out.append(json_quote(body.channel.as_str()).as_str());
                out.append("}");
                out
            },
            WsMessage::Reply { body } => {
                let mut out = String::from_str("{\"type\":\"reply\",\"id\":");
                out.append(json_quote(body.id.as_str()).as_str());
                out.append(",\"method\":");
                out.append(json_quote(body.method.as_str()).as_str());
                out.append(",\"ok\":");
                if body.ok {
                    out.append("true");
                } else {
                    out.append("false");
                }
                match &body.data {
                    Some(d) => {
                        out.append(",\"data\":");
                        out.append(d.as_str());
                    },
                    None => {},
                }
                match &body.error {
                    Some(e) => {
                        out.append(",\"error\":");
                        out.append(json_quote(e.as_str()).as_str());
                    },
                    None => {},
                }
                out.append("}");
                assert(out@ =~= self@.wire());
                out
            },
            WsMessage::Event { body } => {
                let mut out = String::from_str("{\"type\":\"event\",\"channel\":");
                out.append(json_quote(body.channel.as_str()).as_str());
                out.append(",\"payload\":");
                out.append(body.payload.as_str());
                out.append("}");
                assert(out@ =~= self@.wire());
                out
            },
        }
    }
}

/// The string stored under `key`, where there is one.
pub open spec fn text_member(members: Seq<JsonMemberView>, key: Seq<char>) -> Option<Seq<char>> {
    match member_of(members, key) {
        Some(JsonFieldView::Text(s)) => Some(s),
        _ => None,
    }
}

/// The payload stored under `key`: absent where the member is missing or `null`.
pub open spec fn payload_member(members: Seq<JsonMemberView>, key: Seq<char>) -> Option<Seq<char>> {
    match member_of(members, key) {
        None => None,
        Some(JsonFieldView::Null) => None,
        Some(field) => Some(field_text(field)),
    }
}

/// The frame that the members of a JSON object stand for, if any.
///
/// The member `type` picks the kind. A call needs the strings `id` and
/// `method`; a listen the string `channel`; a reply the strings `id` and
/// `method` and the boolean `ok`, and its `error`, where present, is a string;
/// an event the string `channel` and a `payload`. Members that the kind does
/// not know are passed over.
pub open spec fn decoded(members: Seq<JsonMemberView>) -> Option<WsMessageView> {
    match text_member(members, "type"@) {
        None => None,
        Some(kind) => {
            if kind == "call"@ {
                match (text_member(members, "id"@), text_member(members, "method"@)) {
                    (Some(id), Some(method)) => Some(
                        WsMessageView::Call {
                            id,
                            method,
                            params: payload_member(members, "params"@),
                        },
                    ),
                    _ => None,
                }
            } else if kind == "listen"@ {
                match text_member(members, "channel"@) {
                    Some(channel) => Some(WsMessageView::Listen { channel }),
                    None => None,
                }
            } else if kind == "reply"@ {
                match (
                    text_member(members, "id"@),
                    text_member(members, "method"@),
                    member_of(members, "ok"@),
                    member_of(members, "error"@),
                ) {
                    (Some(id), Some(method), Some(JsonFieldView::Flag(ok)), None) => Some(
                        WsMessageView::Reply {
                            id,
                            method,
                            ok,
                            data: payload_member(members, "data"@),
                            error: None,
                        },
                    ),
                    (
                        Some(id),
                        Some(method),
                        Some(JsonFieldView::Flag(ok)),
                        Some(JsonFieldView::Null),
                    ) => Some(
                        WsMessageView::Reply {
                            id,
                            method,
                            ok,
                            data: payload_member(members, "data"@),
                            error: None,
                        },
                    ),
                    (
                        Some(id),
                        Some(method),
                        Some(JsonFieldView::Flag(ok)),
                        Some(JsonFieldView::Text(e)),
                    ) => Some(
                        WsMessageView::Reply {
                            id,
                            method,
                            ok,
                            data: payload_member(members, "data"@),
                            error: Some(e),
                        },
                    ),
                    _ => None,
                }
            } else if kind == "event"@ {
                match (text_member(members, "channel"@), member_of(members, "payload"@)) {
                    (Some(channel), Some(payload)) => Some(
                        WsMessageView::Event { channel, payload: field_text(payload) },
                    ),
                    _ => None,
                }
            } else {
                None
            }
        },
    }
}

/// The frame that `text` holds, if it is a JSON object that stands for one.
pub open spec fn parsed(text: Seq<char>) -> Option<WsMessageView> {
    match json_object_members(text) {
        Some(members) => decoded(members),
        None => None,
    }
}

fn find_text(members: &Vec<JsonMember>, key: &str) -> (r: Option<String>)
    ensures
        text_view(r) == text_member(members_view(members@), key@),
{
    match find_member(members, key) {
        Some(JsonField::Text(s)) => Some(s.clone()),
        _ => None,
    }
}

fn find_payload(members: &Vec<JsonMember>, key: &str) -> (r: Option<JsonText>)
    ensures
        payload_view(r) == payload_member(members_view(members@), key@),
{
    match find_member(members, key) {
        None => None,
        Some(JsonField::Null) => None,
        Some(field) => Some(JsonText::new(field_to_text(field))),
    }
}

impl WsMessage {
    /// Reads a frame from the members of a JSON object.
    pub fn decode(members: &Vec<JsonMember>) -> (r: Option<WsMessage>)
        ensures
            message_view(r) == decoded(members_view(members@)),
    {
        let kind = match find_text(members, "type") {
            Some(kind) => kind,
            None => {
                return None;
            },
        };
        if text_eq(kind.as_str(), "call") {
            let id = find_text(members, "id");
            let method = find_text(members, "method");
            match (id, method) {
                (Some(id), Some(method)) => {
                    let params = find_payload(members, "params");
                    Some(WsMessage::Call { body: CallBody { id, method, params } })
                },
                _ => None,
            }
        } else if text_eq(kind.as_str(), "listen") {
            match find_text(members, "channel") {
                Some(channel) => Some(WsMessage::Listen { body: ListenBody { channel } }),
                None => None,
            }
        } else if text_eq(kind.as_str(), "reply") {
            let id = find_text(members, "id");
            let method = find_text(members, "method");
            let ok = match find_member(members, "ok") {
                Some(JsonField::Flag(b)) => Some(*b),
                _ => None,
            };
            match (id, method, ok) {
                (Some(id), Some(method), Some(ok)) => {
                    let data = find_payload(members, "data");
                    match find_member(members, "error") {
                        None => Some(
                            WsMessage::Reply {
                                body: ReplyBody { id, method, ok, data, error: None },
                            },
                        ),
                        Some(JsonField::Null) => Some(
                            WsMessage::Reply {
                                body: ReplyBody { id, method, ok, data, error: None },
                            },
                        ),
                        Some(JsonField::Text(e)) => Some(
                            WsMessage::Reply {
                                body: ReplyBody { id, method, ok, data, error: Some(e.clone()) },
                            },
                        ),
                        _ => None,
                    }
                },
                _ => None,
            }
        } else if text_eq(kind.as_str(), "event") {
            let channel = find_text(members, "channel");
            match (channel, find_member(members, "payload")) {
                (Some(channel), Some(payload)) => Some(
                    WsMessage::Event {
                        body: EventBody {
                            channel,
                            payload: JsonText::new(field_to_text(payload)),
                        },
                    },
                ),
                _ => None,
            }
        } else {
            None
        }
    }

    /// Reads a frame from JSON text. Text that is not a JSON object, or an
    /// object that stands for no frame, gives `None`.
    pub fn parse(text: &str) -> (r: Option<WsMessage>)
        ensures
            message_view(r) == parsed(text@),
    {
        match parse_object(text) {
            Some(members) => WsMessage::decode(&members),
            None => None,
        }
    }
}

} // verus!
