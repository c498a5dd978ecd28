//! The protocol's commands, how each is laid out as a structured value, and
//! one builder per command kind.
use vstd::prelude::*;

use crate::json::{encode, json_of, ConversionError};
use crate::value::{Json, StructuredValue};

verus! {

/// A command of the bridge protocol. Optional fields that hold `None` are
/// still laid out, with a null value.
#[derive(Debug, PartialEq)]
pub enum Command {
    Subscribe { topic: String, msg_type: String, compression: Option<String> },
    Unsubscribe { topic: String },
    Advertise { topic: String, msg_type: String },
    Publish { topic: String, msg: StructuredValue },
    CallService { service: String, srv_type: String, args: StructuredValue, id: Option<String> },
    SendActionGoal {
        action: String,
        action_type: String,
        goal: StructuredValue,
        id: Option<String>,
        session_id: Option<String>,
    },
    CancelActionGoal { action: String, action_type: String, session_id: Option<String> },
}

/// A string value holding `s`.
fn string(s: String) -> (r: StructuredValue)
    ensures
        r@ == Json::Str(s@),
{
    StructuredValue::String(s)
}

/// An optional text field: its text, or null.
pub open spec fn opt_json(o: Option<String>) -> Json {
    match o {
        Some(s) => Json::Str(s@),
        None => Json::Null,
    }
}

impl Command {
    /// The fixed tag of the command's kind.
    pub open spec fn op(self) -> Seq<char> {
        match self {
            Command::Subscribe { .. } => "subscribe"@,
            Command::Unsubscribe { .. } => "unsubscribe"@,
            Command::Advertise { .. } => "advertise"@,
            Command::Publish { .. } => "publish"@,
            Command::CallService { .. } => "call_service"@,
            Command::SendActionGoal { .. } => "send_action_goal"@,
            Command::CancelActionGoal { .. } => "cancel_action_goal"@,
        }
    }

    /// The entries of the command's object: the tag under `op` first, then the
    /// kind's fields in their fixed order.
    pub open spec fn entries(self) -> Seq<(Seq<char>, Json)> {
        let tag = ("op"@, Json::Str(self.op()));
        match self {
            Command::Subscribe { topic, msg_type, compression } => seq![
                tag,
                ("topic"@, Json::Str(topic@)),
                ("type"@, Json::Str(msg_type@)),
                ("compression"@, opt_json(compression)),
            ],
            Command::Unsubscribe { topic } => seq![tag, ("topic"@, Json::Str(topic@))],
            Command::Advertise { topic, msg_type } => seq![
                tag,
                ("topic"@, Json::Str(topic@)),
                ("type"@, Json::Str(msg_type@)),
            ],
            Command::Publish { topic, msg } => seq![
                tag,
                ("topic"@, Json::Str(topic@)),
                ("msg"@, msg@),
            ],
            Command::CallService { service, srv_type, args, id } => seq![
                tag,
                ("service"@, Json::Str(service@)),
                ("type"@, Json::Str(srv_type@)),
                ("args"@, args@),
                ("id"@, opt_json(id)),
            ],
            Command::SendActionGoal { action, action_type, goal, id, session_id } => seq![
                tag,
                ("action"@, Json::Str(action@)),
                ("action_type"@, Json::Str(action_type@)),
                ("goal"@, goal@),
                ("id"@, opt_json(id)),
                ("session_id"@, opt_json(session_id)),
            ],
            Command::CancelActionGoal { action, action_type, session_id } => seq![
                tag,
                ("action"@, Json::Str(action@)),
                ("action_type"@, Json::Str(action_type@)),
                ("session_id"@, opt_json(session_id)),
            ],
        }
    }

    /// The command as a structured value.
    pub open spec fn model(self) -> Json {
        Json::Object(self.entries())
    }

    /// The command's payload, for the kinds that carry one.
    pub open spec fn payload(self) -> Option<Json> {
        match self {
            Command::Publish { msg, .. } => Some(msg@),
            Command::CallService { args, .. } => Some(args@),
            Command::SendActionGoal { goal, .. } => Some(goal@),
            _ => None,
        }
    }

    /// The command can be encoded: its payload, if any, repeats no key.
    pub open spec fn encodable(self) -> bool {
        self.payload() matches Some(p) ==> p.wf()
    }
}

/// The keys of every kind are distinct, so a command's object is well formed
/// exactly when its payload is.
proof fn lemma_model_wf(c: Command)
    ensures
        c.model().wf() == c.encodable(),
{
    reveal_strlit("op");
    reveal_strlit("topic");
    reveal_strlit("type");
    reveal_strlit("compression");
    reveal_strlit("msg");
    reveal_strlit("service");
    reveal_strlit("args");
    reveal_strlit("id");
    reveal_strlit("action");
    reveal_strlit("action_type");
    reveal_strlit("goal");
    reveal_strlit("session_id");
    let e = c.entries();
    assert forall|i: int, j: int| 0 <= i < j < e.len() implies #[trigger] e[i].0 != #[trigger] e[j].0 by {
        assert(e[i].0.len() != e[j].0.len() || e[i].0[0] != e[j].0[0] || e[i].0[1] != e[j].0[1]);
    }
    if c.encodable() {
        assert forall|i: int| 0 <= i < e.len() implies (#[trigger] e[i]).1.wf() by {
            if c.payload() is None || e[i].1 != c.payload()->0 {
            }
        }
    } else {
        let k: int = if c is CallService || c is SendActionGoal { 3 } else { 2 };
        assert(e[k].1 == c.payload()->0);
    }
}

/// An entry whose key is the literal `key`.
fn entry(key: &str, value: StructuredValue) -> (r: (String, StructuredValue))
    ensures
        r.0@ == key@,
        r.1 == value,
{
    (key.to_owned(), value)
}

/// A string value holding `s`.
fn text(s: &str) -> (r: StructuredValue)
    ensures
        r@ == Json::Str(s@),
{
    StructuredValue::String(s.to_owned())
}

/// An optional text field: its text, or null.
fn opt_text(o: Option<String>) -> (r: StructuredValue)
    ensures
        r@ == opt_json(o),
{
    match o {
        Some(s) => StructuredValue::String(s),
        None => StructuredValue::Null,
    }
}

impl Command {
    /// Lays the command out as an object: the tag under `op` first, then the
    /// kind's fields in their fixed order.
    pub fn into_value(self) -> (r: StructuredValue)
        ensures
            r@ == self.model(),
    {
        let ghost c = self;
        let mut e: Vec<(String, StructuredValue)> = Vec::new();
        match self {
            Command::Subscribe { topic, msg_type, compression } => {
                e.push(entry("op", text("subscribe")));
                e.push(entry("topic", string(topic)));
                e.push(entry("type", string(msg_type)));
                e.push(entry("compression", opt_text(compression)));
            },
            Command::Unsubscribe { topic } => {
                e.push(entry("op", text("unsubscribe")));
                e.push(entry("topic", string(topic)));
            },
            Command::Advertise { topic, msg_type } => {
                e.push(entry("op", text("advertise")));
                e.push(entry("topic", string(topic)));
                e.push(entry("type", string(msg_type)));
            },
            Command::Publish { topic, msg } => {
                e.push(entry("op", text("publish")));
                e.push(entry("topic", string(topic)));
                e.push(entry("msg", msg));
            },
            Command::CallService { service, srv_type, args, id } => {
                e.push(entry("op", text("call_service")));
                e.push(entry("service", string(service)));
                e.push(entry("type", string(srv_type)));
                e.push(entry("args", args));
                e.push(entry("id", opt_text(id)));
            },
            Command::SendActionGoal { action, action_type, goal, id, session_id } => {
                e.push(entry("op", text("send_action_goal")));
                e.push(entry("action", string(action)));
                e.push(entry("action_type", string(action_type)));
                e.push(entry("goal", goal));
                e.push(entry("id", opt_text(id)));
                e.push(entry("session_id", opt_text(session_id)));
            },
            Command::CancelActionGoal { action, action_type, session_id } => {
                e.push(entry("op", text("cancel_action_goal")));
                e.push(entry("action", string(action)));
                e.push(entry("action_type", string(action_type)));
                e.push(entry("session_id", opt_text(session_id)));
            },
        }
        let r = StructuredValue::Object(e);
        assert(r@->Object_0 =~= c.entries());
        r
    }

    /// Lays the command out and encodes it. Fails exactly when the payload
    /// repeats a key somewhere, and then yields no command.
    pub fn into_json(self) -> (r: Result<serde_json::Value, ConversionError>)
        ensures
            r is Ok <==> self.encodable(),
            r matches Ok(j) ==> json_of(j) == self.model(),
    {
        proof {
            lemma_model_wf(self);
        }
        encode(self.into_value())
    }
}

/// Builds `{"op":"subscribe","topic":..,"type":..,"compression":..}`.
pub fn build_subscribe(topic: String, msg_type: String, compression: Option<String>) -> (r: Result<
    serde_json::Value,
    ConversionError,
>)
    ensures
        r matches Ok(j) && json_of(j) == (Command::Subscribe { topic, msg_type, compression }).model(),
{
    Command::Subscribe { topic, msg_type, compression }.into_json()
}

/// Builds `{"op":"unsubscribe","topic":..}`.
pub fn build_unsubscribe(topic: String) -> (r: Result<serde_json::Value, ConversionError>)
    ensures
        r matches Ok(j) && json_of(j) == (Command::Unsubscribe { topic }).model(),
{
    Command::Unsubscribe { topic }.into_json()
}

/// Builds `{"op":"advertise","topic":..,"type":..}`.
pub fn build_advertise(topic: String, msg_type: String) -> (r: Result<
    serde_json::Value,
    ConversionError,
>)
    ensures
        r matches Ok(j) && json_of(j) == (Command::Advertise { topic, msg_type }).model(),
{
    Command::Advertise { topic, msg_type }.into_json()
}

/// Builds `{"op":"publish","topic":..,"msg":..}`; fails when the message
/// repeats a key in one of its objects.
pub fn build_publish(topic: String, msg: StructuredValue) -> (r: Result<
    serde_json::Value,
    ConversionError,
>)
    ensures
        r is Ok <==> msg@.wf(),
        r matches Ok(j) ==> json_of(j) == (Command::Publish { topic, msg }).model(),
{
    Command::Publish { topic, msg }.into_json()
}

/// Builds `{"op":"call_service","service":..,"type":..,"args":..,"id":..}`;
/// fails when the arguments repeat a key in one of their objects.
pub fn build_call_service(
    service: String,
    srv_type: String,
    args: StructuredValue,
    id: Option<String>,
) -> (r: Result<serde_json::Value, ConversionError>)
    ensures
        r is Ok <==> args@.wf(),
        r matches Ok(j) ==> json_of(j) == (Command::CallService {
            service,
            srv_type,
            args,
            id,
        }).model(),
{
    Command::CallService { service, srv_type, args, id }.into_json()
}

/// Builds `{"op":"send_action_goal","action":..,"action_type":..,"goal":..,
/// "id":..,"session_id":..}`; fails when the goal repeats a key in one of its
/// objects.
pub fn build_send_action_goal(
    action: String,
    action_type: String,
    goal: StructuredValue,
    id: Option<String>,
    session_id: Option<String>,
) -> (r: Result<serde_json::Value, ConversionError>)
    ensures
        r is Ok <==> goal@.wf(),
        r matches Ok(j) ==> json_of(j) == (Command::SendActionGoal {
            action,
            action_type,
            goal,
            id,
            session_id,
        }).model(),
{
    Command::SendActionGoal { action, action_type, goal, id, session_id }.into_json()
}

/// Builds `{"op":"cancel_action_goal","action":..,"action_type":..,
/// "session_id":..}`.
pub fn build_cancel_action_goal(
    action: String,
    action_type: String,
    session_id: Option<String>,
) -> (r: Result<serde_json::Value, ConversionError>)
    ensures
        r matches Ok(j) && json_of(j) == (Command::CancelActionGoal {
            action,
            action_type,
            session_id,
        }).model(),
{
    Command::CancelActionGoal { action, action_type, session_id }.into_json()
}

/// Every command's object starts with the key `op`, holding the fixed tag of
/// its kind.
pub proof fn lemma_op_first(c: Command)
    ensures
        c.model() is Object,
        c.model()->Object_0.len() >= 2,
        c.model()->Object_0[0] == ("op"@, Json::Str(c.op())),
        c is Subscribe ==> c.op() == "subscribe"@,
        c is Unsubscribe ==> c.op() == "unsubscribe"@,
        c is Advertise ==> c.op() == "advertise"@,
        c is Publish ==> c.op() == "publish"@,
        c is CallService ==> c.op() == "call_service"@,
        c is SendActionGoal ==> c.op() == "send_action_goal"@,
        c is CancelActionGoal ==> c.op() == "cancel_action_goal"@,
{
}

/// Every optional field is laid out under its key: as null when absent, as
/// its text unchanged when present.
pub proof fn lemma_optional_fields(c: Command)
    ensures
        forall|o: Option<String>| #[trigger] opt_json(o) == (if o is Some {
            Json::Str(o->0@)
        } else {
            Json::Null
        }),
        c matches Command::Subscribe { compression, .. } ==> c.entries()[3] == (
            "compression"@,
            opt_json(compression),
        ),
        c matches Command::CallService { id, .. } ==> c.entries()[4] == ("id"@, opt_json(id)),
        c matches Command::SendActionGoal { id, session_id, .. } ==> c.entries()[4] == (
            "id"@,
            opt_json(id),
        ) && c.entries()[5] == ("session_id"@, opt_json(session_id)),
        c matches Command::CancelActionGoal { session_id, .. } ==> c.entries()[3] == (
            "session_id"@,
            opt_json(session_id),
        ),
{
}

/// A payload is laid out unchanged, in structure and in key order, under
/// the key of its kind.
pub proof fn lemma_payload_kept(c: Command)
    ensures
        c matches Command::Publish { msg, .. } ==> c.entries()[2] == ("msg"@, msg@),
        c matches Command::CallService { args, .. } ==> c.entries()[3] == ("args"@, args@),
        c matches Command::SendActionGoal { goal, .. } ==> c.entries()[3] == ("goal"@, goal@),
{
}

} // verus!
