use tachybridge_wasm::{
    build_advertise, build_call_service, build_cancel_action_goal, build_publish,
    build_send_action_goal, build_subscribe, build_unsubscribe, decode, encode, Command,
    StructuredValue,
};

fn parse(text: &str) -> StructuredValue {
    decode(serde_json::from_str(text).unwrap())
}

fn text_of(v: serde_json::Value) -> String {
    serde_json::to_string(&v).unwrap()
}

fn s(x: &str) -> String {
    x.to_string()
}

#[test]
fn subscribe_without_compression() {
    let r = build_subscribe(s("sensors/temp"), s("std_msgs/Float64"), None).unwrap();
    assert_eq!(
        text_of(r),
        r#"{"op":"subscribe","topic":"sensors/temp","type":"std_msgs/Float64","compression":null}"#
    );
}

#[test]
fn subscribe_with_compression() {
    let r = build_subscribe(s("sensors/temp"), s("std_msgs/Float64"), Some(s("png"))).unwrap();
    assert_eq!(
        text_of(r),
        r#"{"op":"subscribe","topic":"sensors/temp","type":"std_msgs/Float64","compression":"png"}"#
    );
}

#[test]
fn publish_twist() {
    let msg = parse(r#"{"linear":{"x":1.0},"angular":{"z":0.0}}"#);
    let r = build_publish(s("cmd_vel"), msg).unwrap();
    assert_eq!(
        text_of(r),
        r#"{"op":"publish","topic":"cmd_vel","msg":{"linear":{"x":1.0},"angular":{"z":0.0}}}"#
    );
}

#[test]
fn call_service_add_two_ints() {
    let args = parse(r#"{"a":1,"b":2}"#);
    let r = build_call_service(s("add_two_ints"), s("example/AddTwoInts"), args, Some(s("req-1")))
        .unwrap();
    assert_eq!(
        text_of(r),
        r#"{"op":"call_service","service":"add_two_ints","type":"example/AddTwoInts","args":{"a":1,"b":2},"id":"req-1"}"#
    );
}

#[test]
fn cancel_action_goal_without_session() {
    let r = build_cancel_action_goal(s("navigate"), s("nav/NavigateAction"), None).unwrap();
    assert_eq!(
        text_of(r),
        r#"{"op":"cancel_action_goal","action":"navigate","action_type":"nav/NavigateAction","session_id":null}"#
    );
}

#[test]
fn unsubscribe_and_advertise() {
    assert_eq!(
        text_of(build_unsubscribe(s("chatter")).unwrap()),
        r#"{"op":"unsubscribe","topic":"chatter"}"#
    );
    assert_eq!(
        text_of(build_advertise(s("chatter"), s("std_msgs/String")).unwrap()),
        r#"{"op":"advertise","topic":"chatter","type":"std_msgs/String"}"#
    );
}

#[test]
fn send_action_goal_all_fields() {
    let goal = parse(r#"{"target":[1,2,3],"speed":0.5}"#);
    let r = build_send_action_goal(
        s("navigate"),
        s("nav/NavigateAction"),
        goal,
        Some(s("g-7")),
        Some(s("sess-1")),
    )
    .unwrap();
    assert_eq!(
        text_of(r),
        r#"{"op":"send_action_goal","action":"navigate","action_type":"nav/NavigateAction","goal":{"target":[1,2,3],"speed":0.5},"id":"g-7","session_id":"sess-1"}"#
    );
}

#[test]
fn op_is_first_key_for_every_kind() {
    let outputs = vec![
        (build_subscribe(s("t"), s("m"), None).unwrap(), "subscribe"),
        (build_unsubscribe(s("t")).unwrap(), "unsubscribe"),
        (build_advertise(s("t"), s("m")).unwrap(), "advertise"),
        (build_publish(s("t"), StructuredValue::Null).unwrap(), "publish"),
        (build_call_service(s("x"), s("y"), StructuredValue::Null, None).unwrap(), "call_service"),
        (
            build_send_action_goal(s("a"), s("b"), StructuredValue::Null, None, None).unwrap(),
            "send_action_goal",
        ),
        (build_cancel_action_goal(s("a"), s("b"), None).unwrap(), "cancel_action_goal"),
    ];
    for (value, tag) in outputs {
        let map = value.as_object().unwrap();
        let (first_key, first_value) = map.iter().next().unwrap();
        assert_eq!(first_key, "op");
        assert_eq!(first_value.as_str().unwrap(), tag);
    }
}

#[test]
fn optional_fields_are_null_not_absent() {
    let r = build_send_action_goal(s("a"), s("b"), StructuredValue::Null, None, None).unwrap();
    let map = r.as_object().unwrap();
    assert!(map.contains_key("id"));
    assert!(map["id"].is_null());
    assert!(map.contains_key("session_id"));
    assert!(map["session_id"].is_null());
    let r = build_call_service(s("x"), s("y"), StructuredValue::Null, None).unwrap();
    assert!(r.as_object().unwrap()["id"].is_null());
    let r = build_cancel_action_goal(s("a"), s("b"), Some(s(" Sess 1 "))).unwrap();
    assert_eq!(r["session_id"].as_str().unwrap(), " Sess 1 ");
}

#[test]
fn identifiers_are_kept_verbatim() {
    let r = build_advertise(s("  Odd/Topic "), s("")).unwrap();
    assert_eq!(text_of(r), r#"{"op":"advertise","topic":"  Odd/Topic ","type":""}"#);
}

#[test]
fn payload_structure_and_key_order_kept() {
    let text = r#"{"z":[null,true,{"b":"x","a":[]}],"a":{},"m":-3}"#;
    let r = build_publish(s("t"), parse(text)).unwrap();
    assert_eq!(text_of(r["msg"].clone()), text);
}

#[test]
fn round_trip_decode_of_encode() {
    let make = || {
        StructuredValue::Object(vec![
            (s("k"), StructuredValue::Array(vec![
                StructuredValue::Bool(false),
                StructuredValue::Number(serde_json::Number::from(7u64)),
                StructuredValue::String(s("seven")),
            ])),
            (s("empty"), StructuredValue::Object(vec![])),
            (s("n"), StructuredValue::Null),
        ])
    };
    let back = decode(encode(make()).unwrap());
    assert_eq!(back, make());
}

#[test]
fn duplicate_key_payload_is_rejected() {
    let dup = || {
        StructuredValue::Array(vec![StructuredValue::Object(vec![
            (s("a"), StructuredValue::Null),
            (s("a"), StructuredValue::Bool(true)),
        ])])
    };
    assert!(build_publish(s("t"), dup()).is_err());
    assert!(build_call_service(s("x"), s("y"), dup(), None).is_err());
    assert!(build_send_action_goal(s("a"), s("b"), dup(), None, None).is_err());
    let err = encode(dup()).unwrap_err();
    assert_eq!(err.cause, "duplicate key in object: a");
}

#[test]
fn decode_reads_each_variant() {
    let v = parse(r#"[null,true,2,"s",[],{"q":1}]"#);
    let expected = StructuredValue::Array(vec![
        StructuredValue::Null,
        StructuredValue::Bool(true),
        StructuredValue::Number(serde_json::Number::from(2u64)),
        StructuredValue::String(s("s")),
        StructuredValue::Array(vec![]),
        StructuredValue::Object(vec![(
            s("q"),
            StructuredValue::Number(serde_json::Number::from(1u64)),
        )]),
    ]);
    assert_eq!(v, expected);
}

#[test]
fn encode_builds_object_in_order() {
    let v = StructuredValue::Object(vec![
        (s("second"), StructuredValue::Number(serde_json::Number::from_f64(2.5).unwrap())),
        (s("first"), StructuredValue::String(s("one"))),
    ]);
    assert_eq!(text_of(encode(v).unwrap()), r#"{"second":2.5,"first":"one"}"#);
}

#[test]
fn command_into_value_lays_out_fields() {
    let c = Command::Publish { topic: s("t"), msg: StructuredValue::Bool(true) };
    let expected = StructuredValue::Object(vec![
        (s("op"), StructuredValue::String(s("publish"))),
        (s("topic"), StructuredValue::String(s("t"))),
        (s("msg"), StructuredValue::Bool(true)),
    ]);
    assert_eq!(c.into_value(), expected);
}
