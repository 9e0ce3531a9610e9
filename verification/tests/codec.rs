use gossip_glomers::broadcast::BroadcastPayload;
use gossip_glomers::echo::EchoPayload;
use gossip_glomers::msg::{decode_line, encode_line, Body, Error, Message};
use gossip_glomers::node::InitPayload;
use gossip_glomers::unique::UniquePayload;

#[test]
fn decode_echo_request() {
    let line = "{\"src\":\"c1\",\"dest\":\"n1\",\"body\":{\"type\":\"echo\",\"msg_id\":7,\"echo\":\"hello\"}}";
    let m = decode_line::<EchoPayload>(line).unwrap();
    assert_eq!(m.src, "c1");
    assert_eq!(m.dest, "n1");
    assert_eq!(m.body.msg_id, Some(7));
    assert_eq!(m.body.in_reply_to, None);
    match m.body.payload {
        EchoPayload::Echo { echo } => assert_eq!(echo, "hello"),
        _ => panic!("wrong payload"),
    }
}

#[test]
fn decode_is_insensitive_to_field_order() {
    let line = "{\"body\":{\"echo\":\"x\",\"type\":\"echo\",\"msg_id\":1},\"dest\":\"n1\",\"src\":\"c1\"}";
    let m = decode_line::<EchoPayload>(line).unwrap();
    assert_eq!(m.body.msg_id, Some(1));
    assert!(matches!(m.body.payload, EchoPayload::Echo { .. }));
}

#[test]
fn decode_rejects_malformed_json() {
    assert_eq!(decode_line::<EchoPayload>("{\"src\":").unwrap_err(), Error::Decode);
    assert_eq!(decode_line::<EchoPayload>("").unwrap_err(), Error::Decode);
    assert_eq!(decode_line::<EchoPayload>("hello").unwrap_err(), Error::Decode);
}

#[test]
fn decode_rejects_unknown_tag_for_the_set() {
    let line = "{\"src\":\"c1\",\"dest\":\"n1\",\"body\":{\"type\":\"generate\",\"msg_id\":1}}";
    assert_eq!(decode_line::<EchoPayload>(line).unwrap_err(), Error::Decode);
    let line2 = "{\"src\":\"c1\",\"dest\":\"n1\",\"body\":{\"type\":\"echo\",\"msg_id\":1,\"echo\":\"x\"}}";
    assert_eq!(decode_line::<UniquePayload>(line2).unwrap_err(), Error::Decode);
}

#[test]
fn decode_rejects_missing_pieces() {
    // no body
    let no_body = "{\"src\":\"c1\",\"dest\":\"n1\"}";
    assert_eq!(decode_line::<EchoPayload>(no_body).unwrap_err(), Error::Decode);
    // no tag
    let no_tag = "{\"src\":\"c1\",\"dest\":\"n1\",\"body\":{\"msg_id\":1}}";
    assert_eq!(decode_line::<EchoPayload>(no_tag).unwrap_err(), Error::Decode);
    // echo without its string
    let no_echo = "{\"src\":\"c1\",\"dest\":\"n1\",\"body\":{\"type\":\"echo\",\"msg_id\":1}}";
    assert_eq!(decode_line::<EchoPayload>(no_echo).unwrap_err(), Error::Decode);
    // broadcast without its message
    let no_msg = "{\"src\":\"c1\",\"dest\":\"n1\",\"body\":{\"type\":\"broadcast\",\"msg_id\":1}}";
    assert_eq!(decode_line::<BroadcastPayload>(no_msg).unwrap_err(), Error::Decode);
}

#[test]
fn decode_rejects_ill_typed_ids() {
    let s = "{\"src\":\"c1\",\"dest\":\"n1\",\"body\":{\"type\":\"echo\",\"msg_id\":\"x\",\"echo\":\"y\"}}";
    assert_eq!(decode_line::<EchoPayload>(s).unwrap_err(), Error::Decode);
    let neg = "{\"src\":\"c1\",\"dest\":\"n1\",\"body\":{\"type\":\"echo\",\"msg_id\":-1,\"echo\":\"y\"}}";
    assert_eq!(decode_line::<EchoPayload>(neg).unwrap_err(), Error::Decode);
    let frac = "{\"src\":\"c1\",\"dest\":\"n1\",\"body\":{\"type\":\"echo\",\"msg_id\":1.5,\"echo\":\"y\"}}";
    assert_eq!(decode_line::<EchoPayload>(frac).unwrap_err(), Error::Decode);
    let non_str_src = "{\"src\":3,\"dest\":\"n1\",\"body\":{\"type\":\"echo\",\"msg_id\":1,\"echo\":\"y\"}}";
    assert_eq!(decode_line::<EchoPayload>(non_str_src).unwrap_err(), Error::Decode);
}

#[test]
fn decode_treats_null_msg_id_as_absent() {
    let line = "{\"src\":\"c1\",\"dest\":\"n1\",\"body\":{\"type\":\"echo\",\"msg_id\":null,\"echo\":\"y\"}}";
    let m = decode_line::<EchoPayload>(line).unwrap();
    assert_eq!(m.body.msg_id, None);
}

#[test]
fn decode_init_message() {
    let line = "{\"src\":\"c1\",\"dest\":\"n1\",\"body\":{\"type\":\"init\",\"msg_id\":1,\"node_id\":\"n1\",\"node_ids\":[\"n1\",\"n2\"]}}";
    let m = decode_line::<InitPayload>(line).unwrap();
    match m.body.payload {
        InitPayload::Init(init) => {
            assert_eq!(init.node_id, "n1");
            assert_eq!(init.node_ids, vec!["n1".to_string(), "n2".to_string()]);
        },
        _ => panic!("wrong payload"),
    }
}

#[test]
fn decode_init_rejects_bad_node_ids() {
    let line = "{\"src\":\"c1\",\"dest\":\"n1\",\"body\":{\"type\":\"init\",\"msg_id\":1,\"node_id\":\"n1\",\"node_ids\":[\"n1\",2]}}";
    assert_eq!(decode_line::<InitPayload>(line).unwrap_err(), Error::Decode);
}

#[test]
fn decode_broadcast_set_round() {
    let rd = "{\"src\":\"c1\",\"dest\":\"n1\",\"body\":{\"type\":\"read_ok\",\"in_reply_to\":2,\"messages\":[1,2,3]}}";
    let m = decode_line::<BroadcastPayload>(rd).unwrap();
    match m.body.payload {
        BroadcastPayload::ReadOk { messages } => assert_eq!(messages, vec![1, 2, 3]),
        _ => panic!("wrong payload"),
    }
    let tp = "{\"src\":\"c1\",\"dest\":\"n1\",\"body\":{\"type\":\"topology\",\"msg_id\":1,\"topology\":{\"n1\":[\"n2\"],\"n2\":[\"n1\"]}}}";
    let m2 = decode_line::<BroadcastPayload>(tp).unwrap();
    match m2.body.payload {
        BroadcastPayload::Topology { topology } => {
            assert_eq!(topology.len(), 2);
            assert_eq!(topology[0].0, "n1");
            assert_eq!(topology[0].1, vec!["n2".to_string()]);
            assert_eq!(topology[1].0, "n2");
            assert_eq!(topology[1].1, vec!["n1".to_string()]);
        },
        _ => panic!("wrong payload"),
    }
}

#[test]
fn decode_generate_ok_uses_wire_name_id() {
    let line = "{\"src\":\"n1\",\"dest\":\"c1\",\"body\":{\"type\":\"generate_ok\",\"in_reply_to\":2,\"id\":\"n1-5\"}}";
    let m = decode_line::<UniquePayload>(line).unwrap();
    match m.body.payload {
        UniquePayload::GenerateOk { guid } => assert_eq!(guid, "n1-5"),
        _ => panic!("wrong payload"),
    }
}

#[test]
fn encode_echo_ok_exact_line() {
    let m = Message {
        src: "n1".to_string(),
        dest: "c1".to_string(),
        body: Body {
            msg_id: Some(1),
            in_reply_to: Some(2),
            payload: EchoPayload::EchoOk { echo: "hi".to_string() },
        },
    };
    let line = encode_line(m);
    assert_eq!(
        line,
        "{\"src\":\"n1\",\"dest\":\"c1\",\"body\":{\"type\":\"echo_ok\",\"msg_id\":1,\"in_reply_to\":2,\"echo\":\"hi\"}}\n"
    );
}

#[test]
fn encode_omits_absent_ids() {
    let m = Message {
        src: "n1".to_string(),
        dest: "c1".to_string(),
        body: Body {
            msg_id: None,
            in_reply_to: None,
            payload: UniquePayload::GenerateOk { guid: "n1-1".to_string() },
        },
    };
    let line = encode_line(m);
    assert_eq!(line, "{\"src\":\"n1\",\"dest\":\"c1\",\"body\":{\"type\":\"generate_ok\",\"id\":\"n1-1\"}}\n");
}

#[test]
fn encode_read_ok_messages_in_order() {
    let m = Message {
        src: "n1".to_string(),
        dest: "c1".to_string(),
        body: Body {
            msg_id: Some(3),
            in_reply_to: Some(4),
            payload: BroadcastPayload::ReadOk { messages: vec![5, 7, 5] },
        },
    };
    let line = encode_line(m);
    assert_eq!(
        line,
        "{\"src\":\"n1\",\"dest\":\"c1\",\"body\":{\"type\":\"read_ok\",\"msg_id\":3,\"in_reply_to\":4,\"messages\":[5,7,5]}}\n"
    );
}

#[test]
fn decode_then_encode_keeps_content() {
    let line = "{\"src\":\"c1\",\"dest\":\"n1\",\"body\":{\"type\":\"echo\",\"msg_id\":7,\"echo\":\"round trip\"}}";
    let m = decode_line::<EchoPayload>(line).unwrap();
    let again = encode_line(m);
    assert_eq!(again, format!("{}\n", line));
}
