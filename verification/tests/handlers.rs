use gossip_glomers::broadcast::{BroadcastNode, BroadcastPayload};
use gossip_glomers::echo::{EchoNode, EchoPayload};
use gossip_glomers::msg::{Body, Message};
use gossip_glomers::node::{Init, Node};
use gossip_glomers::unique::{UniqueNode, UniquePayload};

fn msg<P>(msg_id: Option<u64>, payload: P) -> Message<P> {
    Message {
        src: "c1".to_string(),
        dest: "n1".to_string(),
        body: Body { msg_id, in_reply_to: None, payload },
    }
}

#[test]
fn echo_replies_with_identical_string() {
    let mut n = EchoNode { id: 0 };
    let r = n.step(msg(Some(9), EchoPayload::Echo { echo: "some text".to_string() })).unwrap();
    assert_eq!(r.src, "n1");
    assert_eq!(r.dest, "c1");
    assert_eq!(r.body.msg_id, Some(1));
    assert_eq!(r.body.in_reply_to, Some(9));
    match r.body.payload {
        EchoPayload::EchoOk { echo } => assert_eq!(echo, "some text"),
        _ => panic!("wrong payload"),
    }
}

#[test]
fn echo_without_msg_id_gets_reply_without_in_reply_to() {
    let mut n = EchoNode { id: 0 };
    let r = n.step(msg(None, EchoPayload::Echo { echo: "x".to_string() })).unwrap();
    assert_eq!(r.body.in_reply_to, None);
    assert_eq!(r.body.msg_id, Some(1));
}

#[test]
fn echo_ignores_echo_ok_but_advances_counter() {
    let mut n = EchoNode { id: 0 };
    let r = n.step(msg(Some(1), EchoPayload::EchoOk { echo: "x".to_string() }));
    assert!(r.is_none());
    let r2 = n.step(msg(Some(2), EchoPayload::Echo { echo: "y".to_string() })).unwrap();
    assert_eq!(r2.body.msg_id, Some(2));
}

#[test]
fn generate_ids_are_distinct_and_increasing() {
    let mut n = UniqueNode::from_init(Init {
        node_id: "n1".to_string(),
        node_ids: vec!["n1".to_string(), "n2".to_string()],
    })
    .unwrap();
    let mut ids = Vec::new();
    for k in 0..3u64 {
        let r = n.step(msg(Some(10 + k), UniquePayload::Generate)).unwrap();
        match r.body.payload {
            UniquePayload::GenerateOk { guid } => ids.push(guid),
            _ => panic!("wrong payload"),
        }
    }
    assert_eq!(ids, vec!["n1-1".to_string(), "n1-2".to_string(), "n1-3".to_string()]);
    for a in 0..ids.len() {
        for b in 0..ids.len() {
            if a != b {
                assert_ne!(ids[a], ids[b]);
            }
        }
    }
}

#[test]
fn generate_renders_large_counters_in_decimal() {
    let mut n = UniqueNode { node: "node".to_string(), id: 1029 };
    let r = n.step(msg(Some(1), UniquePayload::Generate)).unwrap();
    match r.body.payload {
        UniquePayload::GenerateOk { guid } => assert_eq!(guid, "node-1030"),
        _ => panic!("wrong payload"),
    }
}

#[test]
fn broadcast_then_read_in_order() {
    let mut n = BroadcastNode::from_init(Init {
        node_id: "n1".to_string(),
        node_ids: vec!["n1".to_string()],
    })
    .unwrap();
    let r1 = n.step(msg(Some(1), BroadcastPayload::Broadcast { message: 5 })).unwrap();
    assert!(matches!(r1.body.payload, BroadcastPayload::BroadcastOk));
    let r2 = n.step(msg(Some(2), BroadcastPayload::Broadcast { message: 7 })).unwrap();
    assert!(matches!(r2.body.payload, BroadcastPayload::BroadcastOk));
    let r3 = n.step(msg(Some(3), BroadcastPayload::Read)).unwrap();
    match r3.body.payload {
        BroadcastPayload::ReadOk { messages } => assert_eq!(messages, vec![5, 7]),
        _ => panic!("wrong payload"),
    }
}

#[test]
fn broadcast_keeps_duplicates_as_separate_entries() {
    let mut n = BroadcastNode::from_init(Init {
        node_id: "n1".to_string(),
        node_ids: vec!["n1".to_string()],
    })
    .unwrap();
    n.step(msg(Some(1), BroadcastPayload::Broadcast { message: 5 }));
    n.step(msg(Some(2), BroadcastPayload::Broadcast { message: 7 }));
    n.step(msg(Some(3), BroadcastPayload::Broadcast { message: 5 }));
    let r = n.step(msg(Some(4), BroadcastPayload::Read)).unwrap();
    match r.body.payload {
        BroadcastPayload::ReadOk { messages } => assert_eq!(messages, vec![5, 7, 5]),
        _ => panic!("wrong payload"),
    }
}

#[test]
fn topology_yields_ok_and_leaves_read_unchanged() {
    let mut n = BroadcastNode::from_init(Init {
        node_id: "n1".to_string(),
        node_ids: vec!["n1".to_string(), "n2".to_string()],
    })
    .unwrap();
    n.step(msg(Some(1), BroadcastPayload::Broadcast { message: 3 }));
    let before = match n.step(msg(Some(2), BroadcastPayload::Read)).unwrap().body.payload {
        BroadcastPayload::ReadOk { messages } => messages,
        _ => panic!("wrong payload"),
    };
    let topo = vec![("n1".to_string(), vec!["n2".to_string()]), ("n2".to_string(), vec![])];
    let r = n.step(msg(Some(3), BroadcastPayload::Topology { topology: topo })).unwrap();
    assert!(matches!(r.body.payload, BroadcastPayload::TopologyOk));
    let after = match n.step(msg(Some(4), BroadcastPayload::Read)).unwrap().body.payload {
        BroadcastPayload::ReadOk { messages } => messages,
        _ => panic!("wrong payload"),
    };
    assert_eq!(before, after);
    assert_eq!(after, vec![3]);
}

#[test]
fn broadcast_ignores_ok_variants() {
    let mut n = BroadcastNode::from_init(Init {
        node_id: "n1".to_string(),
        node_ids: vec!["n1".to_string()],
    })
    .unwrap();
    assert!(n.step(msg(Some(1), BroadcastPayload::BroadcastOk)).is_none());
    assert!(n.step(msg(Some(2), BroadcastPayload::TopologyOk)).is_none());
    assert!(n.step(msg(Some(3), BroadcastPayload::ReadOk { messages: vec![9] })).is_none());
    let r = n.step(msg(Some(4), BroadcastPayload::Read)).unwrap();
    assert_eq!(r.body.msg_id, Some(4));
    match r.body.payload {
        BroadcastPayload::ReadOk { messages } => assert_eq!(messages, Vec::<u64>::new()),
        _ => panic!("wrong payload"),
    }
}

#[test]
fn fresh_node_reads_empty_log() {
    let mut n = BroadcastNode::from_init(Init {
        node_id: "n1".to_string(),
        node_ids: vec!["n1".to_string()],
    })
    .unwrap();
    let r = n.step(msg(Some(1), BroadcastPayload::Read)).unwrap();
    match r.body.payload {
        BroadcastPayload::ReadOk { messages } => assert!(messages.is_empty()),
        _ => panic!("wrong payload"),
    }
}
