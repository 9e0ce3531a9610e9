use gossip_glomers::broadcast::{BroadcastNode, BroadcastPayload};
use gossip_glomers::driver::{drive, ready, Driver, Event};
use gossip_glomers::echo::{EchoNode, EchoPayload};
use gossip_glomers::msg::Error;
use gossip_glomers::unique::{UniqueNode, UniquePayload};

fn line(s: &str) -> Event {
    Event::Line(s.to_string())
}

#[test]
fn scenario_init_then_echo() {
    let d: Driver<EchoNode> = Driver::AwaitingInit;
    assert!(ready::<EchoPayload, EchoNode>(&d));
    let (d, r) = drive::<EchoPayload, EchoNode>(
        d,
        line(
            "{\"src\":\"c1\",\"dest\":\"n1\",\"body\":{\"type\":\"init\",\"msg_id\":1,\"node_id\":\"n1\",\"node_ids\":[\"n1\"]}}",
        ),
    );
    assert_eq!(
        r,
        Ok(Some(
            "{\"src\":\"n1\",\"dest\":\"c1\",\"body\":{\"type\":\"init_ok\",\"in_reply_to\":1}}\n"
                .to_string()
        ))
    );
    let (_d, r) = drive::<EchoPayload, EchoNode>(
        d,
        line("{\"src\":\"c1\",\"dest\":\"n1\",\"body\":{\"type\":\"echo\",\"msg_id\":2,\"echo\":\"hi\"}}"),
    );
    let out = r.unwrap().unwrap();
    assert_eq!(
        out,
        "{\"src\":\"n1\",\"dest\":\"c1\",\"body\":{\"type\":\"echo_ok\",\"msg_id\":1,\"in_reply_to\":2,\"echo\":\"hi\"}}\n"
    );
}

#[test]
fn malformed_line_terminates_processing() {
    let d: Driver<EchoNode> = Driver::AwaitingInit;
    let (d, r) = drive::<EchoPayload, EchoNode>(
        d,
        line(
            "{\"src\":\"c1\",\"dest\":\"n1\",\"body\":{\"type\":\"init\",\"msg_id\":1,\"node_id\":\"n1\",\"node_ids\":[\"n1\"]}}",
        ),
    );
    assert!(r.is_ok());
    let (d, r) = drive::<EchoPayload, EchoNode>(d, line("this is not json"));
    assert_eq!(r, Err(Error::Decode));
    assert!(matches!(d, Driver::Done));
    // nothing after the malformed line is processed or replied to
    let (d, r) = drive::<EchoPayload, EchoNode>(
        d,
        line("{\"src\":\"c1\",\"dest\":\"n1\",\"body\":{\"type\":\"echo\",\"msg_id\":2,\"echo\":\"hi\"}}"),
    );
    assert_eq!(r, Ok(None));
    assert!(matches!(d, Driver::Done));
}

#[test]
fn first_message_must_be_init() {
    let d: Driver<EchoNode> = Driver::AwaitingInit;
    let (d, r) = drive::<EchoPayload, EchoNode>(
        d,
        line("{\"src\":\"c1\",\"dest\":\"n1\",\"body\":{\"type\":\"init_ok\",\"in_reply_to\":1}}"),
    );
    assert_eq!(r, Err(Error::Handshake));
    assert!(matches!(d, Driver::Done));
}

#[test]
fn first_message_of_another_tag_is_a_decode_error() {
    // before the handshake only the init payload set is active, so an echo
    // line is no message of that set
    let d: Driver<EchoNode> = Driver::AwaitingInit;
    let (_d, r) = drive::<EchoPayload, EchoNode>(
        d,
        line("{\"src\":\"c1\",\"dest\":\"n1\",\"body\":{\"type\":\"echo\",\"msg_id\":2,\"echo\":\"hi\"}}"),
    );
    assert_eq!(r, Err(Error::Decode));
}

#[test]
fn end_of_input_terminates_cleanly() {
    let d: Driver<EchoNode> = Driver::AwaitingInit;
    let (d, r) = drive::<EchoPayload, EchoNode>(d, Event::Eof);
    assert_eq!(r, Ok(None));
    assert!(matches!(d, Driver::Done));
}

#[test]
fn unique_session_hands_out_ids() {
    let d: Driver<UniqueNode> = Driver::AwaitingInit;
    let (d, _r) = drive::<UniquePayload, UniqueNode>(
        d,
        line(
            "{\"src\":\"c1\",\"dest\":\"n1\",\"body\":{\"type\":\"init\",\"msg_id\":1,\"node_id\":\"n1\",\"node_ids\":[\"n1\"]}}",
        ),
    );
    let (d, r) = drive::<UniquePayload, UniqueNode>(
        d,
        line("{\"src\":\"c1\",\"dest\":\"n1\",\"body\":{\"type\":\"generate\",\"msg_id\":2}}"),
    );
    assert_eq!(
        r,
        Ok(Some(
            "{\"src\":\"n1\",\"dest\":\"c1\",\"body\":{\"type\":\"generate_ok\",\"msg_id\":1,\"in_reply_to\":2,\"id\":\"n1-1\"}}\n"
                .to_string()
        ))
    );
    let (_d, r) = drive::<UniquePayload, UniqueNode>(
        d,
        line("{\"src\":\"c1\",\"dest\":\"n1\",\"body\":{\"type\":\"generate\",\"msg_id\":3}}"),
    );
    assert_eq!(
        r,
        Ok(Some(
            "{\"src\":\"n1\",\"dest\":\"c1\",\"body\":{\"type\":\"generate_ok\",\"msg_id\":2,\"in_reply_to\":3,\"id\":\"n1-2\"}}\n"
                .to_string()
        ))
    );
}

#[test]
fn broadcast_session_logs_and_reads() {
    let d: Driver<BroadcastNode> = Driver::AwaitingInit;
    let (d, _r) = drive::<BroadcastPayload, BroadcastNode>(
        d,
        line(
            "{\"src\":\"c1\",\"dest\":\"n1\",\"body\":{\"type\":\"init\",\"msg_id\":1,\"node_id\":\"n1\",\"node_ids\":[\"n1\",\"n2\"]}}",
        ),
    );
    let (d, r) = drive::<BroadcastPayload, BroadcastNode>(
        d,
        line("{\"src\":\"c1\",\"dest\":\"n1\",\"body\":{\"type\":\"broadcast\",\"msg_id\":2,\"message\":5}}"),
    );
    assert_eq!(
        r,
        Ok(Some(
            "{\"src\":\"n1\",\"dest\":\"c1\",\"body\":{\"type\":\"broadcast_ok\",\"msg_id\":1,\"in_reply_to\":2}}\n"
                .to_string()
        ))
    );
    let (d, _r) = drive::<BroadcastPayload, BroadcastNode>(
        d,
        line("{\"src\":\"c1\",\"dest\":\"n1\",\"body\":{\"type\":\"broadcast\",\"msg_id\":3,\"message\":7}}"),
    );
    let (d, r) = drive::<BroadcastPayload, BroadcastNode>(
        d,
        line("{\"src\":\"c1\",\"dest\":\"n1\",\"body\":{\"type\":\"read\",\"msg_id\":4}}"),
    );
    assert_eq!(
        r,
        Ok(Some(
            "{\"src\":\"n1\",\"dest\":\"c1\",\"body\":{\"type\":\"read_ok\",\"msg_id\":3,\"in_reply_to\":4,\"messages\":[5,7]}}\n"
                .to_string()
        ))
    );
    let (d, r) = drive::<BroadcastPayload, BroadcastNode>(
        d,
        line(
            "{\"src\":\"c1\",\"dest\":\"n1\",\"body\":{\"type\":\"topology\",\"msg_id\":5,\"topology\":{\"n1\":[\"n2\"],\"n2\":[\"n1\"]}}}",
        ),
    );
    assert_eq!(
        r,
        Ok(Some(
            "{\"src\":\"n1\",\"dest\":\"c1\",\"body\":{\"type\":\"topology_ok\",\"msg_id\":4,\"in_reply_to\":5}}\n"
                .to_string()
        ))
    );
    // the stored topology changes no subsequent read
    let (_d, r) = drive::<BroadcastPayload, BroadcastNode>(
        d,
        line("{\"src\":\"c1\",\"dest\":\"n1\",\"body\":{\"type\":\"read\",\"msg_id\":6}}"),
    );
    assert_eq!(
        r,
        Ok(Some(
            "{\"src\":\"n1\",\"dest\":\"c1\",\"body\":{\"type\":\"read_ok\",\"msg_id\":5,\"in_reply_to\":6,\"messages\":[5,7]}}\n"
                .to_string()
        ))
    );
}
