//! The broadcast handler: an append-only log of integers, a read that
//! snapshots it in receipt order, and a stored (but otherwise unused)
//! topology.
use crate::json::{
    build_uints, jv, jv_fields, lemma_jv_fields_elems, lemma_jv_fields_push,
    lookup, parse_strings, parse_uints, spec_lookup, spec_strings, spec_uints, str_is,
    strings_items, strs_v, uints_items, build_strings, Json, JsonV,
};
use crate::msg::{Body, BodyV, Error, Message, MessageV, Payload};
use crate::node::{Init, InitV, Node};
use vstd::prelude::*;

verus! {

/// The views of a stored topology: each node id with its neighbour list.
pub open spec fn topo_v(t: Seq<(String, Vec<String>)>) -> Seq<(Seq<char>, Seq<Seq<char>>)> {
    t.map_values(|p: (String, Vec<String>)| (p.0@, strs_v(p.1@)))
}

/// A topology as the fields of a JSON object.
pub open spec fn topo_fields(t: Seq<(Seq<char>, Seq<Seq<char>>)>) -> Seq<(Seq<char>, JsonV)> {
    t.map_values(|p: (Seq<char>, Seq<Seq<char>>)| (p.0, JsonV::Arr(strings_items(p.1))))
}

/// The topology of a JSON object's fields, if every value is an array of
/// strings.
pub open spec fn spec_topology(fields: Seq<(Seq<char>, JsonV)>) -> Option<
    Seq<(Seq<char>, Seq<Seq<char>>)>,
>
    decreases fields,
{
    if fields.len() == 0 {
        Some(Seq::empty())
    } else {
        match fields[0].1 {
            JsonV::Arr(items) => match spec_strings(items) {
                Some(nbrs) => match spec_topology(fields.drop_first()) {
                    Some(rest) => Some(seq![(fields[0].0, nbrs)] + rest),
                    None => None,
                },
                None => None,
            },
            _ => None,
        }
    }
}

/// Reads the fields of a JSON object as a topology, from position `i` on.
fn parse_topology_from(fields: &Vec<(String, Json)>, i: usize) -> (r: Option<
    Vec<(String, Vec<String>)>,
>)
    requires
        i <= fields@.len(),
    ensures
        match r {
            Some(v) => spec_topology(jv_fields(fields@.skip(i as int))) == Some(topo_v(v@)),
            None => spec_topology(jv_fields(fields@.skip(i as int))) is None,
        },
    decreases fields@.len() - i,
{
    proof {
        crate::json::lemma_jv_fields_len(fields@.skip(i as int));
    }
    if i == fields.len() {
        proof {
            assert(fields@.skip(i as int) =~= Seq::<(String, Json)>::empty());
            assert(topo_v(Seq::<(String, Vec<String>)>::empty()) =~= Seq::<
                (Seq<char>, Seq<Seq<char>>),
            >::empty());
        }
        Some(Vec::new())
    } else {
        proof {
            lemma_jv_fields_elems(fields@.skip(i as int));
            assert(fields@.skip(i as int).drop_first() =~= fields@.skip(i + 1));
            assert(jv_fields(fields@.skip(i as int)) =~= seq![
                (fields@[i as int].0@, jv(fields@[i as int].1)),
            ] + jv_fields(fields@.skip(i + 1)));
            assert((seq![(fields@[i as int].0@, jv(fields@[i as int].1))] + jv_fields(
                fields@.skip(i + 1),
            )).drop_first() =~= jv_fields(fields@.skip(i + 1)));
        }
        let items = match &fields[i].1 {
            Json::Arr(items) => items,
            _ => { return None },
        };
        let nbrs = match parse_strings(items) {
            Some(nbrs) => nbrs,
            None => { return None },
        };
        match parse_topology_from(fields, i + 1) {
            Some(mut rest) => {
                let ghost old_rest = rest@;
                let entry = (fields[i].0.clone(), nbrs);
                rest.insert(0, entry);
                proof {
                    assert(rest@ =~= seq![entry] + old_rest);
                    assert(topo_v(rest@) =~= seq![(entry.0@, strs_v(entry.1@))] + topo_v(old_rest));
                }
                Some(rest)
            },
            None => None,
        }
    }
}

/// Reads a JSON object as a topology.
pub fn parse_topology(fields: &Vec<(String, Json)>) -> (r: Option<Vec<(String, Vec<String>)>>)
    ensures
        match r {
            Some(v) => spec_topology(jv_fields(fields@)) == Some(topo_v(v@)),
            None => spec_topology(jv_fields(fields@)) is None,
        },
{
    proof {
        assert(fields@.skip(0) =~= fields@);
    }
    parse_topology_from(fields, 0)
}

/// Builds the JSON object holding a topology.
pub fn build_topology(t: &Vec<(String, Vec<String>)>) -> (j: Json)
    ensures
        jv(j) == JsonV::Obj(topo_fields(topo_v(t@))),
{
    let mut fields: Vec<(String, Json)> = Vec::new();
    let n = t.len();
    for i in 0..n
        invariant
            n == t@.len(),
            jv_fields(fields@) =~= topo_fields(topo_v(t@.take(i as int))),
    {
        let entry = (t[i].0.clone(), build_strings(&t[i].1));
        proof {
            lemma_jv_fields_push(fields@, entry);
            assert(t@.take(i + 1) =~= t@.take(i as int).push(t@[i as int]));
            assert(jv_fields(fields@.push(entry)) =~= topo_fields(topo_v(t@.take(i + 1))));
        }
        fields.push(entry);
    }
    proof {
        assert(t@.take(n as int) =~= t@);
    }
    Json::Obj(fields)
}

/// The broadcast payload set.
#[derive(Debug)]
pub enum BroadcastPayload {
    Broadcast { message: u64 },
    BroadcastOk,
    Read,
    ReadOk { messages: Vec<u64> },
    Topology { topology: Vec<(String, Vec<String>)> },
    TopologyOk,
}

/// The mathematical shape of [`BroadcastPayload`].
pub enum BroadcastPayloadV {
    Broadcast { message: u64 },
    BroadcastOk,
    Read,
    ReadOk { messages: Seq<u64> },
    Topology { topology: Seq<(Seq<char>, Seq<Seq<char>>)> },
    TopologyOk,
}

impl View for BroadcastPayload {
    type V = BroadcastPayloadV;

    open spec fn view(&self) -> BroadcastPayloadV {
        match self {
            BroadcastPayload::Broadcast { message } => BroadcastPayloadV::Broadcast {
                message: *message,
            },
            BroadcastPayload::BroadcastOk => BroadcastPayloadV::BroadcastOk,
            BroadcastPayload::Read => BroadcastPayloadV::Read,
            BroadcastPayload::ReadOk { messages } => BroadcastPayloadV::ReadOk {
                messages: messages@,
            },
            BroadcastPayload::Topology { topology } => BroadcastPayloadV::Topology {
                topology: topo_v(topology@),
            },
            BroadcastPayload::TopologyOk => BroadcastPayloadV::TopologyOk,
        }
    }
}

impl Payload for BroadcastPayload {
    open spec fn of_body(fields: Seq<(Seq<char>, JsonV)>, tag: Seq<char>) -> Option<
        BroadcastPayloadV,
    > {
        if tag == "broadcast"@ {
            match spec_lookup(fields, "message"@) {
                Some(JsonV::UInt(message)) => Some(BroadcastPayloadV::Broadcast { message }),
                _ => None,
            }
        } else if tag == "broadcast_ok"@ {
            Some(BroadcastPayloadV::BroadcastOk)
        } else if tag == "read"@ {
            Some(BroadcastPayloadV::Read)
        } else if tag == "read_ok"@ {
            match spec_lookup(fields, "messages"@) {
                Some(JsonV::Arr(items)) => match spec_uints(items) {
                    Some(messages) => Some(BroadcastPayloadV::ReadOk { messages }),
                    None => None,
                },
                _ => None,
            }
        } else if tag == "topology"@ {
            match spec_lookup(fields, "topology"@) {
                Some(JsonV::Obj(tf)) => match spec_topology(tf) {
                    Some(topology) => Some(BroadcastPayloadV::Topology { topology }),
                    None => None,
                },
                _ => None,
            }
        } else if tag == "topology_ok"@ {
            Some(BroadcastPayloadV::TopologyOk)
        } else {
            None
        }
    }

    open spec fn tag_of(v: BroadcastPayloadV) -> Seq<char> {
        match v {
            BroadcastPayloadV::Broadcast { .. } => "broadcast"@,
            BroadcastPayloadV::BroadcastOk => "broadcast_ok"@,
            BroadcastPayloadV::Read => "read"@,
            BroadcastPayloadV::ReadOk { .. } => "read_ok"@,
            BroadcastPayloadV::Topology { .. } => "topology"@,
            BroadcastPayloadV::TopologyOk => "topology_ok"@,
        }
    }

    open spec fn fields_of(v: BroadcastPayloadV) -> Seq<(Seq<char>, JsonV)> {
        match v {
            BroadcastPayloadV::Broadcast { message } => seq![("message"@, JsonV::UInt(message))],
            BroadcastPayloadV::ReadOk { messages } => seq![
                ("messages"@, JsonV::Arr(uints_items(messages))),
            ],
            BroadcastPayloadV::Topology { topology } => seq![
                ("topology"@, JsonV::Obj(topo_fields(topology))),
            ],
            _ => Seq::empty(),
        }
    }

    fn parse_payload(tag: &String, fields: &Vec<(String, Json)>) -> (r: Option<Self>) {
        if str_is(tag, "broadcast") {
            match lookup(fields, "message") {
                Some(Json::UInt(n)) => Some(BroadcastPayload::Broadcast { message: *n }),
                _ => None,
            }
        } else if str_is(tag, "broadcast_ok") {
            Some(BroadcastPayload::BroadcastOk)
        } else if str_is(tag, "read") {
            Some(BroadcastPayload::Read)
        } else if str_is(tag, "read_ok") {
            match lookup(fields, "messages") {
                Some(Json::Arr(items)) => match parse_uints(items) {
                    Some(messages) => Some(BroadcastPayload::ReadOk { messages }),
                    None => None,
                },
                _ => None,
            }
        } else if str_is(tag, "topology") {
            match lookup(fields, "topology") {
                Some(Json::Obj(tf)) => match parse_topology(tf) {
                    Some(topology) => Some(BroadcastPayload::Topology { topology }),
                    None => None,
                },
                _ => None,
            }
        } else if str_is(tag, "topology_ok") {
            Some(BroadcastPayload::TopologyOk)
        } else {
            None
        }
    }

    fn build_payload(self) -> (r: (String, Vec<(String, Json)>)) {
        let ghost v = self@;
        match self {
            BroadcastPayload::Broadcast { message } => {
                let mut fields: Vec<(String, Json)> = Vec::new();
                fields.push(("message".to_owned(), Json::UInt(message)));
                proof {
                    lemma_jv_fields_elems(fields@);
                    assert(jv_fields(fields@) =~= Self::fields_of(v));
                }
                ("broadcast".to_owned(), fields)
            },
            BroadcastPayload::ReadOk { messages } => {
                let mut fields: Vec<(String, Json)> = Vec::new();
                fields.push(("messages".to_owned(), build_uints(&messages)));
                proof {
                    lemma_jv_fields_elems(fields@);
                    assert(jv_fields(fields@) =~= Self::fields_of(v));
                }
                ("read_ok".to_owned(), fields)
            },
            BroadcastPayload::Topology { topology } => {
                let mut fields: Vec<(String, Json)> = Vec::new();
                fields.push(("topology".to_owned(), build_topology(&topology)));
                proof {
                    lemma_jv_fields_elems(fields@);
                    assert(jv_fields(fields@) =~= Self::fields_of(v));
                }
                ("topology".to_owned(), fields)
            },
            BroadcastPayload::BroadcastOk => {
                let fields: Vec<(String, Json)> = Vec::new();
                proof {
                    assert(jv_fields(fields@) =~= Seq::<(Seq<char>, JsonV)>::empty());
                }
                ("broadcast_ok".to_owned(), fields)
            },
            BroadcastPayload::Read => {
                let fields: Vec<(String, Json)> = Vec::new();
                proof {
                    assert(jv_fields(fields@) =~= Seq::<(Seq<char>, JsonV)>::empty());
                }
                ("read".to_owned(), fields)
            },
            BroadcastPayload::TopologyOk => {
                let fields: Vec<(String, Json)> = Vec::new();
                proof {
                    assert(jv_fields(fields@) =~= Seq::<(Seq<char>, JsonV)>::empty());
                }
                ("topology_ok".to_owned(), fields)
            },
        }
    }
}

/// Copies a log snapshot.
fn copy_u64s(v: &Vec<u64>) -> (r: Vec<u64>)
    ensures
        r@ == v@,
{
    let mut r: Vec<u64> = Vec::new();
    let n = v.len();
    for i in 0..n
        invariant
            n == v@.len(),
            r@ =~= v@.take(i as int),
    {
        r.push(v[i]);
        proof {
            assert(v@.take(i + 1) =~= v@.take(i as int).push(v@[i as int]));
        }
    }
    proof {
        assert(v@.take(n as int) =~= v@);
    }
    r
}

/// The broadcast handler's state.
#[derive(Debug)]
pub struct BroadcastNode {
    pub node: String,
    pub messages: Vec<u64>,
    pub topology: Vec<(String, Vec<String>)>,
    pub id: u64,
}

/// The mathematical shape of [`BroadcastNode`].
pub struct BroadcastNodeV {
    pub node: Seq<char>,
    pub messages: Seq<u64>,
    pub topology: Seq<(Seq<char>, Seq<Seq<char>>)>,
    pub id: u64,
}

impl View for BroadcastNode {
    type V = BroadcastNodeV;

    open spec fn view(&self) -> BroadcastNodeV {
        BroadcastNodeV {
            node: self.node@,
            messages: self.messages@,
            topology: topo_v(self.topology@),
            id: self.id,
        }
    }
}

impl Node<BroadcastPayload> for BroadcastNode {
    open spec fn v_counter(v: BroadcastNodeV) -> u64 {
        v.id
    }

    open spec fn spec_from_init(init: InitV) -> Result<BroadcastNodeV, Error> {
        Ok(
            BroadcastNodeV {
                node: init.node_id,
                messages: Seq::empty(),
                topology: Seq::empty(),
                id: 0,
            },
        )
    }

    open spec fn spec_step(pre: BroadcastNodeV, input: MessageV<BroadcastPayloadV>) -> (
        BroadcastNodeV,
        Option<MessageV<BroadcastPayloadV>>,
    ) {
        let post = BroadcastNodeV { id: (pre.id + 1) as u64, ..pre };
        let reply_to = |payload: BroadcastPayloadV|
            MessageV {
                src: input.dest,
                dest: input.src,
                body: BodyV {
                    msg_id: Some((pre.id + 1) as u64),
                    in_reply_to: input.body.msg_id,
                    payload,
                },
            };
        match input.body.payload {
            BroadcastPayloadV::Broadcast { message } => (
                BroadcastNodeV { messages: pre.messages.push(message), ..post },
                Some(reply_to(BroadcastPayloadV::BroadcastOk)),
            ),
            BroadcastPayloadV::Read => (
                post,
                Some(reply_to(BroadcastPayloadV::ReadOk { messages: pre.messages })),
            ),
            BroadcastPayloadV::Topology { topology } => (
                BroadcastNodeV { topology, ..post },
                Some(reply_to(BroadcastPayloadV::TopologyOk)),
            ),
            _ => (post, None),
        }
    }

    fn from_init(init: Init) -> (r: Result<Self, Error>) {
        let n = BroadcastNode {
            node: init.node_id,
            messages: Vec::new(),
            topology: Vec::new(),
            id: 0,
        };
        proof {
            assert(n@.topology =~= Seq::<(Seq<char>, Seq<Seq<char>>)>::empty());
            assert(n@.messages =~= Seq::<u64>::empty());
        }
        Ok(n)
    }

    fn step(&mut self, input: Message<BroadcastPayload>) -> (r: Option<Message<BroadcastPayload>>) {
        let reply = input.into_reply(&mut self.id);
        let Message { src, dest, body } = reply;
        let Body { msg_id, in_reply_to, payload } = body;
        match payload {
            BroadcastPayload::Broadcast { message } => {
                self.messages.push(message);
                Some(
                    Message {
                        src,
                        dest,
                        body: Body { msg_id, in_reply_to, payload: BroadcastPayload::BroadcastOk },
                    },
                )
            },
            BroadcastPayload::Read => {
                let messages = copy_u64s(&self.messages);
                Some(
                    Message {
                        src,
                        dest,
                        body: Body {
                            msg_id,
                            in_reply_to,
                            payload: BroadcastPayload::ReadOk { messages },
                        },
                    },
                )
            },
            BroadcastPayload::Topology { topology } => {
                self.topology = topology;
                Some(
                    Message {
                        src,
                        dest,
                        body: Body { msg_id, in_reply_to, payload: BroadcastPayload::TopologyOk },
                    },
                )
            },
            BroadcastPayload::BroadcastOk
            | BroadcastPayload::ReadOk { .. }
            | BroadcastPayload::TopologyOk => None,
        }
    }

    fn counter(&self) -> (c: u64) {
        self.id
    }
}

/// Law: after broadcasts of `m1` then `m2`, a read is answered with the log
/// extended by exactly `[m1, m2]` in that order; nothing is dropped, merged
/// or reordered, and a repeated value is kept as a separate entry.
pub proof fn lemma_broadcast_then_read(
    pre: BroadcastNodeV,
    b1: MessageV<BroadcastPayloadV>,
    b2: MessageV<BroadcastPayloadV>,
    rd: MessageV<BroadcastPayloadV>,
    m1: u64,
    m2: u64,
)
    requires
        b1.body.payload == (BroadcastPayloadV::Broadcast { message: m1 }),
        b2.body.payload == (BroadcastPayloadV::Broadcast { message: m2 }),
        rd.body.payload is Read,
    ensures
        ({
            let (p1, out1) = BroadcastNode::spec_step(pre, b1);
            let (p2, out2) = BroadcastNode::spec_step(p1, b2);
            let (p3, out3) = BroadcastNode::spec_step(p2, rd);
            &&& out1 matches Some(r1) && r1.body.payload is BroadcastOk
            &&& out2 matches Some(r2) && r2.body.payload is BroadcastOk
            &&& out3 matches Some(r3) && r3.body.payload == (BroadcastPayloadV::ReadOk {
                messages: pre.messages + seq![m1, m2],
            })
            &&& p3.messages == pre.messages + seq![m1, m2]
        }),
{
    let (p1, out1) = BroadcastNode::spec_step(pre, b1);
    let (p2, out2) = BroadcastNode::spec_step(p1, b2);
    assert(p2.messages =~= pre.messages + seq![m1, m2]);
}

/// Law: a topology message is always answered with `topology_ok`, and it
/// never changes what a subsequent read returns.
pub proof fn lemma_topology_then_read(
    pre: BroadcastNodeV,
    tp: MessageV<BroadcastPayloadV>,
    rd: MessageV<BroadcastPayloadV>,
)
    requires
        tp.body.payload is Topology,
        rd.body.payload is Read,
    ensures
        ({
            let (p1, out1) = BroadcastNode::spec_step(pre, tp);
            let (p2, out2) = BroadcastNode::spec_step(p1, rd);
            let (q, out_direct) = BroadcastNode::spec_step(pre, rd);
            &&& out1 matches Some(r1) && r1.body.payload is TopologyOk
            &&& p1.messages == pre.messages
            &&& out2 matches Some(r2) && r2.body.payload == (BroadcastPayloadV::ReadOk {
                messages: pre.messages,
            })
            &&& out_direct matches Some(r3) && r3.body.payload == (BroadcastPayloadV::ReadOk {
                messages: pre.messages,
            })
        }),
{
}

/// Law: the log is append-only: whatever the message, a step keeps every
/// stored entry in place and in order.
pub proof fn lemma_broadcast_log_append_only(
    pre: BroadcastNodeV,
    input: MessageV<BroadcastPayloadV>,
)
    ensures
        ({
            let (post, out) = BroadcastNode::spec_step(pre, input);
            &&& post.messages.len() >= pre.messages.len()
            &&& post.messages.take(pre.messages.len() as int) == pre.messages
        }),
{
    let (post, out) = BroadcastNode::spec_step(pre, input);
    assert(post.messages.take(pre.messages.len() as int) =~= pre.messages);
}

/// Law: a reply of the broadcast handler answers the message it was given:
/// its `in_reply_to` equals the incoming `msg_id`, present or absent alike.
pub proof fn lemma_broadcast_reply_correlation(
    pre: BroadcastNodeV,
    input: MessageV<BroadcastPayloadV>,
)
    ensures
        ({
            let (post, out) = BroadcastNode::spec_step(pre, input);
            out matches Some(r) ==> r.body.in_reply_to == input.body.msg_id
        }),
{
}

} // verus!
