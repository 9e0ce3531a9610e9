//! The unique-id handler: each `generate` request is answered with an id
//! built from the node's identity and its advancing counter.
use crate::digits::{lemma_digits_injective, spec_digits, u64_digits};
use crate::json::{jv_fields, lemma_jv_fields_elems, lookup, spec_lookup, str_is, Json, JsonV};
use crate::msg::{Body, BodyV, Error, Message, MessageV, Payload};
use crate::node::{Init, InitV, Node};
use vstd::prelude::*;

verus! {

/// The unique-id payload set. On the wire the id field of `generate_ok` is
/// named `id`.
#[derive(Debug)]
pub enum UniquePayload {
    Generate,
    GenerateOk { guid: String },
}

/// The mathematical shape of [`UniquePayload`].
pub enum UniquePayloadV {
    Generate,
    GenerateOk { guid: Seq<char> },
}

impl View for UniquePayload {
    type V = UniquePayloadV;

    open spec fn view(&self) -> UniquePayloadV {
        match self {
            UniquePayload::Generate => UniquePayloadV::Generate,
            UniquePayload::GenerateOk { guid } => UniquePayloadV::GenerateOk { guid: guid@ },
        }
    }
}

impl Payload for UniquePayload {
    open spec fn of_body(fields: Seq<(Seq<char>, JsonV)>, tag: Seq<char>) -> Option<
        UniquePayloadV,
    > {
        if tag == "generate"@ {
            Some(UniquePayloadV::Generate)
        } else if tag == "generate_ok"@ {
            match spec_lookup(fields, "id"@) {
                Some(JsonV::Str(guid)) => Some(UniquePayloadV::GenerateOk { guid }),
                _ => None,
            }
        } else {
            None
        }
    }

    open spec fn tag_of(v: UniquePayloadV) -> Seq<char> {
        match v {
            UniquePayloadV::Generate => "generate"@,
            UniquePayloadV::GenerateOk { .. } => "generate_ok"@,
        }
    }

    open spec fn fields_of(v: UniquePayloadV) -> Seq<(Seq<char>, JsonV)> {
        match v {
            UniquePayloadV::Generate => Seq::empty(),
            UniquePayloadV::GenerateOk { guid } => seq![("id"@, JsonV::Str(guid))],
        }
    }

    fn parse_payload(tag: &String, fields: &Vec<(String, Json)>) -> (r: Option<Self>) {
        if str_is(tag, "generate") {
            Some(UniquePayload::Generate)
        } else if str_is(tag, "generate_ok") {
            match lookup(fields, "id") {
                Some(Json::Str(s)) => Some(UniquePayload::GenerateOk { guid: s.clone() }),
                _ => None,
            }
        } else {
            None
        }
    }

    fn build_payload(self) -> (r: (String, Vec<(String, Json)>)) {
        let ghost v = self@;
        match self {
            UniquePayload::Generate => {
                let fields: Vec<(String, Json)> = Vec::new();
                proof {
                    assert(jv_fields(fields@) =~= Seq::<(Seq<char>, JsonV)>::empty());
                }
                ("generate".to_owned(), fields)
            },
            UniquePayload::GenerateOk { guid } => {
                let mut fields: Vec<(String, Json)> = Vec::new();
                fields.push(("id".to_owned(), Json::Str(guid)));
                proof {
                    lemma_jv_fields_elems(fields@);
                    assert(jv_fields(fields@) =~= Self::fields_of(v));
                }
                ("generate_ok".to_owned(), fields)
            },
        }
    }
}

/// The id handed out for a node identity and a counter value: the identity,
/// a dash, and the counter in decimal.
pub open spec fn guid_v(node: Seq<char>, c: u64) -> Seq<char> {
    node + seq!['-'] + spec_digits(c as nat)
}

/// The unique-id handler's state: the node's identity and the counter.
#[derive(Debug)]
pub struct UniqueNode {
    pub node: String,
    pub id: u64,
}

/// The mathematical shape of [`UniqueNode`].
pub struct UniqueNodeV {
    pub node: Seq<char>,
    pub id: u64,
}

impl View for UniqueNode {
    type V = UniqueNodeV;

    open spec fn view(&self) -> UniqueNodeV {
        UniqueNodeV { node: self.node@, id: self.id }
    }
}

impl Node<UniquePayload> for UniqueNode {
    open spec fn v_counter(v: UniqueNodeV) -> u64 {
        v.id
    }

    open spec fn spec_from_init(init: InitV) -> Result<UniqueNodeV, Error> {
        Ok(UniqueNodeV { node: init.node_id, id: 0 })
    }

    open spec fn spec_step(pre: UniqueNodeV, input: MessageV<UniquePayloadV>) -> (
        UniqueNodeV,
        Option<MessageV<UniquePayloadV>>,
    ) {
        let post = UniqueNodeV { node: pre.node, id: (pre.id + 1) as u64 };
        match input.body.payload {
            UniquePayloadV::Generate => (
                post,
                Some(
                    MessageV {
                        src: input.dest,
                        dest: input.src,
                        body: BodyV {
                            msg_id: Some((pre.id + 1) as u64),
                            in_reply_to: input.body.msg_id,
                            payload: UniquePayloadV::GenerateOk {
                                guid: guid_v(pre.node, (pre.id + 1) as u64),
                            },
                        },
                    },
                ),
            ),
            UniquePayloadV::GenerateOk { .. } => (post, None),
        }
    }

    fn from_init(init: Init) -> (r: Result<Self, Error>) {
        Ok(UniqueNode { node: init.node_id, id: 0 })
    }

    fn step(&mut self, input: Message<UniquePayload>) -> (r: Option<Message<UniquePayload>>) {
        let reply = input.into_reply(&mut self.id);
        let Message { src, dest, body } = reply;
        let Body { msg_id, in_reply_to, payload } = body;
        match payload {
            UniquePayload::Generate => {
                let mut guid = self.node.clone();
                guid.append("-");
                let digits = u64_digits(self.id);
                guid.append(digits.as_str());
                proof {
                    reveal_strlit("-");
                    assert("-"@ =~= seq!['-']);
                    assert(guid@ =~= guid_v(self.node@, self.id));
                }
                Some(
                    Message {
                        src,
                        dest,
                        body: Body {
                            msg_id,
                            in_reply_to,
                            payload: UniquePayload::GenerateOk { guid },
                        },
                    },
                )
            },
            UniquePayload::GenerateOk { .. } => None,
        }
    }

    fn counter(&self) -> (c: u64) {
        self.id
    }
}

/// Law: ids built for the same node identity from different counter values
/// differ.
pub proof fn lemma_guid_injective(node: Seq<char>, i: u64, j: u64)
    requires
        i != j,
    ensures
        guid_v(node, i) != guid_v(node, j),
{
    if guid_v(node, i) == guid_v(node, j) {
        let di = spec_digits(i as nat);
        let dj = spec_digits(j as nat);
        assert(di =~= guid_v(node, i).skip(node.len() as int + 1));
        assert(dj =~= guid_v(node, j).skip(node.len() as int + 1));
        lemma_digits_injective(i as nat, j as nat);
    }
}

/// The counter values and ids that a run of `generate` requests leads to:
/// after `k` requests the counter stands `k` higher, and the `t`-th request
/// was answered with the id of counter value `c + t + 1`.
pub open spec fn generate_ids(node: Seq<char>, c: u64, k: nat) -> Seq<Seq<char>> {
    Seq::new(k, |t: int| guid_v(node, (c + t + 1) as u64))
}

/// Law: a run of sequential `generate` requests on one node is answered with
/// ids of the form `<node>-<i>` with `i` strictly increasing, and the ids are
/// pairwise distinct.
pub proof fn lemma_generate_run_distinct(node: Seq<char>, c: u64, k: nat)
    requires
        c + k <= u64::MAX,
    ensures
        forall|t: int|
            0 <= t < k ==> #[trigger] generate_ids(node, c, k)[t] == guid_v(
                node,
                (c + t + 1) as u64,
            ),
        forall|s: int, t: int|
            0 <= s < t < k ==> generate_ids(node, c, k)[s] != generate_ids(node, c, k)[t],
{
    assert forall|s: int, t: int| 0 <= s < t < k implies generate_ids(node, c, k)[s]
        != generate_ids(node, c, k)[t] by {
        lemma_guid_injective(node, (c + s + 1) as u64, (c + t + 1) as u64);
    }
}

/// The state after a run of messages, and the ids handed out along it.
pub open spec fn run_generate(pre: UniqueNodeV, msgs: Seq<MessageV<UniquePayloadV>>) -> (
    UniqueNodeV,
    Seq<Seq<char>>,
)
    decreases msgs.len(),
{
    if msgs.len() == 0 {
        (pre, Seq::empty())
    } else {
        let (p1, out) = UniqueNode::spec_step(pre, msgs[0]);
        let (pf, ids) = run_generate(p1, msgs.drop_first());
        let first = match out {
            Some(r) => match r.body.payload {
                UniquePayloadV::GenerateOk { guid } => seq![guid],
                _ => Seq::empty(),
            },
            None => Seq::empty(),
        };
        (pf, first + ids)
    }
}

/// Law: a run of `k` sequential `generate` requests on one node hands out
/// exactly the ids of counter values `c + 1` to `c + k`, in that order, and
/// advances the counter by `k`.
pub proof fn lemma_generate_run(pre: UniqueNodeV, msgs: Seq<MessageV<UniquePayloadV>>)
    requires
        forall|t: int| 0 <= t < msgs.len() ==> (#[trigger] msgs[t].body.payload) is Generate,
        pre.id + msgs.len() <= u64::MAX,
    ensures
        run_generate(pre, msgs).0.id == pre.id + msgs.len(),
        run_generate(pre, msgs).0.node == pre.node,
        run_generate(pre, msgs).1 == generate_ids(pre.node, pre.id, msgs.len() as nat),
    decreases msgs.len(),
{
    if msgs.len() > 0 {
        let (p1, out) = UniqueNode::spec_step(pre, msgs[0]);
        assert(msgs[0].body.payload is Generate);
        assert(p1.id == pre.id + 1 && p1.node == pre.node);
        assert forall|t: int| 0 <= t < msgs.drop_first().len() implies (#[trigger] msgs.drop_first()[t].body.payload)
            is Generate by {
            assert(msgs.drop_first()[t] == msgs[t + 1]);
        }
        lemma_generate_run(p1, msgs.drop_first());
        assert(run_generate(pre, msgs).1 =~= generate_ids(pre.node, pre.id, msgs.len() as nat));
    } else {
        assert(run_generate(pre, msgs).1 =~= generate_ids(pre.node, pre.id, 0));
    }
}

/// Law: the ids handed out along a run of sequential `generate` requests on
/// one node are pairwise distinct.
pub proof fn lemma_generate_run_ids_distinct(pre: UniqueNodeV, msgs: Seq<MessageV<UniquePayloadV>>)
    requires
        forall|t: int| 0 <= t < msgs.len() ==> (#[trigger] msgs[t].body.payload) is Generate,
        pre.id + msgs.len() <= u64::MAX,
    ensures
        forall|s: int, t: int|
            0 <= s < t < msgs.len() ==> run_generate(pre, msgs).1[s] != run_generate(pre, msgs).1[t],
{
    lemma_generate_run(pre, msgs);
    lemma_generate_run_distinct(pre.node, pre.id, msgs.len() as nat);
}

/// Law: a reply of the unique-id handler answers the message it was given:
/// its `in_reply_to` equals the incoming `msg_id`, present or absent alike.
pub proof fn lemma_unique_reply_correlation(pre: UniqueNodeV, input: MessageV<UniquePayloadV>)
    ensures
        ({
            let (post, out) = UniqueNode::spec_step(pre, input);
            out matches Some(r) ==> r.body.in_reply_to == input.body.msg_id
        }),
{
}

/// Law: one `generate` request advances the counter by one and is answered
/// with the id of the new counter value; the reply answers the incoming
/// message.
pub proof fn lemma_generate_step(pre: UniqueNodeV, input: MessageV<UniquePayloadV>)
    requires
        input.body.payload is Generate,
        pre.id < u64::MAX,
    ensures
        ({
            let (post, out) = UniqueNode::spec_step(pre, input);
            &&& post.id == pre.id + 1
            &&& post.node == pre.node
            &&& out matches Some(r)
            &&& out->Some_0.body.payload == (UniquePayloadV::GenerateOk {
                guid: guid_v(pre.node, (pre.id + 1) as u64),
            })
            &&& out->Some_0.body.in_reply_to == input.body.msg_id
        }),
{
}

} // verus!
