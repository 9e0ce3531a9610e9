//! The echo handler: every `echo` request is answered by `echo_ok` carrying
//! the same string.
use crate::json::{jv_fields, lemma_jv_fields_elems, lookup, spec_lookup, str_is, Json, JsonV};
use crate::msg::{Body, BodyV, Error, Message, MessageV, Payload};
use crate::node::{Init, InitV, Node};
use vstd::prelude::*;

verus! {

/// The echo payload set.
#[derive(Debug)]
pub enum EchoPayload {
    Echo { echo: String },
    EchoOk { echo: String },
}

/// The mathematical shape of [`EchoPayload`].
pub enum EchoPayloadV {
    Echo { echo: Seq<char> },
    EchoOk { echo: Seq<char> },
}

impl View for EchoPayload {
    type V = EchoPayloadV;

    open spec fn view(&self) -> EchoPayloadV {
        match self {
            EchoPayload::Echo { echo } => EchoPayloadV::Echo { echo: echo@ },
            EchoPayload::EchoOk { echo } => EchoPayloadV::EchoOk { echo: echo@ },
        }
    }
}

impl Payload for EchoPayload {
    open spec fn of_body(fields: Seq<(Seq<char>, JsonV)>, tag: Seq<char>) -> Option<EchoPayloadV> {
        if tag == "echo"@ {
            match spec_lookup(fields, "echo"@) {
                Some(JsonV::Str(echo)) => Some(EchoPayloadV::Echo { echo }),
                _ => None,
            }
        } else if tag == "echo_ok"@ {
            match spec_lookup(fields, "echo"@) {
                Some(JsonV::Str(echo)) => Some(EchoPayloadV::EchoOk { echo }),
                _ => None,
            }
        } else {
            None
        }
    }

    open spec fn tag_of(v: EchoPayloadV) -> Seq<char> {
        match v {
            EchoPayloadV::Echo { .. } => "echo"@,
            EchoPayloadV::EchoOk { .. } => "echo_ok"@,
        }
    }

    open spec fn fields_of(v: EchoPayloadV) -> Seq<(Seq<char>, JsonV)> {
        match v {
            EchoPayloadV::Echo { echo } => seq![("echo"@, JsonV::Str(echo))],
            EchoPayloadV::EchoOk { echo } => seq![("echo"@, JsonV::Str(echo))],
        }
    }

    fn parse_payload(tag: &String, fields: &Vec<(String, Json)>) -> (r: Option<Self>) {
        if str_is(tag, "echo") {
            match lookup(fields, "echo") {
                Some(Json::Str(s)) => Some(EchoPayload::Echo { echo: s.clone() }),
                _ => None,
            }
        } else if str_is(tag, "echo_ok") {
            match lookup(fields, "echo") {
                Some(Json::Str(s)) => Some(EchoPayload::EchoOk { echo: s.clone() }),
                _ => None,
            }
        } else {
            None
        }
    }

    fn build_payload(self) -> (r: (String, Vec<(String, Json)>)) {
        let ghost v = self@;
        match self {
            EchoPayload::Echo { echo } => {
                let mut fields: Vec<(String, Json)> = Vec::new();
                fields.push(("echo".to_owned(), Json::Str(echo)));
                proof {
                    lemma_jv_fields_elems(fields@);
                    assert(jv_fields(fields@) =~= Self::fields_of(v));
                }
                ("echo".to_owned(), fields)
            },
            EchoPayload::EchoOk { echo } => {
                let mut fields: Vec<(String, Json)> = Vec::new();
                fields.push(("echo".to_owned(), Json::Str(echo)));
                proof {
                    lemma_jv_fields_elems(fields@);
                    assert(jv_fields(fields@) =~= Self::fields_of(v));
                }
                ("echo_ok".to_owned(), fields)
            },
        }
    }
}

/// The echo handler's state: nothing but the reply counter.
#[derive(Debug)]
pub struct EchoNode {
    pub id: u64,
}

/// The mathematical shape of [`EchoNode`].
pub struct EchoNodeV {
    pub id: u64,
}

impl View for EchoNode {
    type V = EchoNodeV;

    open spec fn view(&self) -> EchoNodeV {
        EchoNodeV { id: self.id }
    }
}

impl Node<EchoPayload> for EchoNode {
    open spec fn v_counter(v: EchoNodeV) -> u64 {
        v.id
    }

    open spec fn spec_from_init(init: InitV) -> Result<EchoNodeV, Error> {
        Ok(EchoNodeV { id: 0 })
    }

    open spec fn spec_step(pre: EchoNodeV, input: MessageV<EchoPayloadV>) -> (
        EchoNodeV,
        Option<MessageV<EchoPayloadV>>,
    ) {
        let post = EchoNodeV { id: (pre.id + 1) as u64 };
        match input.body.payload {
            EchoPayloadV::Echo { echo } => (
                post,
                Some(
                    MessageV {
                        src: input.dest,
                        dest: input.src,
                        body: BodyV {
                            msg_id: Some((pre.id + 1) as u64),
                            in_reply_to: input.body.msg_id,
                            payload: EchoPayloadV::EchoOk { echo },
                        },
                    },
                ),
            ),
            EchoPayloadV::EchoOk { .. } => (post, None),
        }
    }

    fn from_init(init: Init) -> (r: Result<Self, Error>) {
        Ok(EchoNode { id: 0 })
    }

    fn step(&mut self, input: Message<EchoPayload>) -> (r: Option<Message<EchoPayload>>) {
        let reply = input.into_reply(&mut self.id);
        let Message { src, dest, body } = reply;
        let Body { msg_id, in_reply_to, payload } = body;
        match payload {
            EchoPayload::Echo { echo } => Some(
                Message {
                    src,
                    dest,
                    body: Body { msg_id, in_reply_to, payload: EchoPayload::EchoOk { echo } },
                },
            ),
            EchoPayload::EchoOk { .. } => None,
        }
    }

    fn counter(&self) -> (c: u64) {
        self.id
    }
}

/// Law: for every string, an `echo` request is answered by `echo_ok` carrying
/// the identical string, and the reply answers the incoming message.
pub proof fn lemma_echo_round(pre: EchoNodeV, input: MessageV<EchoPayloadV>, s: Seq<char>)
    requires
        input.body.payload == (EchoPayloadV::Echo { echo: s }),
    ensures
        ({
            let (post, out) = EchoNode::spec_step(pre, input);
            &&& out matches Some(r)
            &&& out->Some_0.body.payload == (EchoPayloadV::EchoOk { echo: s })
            &&& out->Some_0.body.in_reply_to == input.body.msg_id
            &&& out->Some_0.src == input.dest
            &&& out->Some_0.dest == input.src
        }),
{
}

/// Law: a reply of the echo handler answers the message it was given: its
/// `in_reply_to` equals the incoming `msg_id`, present or absent alike.
pub proof fn lemma_echo_reply_correlation(pre: EchoNodeV, input: MessageV<EchoPayloadV>)
    ensures
        ({
            let (post, out) = EchoNode::spec_step(pre, input);
            out matches Some(r) ==> r.body.in_reply_to == input.body.msg_id
        }),
{
}

} // verus!
