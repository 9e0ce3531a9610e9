//! The init handshake data and the lifecycle contract every handler meets.
use crate::json::{
    build_strings, jv, jv_fields, lemma_jv_fields_elems, lookup, parse_strings, spec_lookup,
    spec_strings, str_is, strings_items, strs_v, Json, JsonV,
};
use crate::msg::{Error, Message, MessageV, Payload};
use vstd::prelude::*;

verus! {

/// What the handshake assigns a node: its identity and the peer list.
#[derive(Debug)]
pub struct Init {
    pub node_id: String,
    pub node_ids: Vec<String>,
}

/// The mathematical shape of [`Init`].
pub struct InitV {
    pub node_id: Seq<char>,
    pub node_ids: Seq<Seq<char>>,
}

impl View for Init {
    type V = InitV;

    open spec fn view(&self) -> InitV {
        InitV { node_id: self.node_id@, node_ids: strs_v(self.node_ids@) }
    }
}

/// The handshake payload set.
#[derive(Debug)]
pub enum InitPayload {
    Init(Init),
    InitOk,
}

/// The mathematical shape of [`InitPayload`].
pub enum InitPayloadV {
    Init(InitV),
    InitOk,
}

impl View for InitPayload {
    type V = InitPayloadV;

    open spec fn view(&self) -> InitPayloadV {
        match self {
            InitPayload::Init(init) => InitPayloadV::Init(init@),
            InitPayload::InitOk => InitPayloadV::InitOk,
        }
    }
}

impl Payload for InitPayload {
    open spec fn of_body(fields: Seq<(Seq<char>, JsonV)>, tag: Seq<char>) -> Option<
        InitPayloadV,
    > {
        if tag == "init"@ {
            match spec_lookup(fields, "node_id"@) {
                Some(JsonV::Str(node_id)) => match spec_lookup(fields, "node_ids"@) {
                    Some(JsonV::Arr(items)) => match spec_strings(items) {
                        Some(node_ids) => Some(InitPayloadV::Init(InitV { node_id, node_ids })),
                        None => None,
                    },
                    _ => None,
                },
                _ => None,
            }
        } else if tag == "init_ok"@ {
            Some(InitPayloadV::InitOk)
        } else {
            None
        }
    }

    open spec fn tag_of(v: InitPayloadV) -> Seq<char> {
        match v {
            InitPayloadV::Init(_) => "init"@,
            InitPayloadV::InitOk => "init_ok"@,
        }
    }

    open spec fn fields_of(v: InitPayloadV) -> Seq<(Seq<char>, JsonV)> {
        match v {
            InitPayloadV::Init(init) => seq![
                ("node_id"@, JsonV::Str(init.node_id)),
                ("node_ids"@, JsonV::Arr(strings_items(init.node_ids))),
            ],
            InitPayloadV::InitOk => Seq::empty(),
        }
    }

    fn parse_payload(tag: &String, fields: &Vec<(String, Json)>) -> (r: Option<Self>) {
        if str_is(tag, "init") {
            let node_id = match lookup(fields, "node_id") {
                Some(Json::Str(s)) => s.clone(),
                _ => { return None },
            };
            let items = match lookup(fields, "node_ids") {
                Some(Json::Arr(items)) => items,
                _ => { return None },
            };
            match parse_strings(items) {
                Some(node_ids) => Some(InitPayload::Init(Init { node_id, node_ids })),
                None => None,
            }
        } else if str_is(tag, "init_ok") {
            Some(InitPayload::InitOk)
        } else {
            None
        }
    }

    fn build_payload(self) -> (r: (String, Vec<(String, Json)>)) {
        match self {
            InitPayload::Init(init) => {
                let ghost iv = init@;
                let mut fields: Vec<(String, Json)> = Vec::new();
                fields.push(("node_id".to_owned(), Json::Str(init.node_id)));
                fields.push(("node_ids".to_owned(), build_strings(&init.node_ids)));
                proof {
                    lemma_jv_fields_elems(fields@);
                    assert(jv_fields(fields@) =~= Self::fields_of(InitPayloadV::Init(iv)));
                }
                ("init".to_owned(), fields)
            },
            InitPayload::InitOk => {
                let fields: Vec<(String, Json)> = Vec::new();
                proof {
                    assert(jv_fields(fields@) =~= Seq::<(Seq<char>, JsonV)>::empty());
                }
                ("init_ok".to_owned(), fields)
            },
        }
    }
}

/// The lifecycle contract: a handler is constructed once from the handshake
/// data and then processes one message at a time, answering with at most one
/// reply. Its view transitions are given by `spec_from_init` and `spec_step`.
pub trait Node<P: Payload>: View + Sized {
    /// The reply counter of a state.
    spec fn v_counter(v: Self::V) -> u64;

    /// The state constructed from handshake data, or the rejection.
    spec fn spec_from_init(init: InitV) -> Result<Self::V, Error>;

    /// The state and optional reply one processed message leads to.
    spec fn spec_step(pre: Self::V, input: MessageV<P::V>) -> (Self::V, Option<MessageV<P::V>>);

    /// Constructs the handler from the handshake data.
    fn from_init(init: Init) -> (r: Result<Self, Error>)
        ensures
            match r {
                Ok(n) => Self::spec_from_init(init@) == Ok::<Self::V, Error>(n@),
                Err(e) => Self::spec_from_init(init@) == Err::<Self::V, Error>(e),
            },
    ;

    /// Processes one message.
    fn step(&mut self, input: Message<P>) -> (r: Option<Message<P>>)
        requires
            Self::v_counter(old(self)@) < u64::MAX,
        ensures
            final(self)@ == Self::spec_step(old(self)@, input@).0,
            crate::msg::opt_msg_v(r) == Self::spec_step(old(self)@, input@).1,
    ;

    /// The reply counter, for callers that must test it before a step.
    fn counter(&self) -> (c: u64)
        ensures
            c == Self::v_counter(self@),
    ;
}

} // verus!
