//! The message envelope, its JSON codec, and reply construction.
use crate::json::{
    json_text, jv, jv_fields, lemma_jv_fields_concat, lemma_jv_fields_elems, lookup, parse_json,
    parsed_of, spec_lookup, text_of, Json, JsonV,
};
use vstd::prelude::*;

verus! {

/// Why a line or a handshake was rejected. Any of these ends the process.
#[derive(Clone, Copy, Debug, PartialEq, Eq, Structural)]
pub enum Error {
    /// The line is not well-formed JSON, or not a message of the active
    /// payload set.
    Decode,
    /// The first message is not `init`, or the handler rejected its data.
    Handshake,
}

/// The part of an envelope carrying correlation ids and the payload.
#[derive(Debug)]
pub struct Body<P> {
    pub msg_id: Option<u64>,
    pub in_reply_to: Option<u64>,
    pub payload: P,
}

/// An addressed message: one JSON object on the wire.
#[derive(Debug)]
pub struct Message<P> {
    pub src: String,
    pub dest: String,
    pub body: Body<P>,
}

/// The mathematical shape of a [`Body`].
pub struct BodyV<V> {
    pub msg_id: Option<u64>,
    pub in_reply_to: Option<u64>,
    pub payload: V,
}

/// The mathematical shape of a [`Message`].
pub struct MessageV<V> {
    pub src: Seq<char>,
    pub dest: Seq<char>,
    pub body: BodyV<V>,
}

impl<P: View> View for Body<P> {
    type V = BodyV<P::V>;

    open spec fn view(&self) -> BodyV<P::V> {
        BodyV { msg_id: self.msg_id, in_reply_to: self.in_reply_to, payload: self.payload@ }
    }
}

impl<P: View> View for Message<P> {
    type V = MessageV<P::V>;

    open spec fn view(&self) -> MessageV<P::V> {
        MessageV { src: self.src@, dest: self.dest@, body: self.body@ }
    }
}

/// The view of an optional reply.
pub open spec fn opt_msg_v<P: View>(o: Option<Message<P>>) -> Option<MessageV<P::V>> {
    match o {
        Some(m) => Some(m@),
        None => None,
    }
}

/// The view of a decoded message or its error.
pub open spec fn res_v<P: View>(r: Result<Message<P>, Error>) -> Result<MessageV<P::V>, Error> {
    match r {
        Ok(m) => Ok(m@),
        Err(e) => Err(e),
    }
}

/// One payload variant set. Each handler has its own; the codec recognizes
/// exactly the set's tags, and an unknown tag is a decode error.
pub trait Payload: View + Sized {
    /// The payload, if any, that a body with this tag and these fields carries.
    spec fn of_body(fields: Seq<(Seq<char>, JsonV)>, tag: Seq<char>) -> Option<Self::V>;

    /// The wire tag of a payload.
    spec fn tag_of(v: Self::V) -> Seq<char>;

    /// The payload's own wire fields, in order.
    spec fn fields_of(v: Self::V) -> Seq<(Seq<char>, JsonV)>;

    /// Decodes the payload from a body's tag and field list.
    fn parse_payload(tag: &String, fields: &Vec<(String, Json)>) -> (r: Option<Self>)
        ensures
            match r {
                Some(p) => Self::of_body(jv_fields(fields@), tag@) == Some(p@),
                None => Self::of_body(jv_fields(fields@), tag@) is None,
            },
    ;

    /// Encodes the payload as its tag and field list.
    fn build_payload(self) -> (r: (String, Vec<(String, Json)>))
        ensures
            r.0@ == Self::tag_of(self@),
            jv_fields(r.1@) == Self::fields_of(self@),
    ;
}

/// An optional integer field: absent and `null` both mean none, and any
/// value of another shape is a decode error.
pub open spec fn spec_opt_u64(fields: Seq<(Seq<char>, JsonV)>, key: Seq<char>) -> Option<
    Option<u64>,
> {
    match spec_lookup(fields, key) {
        None => Some(None),
        Some(JsonV::Null) => Some(None),
        Some(JsonV::UInt(n)) => Some(Some(n)),
        Some(_) => None,
    }
}

/// The message a JSON value decodes to under payload set `P`, or the error.
pub open spec fn spec_decode_msg<P: Payload>(j: JsonV) -> Result<MessageV<P::V>, Error> {
    match j {
        JsonV::Obj(fields) => match spec_lookup(fields, "src"@) {
            Some(JsonV::Str(src)) => match spec_lookup(fields, "dest"@) {
                Some(JsonV::Str(dest)) => match spec_lookup(fields, "body"@) {
                    Some(JsonV::Obj(bf)) => match spec_lookup(bf, "type"@) {
                        Some(JsonV::Str(tag)) => match spec_opt_u64(bf, "msg_id"@) {
                            Some(msg_id) => match spec_opt_u64(bf, "in_reply_to"@) {
                                Some(in_reply_to) => match P::of_body(bf, tag) {
                                    Some(pv) => Ok(
                                        MessageV {
                                            src,
                                            dest,
                                            body: BodyV { msg_id, in_reply_to, payload: pv },
                                        },
                                    ),
                                    None => Err(Error::Decode),
                                },
                                None => Err(Error::Decode),
                            },
                            None => Err(Error::Decode),
                        },
                        _ => Err(Error::Decode),
                    },
                    _ => Err(Error::Decode),
                },
                _ => Err(Error::Decode),
            },
            _ => Err(Error::Decode),
        },
        _ => Err(Error::Decode),
    }
}

/// The message a line of text decodes to under payload set `P`, or the error.
pub open spec fn spec_decode_line<P: Payload>(s: Seq<char>) -> Result<MessageV<P::V>, Error> {
    match parsed_of(s) {
        None => Err(Error::Decode),
        Some(j) => spec_decode_msg::<P>(j),
    }
}

/// Reads an optional integer field of a body.
fn opt_u64_field(fields: &Vec<(String, Json)>, key: &str) -> (r: Option<Option<u64>>)
    ensures
        r == spec_opt_u64(jv_fields(fields@), key@),
{
    match lookup(fields, key) {
        None => Some(None),
        Some(Json::Null) => Some(None),
        Some(Json::UInt(n)) => Some(Some(*n)),
        Some(_) => None,
    }
}

/// Decodes one JSON value as a message of payload set `P`.
pub fn decode_msg<P: Payload>(j: &Json) -> (r: Result<Message<P>, Error>)
    ensures
        res_v(r) == spec_decode_msg::<P>(jv(*j)),
{
    let fields = match j {
        Json::Obj(fields) => fields,
        _ => { return Err(Error::Decode) },
    };
    let src = match lookup(fields, "src") {
        Some(Json::Str(s)) => s.clone(),
        _ => { return Err(Error::Decode) },
    };
    let dest = match lookup(fields, "dest") {
        Some(Json::Str(s)) => s.clone(),
        _ => { return Err(Error::Decode) },
    };
    let bf = match lookup(fields, "body") {
        Some(Json::Obj(bf)) => bf,
        _ => { return Err(Error::Decode) },
    };
    let tag = match lookup(bf, "type") {
        Some(Json::Str(s)) => s.clone(),
        _ => { return Err(Error::Decode) },
    };
    let msg_id = match opt_u64_field(bf, "msg_id") {
        Some(o) => o,
        None => { return Err(Error::Decode) },
    };
    let in_reply_to = match opt_u64_field(bf, "in_reply_to") {
        Some(o) => o,
        None => { return Err(Error::Decode) },
    };
    match P::parse_payload(&tag, bf) {
        Some(payload) => Ok(Message { src, dest, body: Body { msg_id, in_reply_to, payload } }),
        None => Err(Error::Decode),
    }
}

/// Decodes one line of text as a message of payload set `P`. A malformed
/// line, and a well-formed one that is no message of the set, is an error.
pub fn decode_line<P: Payload>(s: &str) -> (r: Result<Message<P>, Error>)
    ensures
        res_v(r) == spec_decode_line::<P>(s@),
{
    match parse_json(s) {
        Some(j) => decode_msg::<P>(&j),
        None => Err(Error::Decode),
    }
}

/// The field list of a body on the wire: the tag first, then the correlation
/// ids that are present, then the payload's own fields.
pub open spec fn spec_body_fields<P: Payload>(b: BodyV<P::V>) -> Seq<(Seq<char>, JsonV)> {
    seq![("type"@, JsonV::Str(P::tag_of(b.payload)))] + (match b.msg_id {
        Some(n) => seq![("msg_id"@, JsonV::UInt(n))],
        None => Seq::empty(),
    }) + (match b.in_reply_to {
        Some(n) => seq![("in_reply_to"@, JsonV::UInt(n))],
        None => Seq::empty(),
    }) + P::fields_of(b.payload)
}

/// The JSON value a message encodes to.
pub open spec fn spec_encode_msg<P: Payload>(m: MessageV<P::V>) -> JsonV {
    JsonV::Obj(
        seq![
            ("src"@, JsonV::Str(m.src)),
            ("dest"@, JsonV::Str(m.dest)),
            ("body"@, JsonV::Obj(spec_body_fields::<P>(m.body))),
        ],
    )
}

/// The line a message is written as: its JSON text and a newline.
pub open spec fn spec_encode_line<P: Payload>(m: MessageV<P::V>) -> Seq<char> {
    text_of(spec_encode_msg::<P>(m)) + "\n"@
}

/// Encodes a message as a JSON value.
pub fn encode_msg<P: Payload>(m: Message<P>) -> (j: Json)
    ensures
        jv(j) == spec_encode_msg::<P>(m@),
{
    let ghost mv = m@;
    let Message { src, dest, body } = m;
    let Body { msg_id, in_reply_to, payload } = body;
    let (tag, mut pf) = payload.build_payload();
    let mut bf: Vec<(String, Json)> = Vec::new();
    bf.push(("type".to_owned(), Json::Str(tag)));
    if let Some(n) = msg_id {
        bf.push(("msg_id".to_owned(), Json::UInt(n)));
    }
    if let Some(n) = in_reply_to {
        bf.push(("in_reply_to".to_owned(), Json::UInt(n)));
    }
    proof {
        lemma_jv_fields_elems(bf@);
    }
    let ghost bf_before = bf@;
    let ghost pf_before = pf@;
    bf.append(&mut pf);
    proof {
        lemma_jv_fields_concat(bf_before, pf_before);
        assert(jv_fields(bf@) =~= spec_body_fields::<P>(mv.body));
    }
    let mut fields: Vec<(String, Json)> = Vec::new();
    fields.push(("src".to_owned(), Json::Str(src)));
    fields.push(("dest".to_owned(), Json::Str(dest)));
    fields.push(("body".to_owned(), Json::Obj(bf)));
    proof {
        lemma_jv_fields_elems(fields@);
        assert(jv_fields(fields@) =~= spec_encode_msg::<P>(mv)->Obj_0);
    }
    Json::Obj(fields)
}

/// Encodes a message as the line that is written for it.
pub fn encode_line<P: Payload>(m: Message<P>) -> (s: String)
    ensures
        s@ == spec_encode_line::<P>(m@),
{
    let j = encode_msg(m);
    let mut s = json_text(&j);
    s.append("\n");
    s
}

impl<P: View> Message<P> {
    /// Builds the reply envelope: source and destination swapped, the
    /// incoming `msg_id` (or its absence) mirrored as `in_reply_to`, and a
    /// fresh `msg_id` drawn by advancing the counter. The payload is carried
    /// over unchanged, for the handler to replace.
    pub fn into_reply(self, counter: &mut u64) -> (r: Message<P>)
        requires
            *old(counter) < u64::MAX,
        ensures
            *final(counter) == *old(counter) + 1,
            r@ == (MessageV {
                src: self@.dest,
                dest: self@.src,
                body: BodyV {
                    msg_id: Some((*old(counter) + 1) as u64),
                    in_reply_to: self@.body.msg_id,
                    payload: self@.body.payload,
                },
            }),
    {
        let Message { src, dest, body } = self;
        let Body { msg_id, in_reply_to: _, payload } = body;
        *counter = *counter + 1;
        Message {
            src: dest,
            dest: src,
            body: Body { msg_id: Some(*counter), in_reply_to: msg_id, payload },
        }
    }

    /// Builds a reply envelope that carries no `msg_id` of its own, as the
    /// handshake reply does: no counter is advanced for it.
    pub fn into_reply_unnumbered(self) -> (r: Message<P>)
        ensures
            r@ == (MessageV {
                src: self@.dest,
                dest: self@.src,
                body: BodyV {
                    msg_id: None,
                    in_reply_to: self@.body.msg_id,
                    payload: self@.body.payload,
                },
            }),
    {
        let Message { src, dest, body } = self;
        let Body { msg_id, in_reply_to: _, payload } = body;
        Message { src: dest, dest: src, body: Body { msg_id: None, in_reply_to: msg_id, payload } }
    }
}

} // verus!
