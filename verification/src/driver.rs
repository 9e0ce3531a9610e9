//! The main-loop driver as a state machine: awaiting the handshake, running
//! a handler, or terminated. The surrounding process feeds it one event at a
//! time — a line of input or the end of input — and writes the line it hands
//! back, stopping on the first error.
use crate::msg::{
    decode_line, encode_line, spec_decode_line, spec_encode_line, Body, BodyV, Error, Message,
    MessageV, Payload,
};
use crate::node::{InitPayload, InitPayloadV, Node};
use vstd::prelude::*;

verus! {

/// One event of the outside loop.
#[derive(Debug)]
pub enum Event {
    Line(String),
    Eof,
}

/// The mathematical shape of an [`Event`].
pub enum EventV {
    Line(Seq<char>),
    Eof,
}

impl View for Event {
    type V = EventV;

    open spec fn view(&self) -> EventV {
        match self {
            Event::Line(s) => EventV::Line(s@),
            Event::Eof => EventV::Eof,
        }
    }
}

/// The driver's state.
#[derive(Debug)]
pub enum Driver<N> {
    AwaitingInit,
    Running(N),
    Done,
}

/// The mathematical shape of a [`Driver`].
pub enum DriverV<NV> {
    AwaitingInit,
    Running(NV),
    Done,
}

impl<N: View> View for Driver<N> {
    type V = DriverV<N::V>;

    open spec fn view(&self) -> DriverV<N::V> {
        match self {
            Driver::AwaitingInit => DriverV::AwaitingInit,
            Driver::Running(n) => DriverV::Running(n@),
            Driver::Done => DriverV::Done,
        }
    }
}

/// The handshake reply to an `init` message: addresses swapped, the incoming
/// `msg_id` (or its absence) mirrored, no `msg_id` of its own, `init_ok`.
pub open spec fn init_reply_v(m: MessageV<InitPayloadV>) -> MessageV<InitPayloadV> {
    MessageV {
        src: m.dest,
        dest: m.src,
        body: BodyV { msg_id: None, in_reply_to: m.body.msg_id, payload: InitPayloadV::InitOk },
    }
}

/// The state and outcome one event leads to. An unreadable line, a first
/// message that is not `init`, and a rejected handshake each end the run
/// with the error; the end of input ends it cleanly; and a terminated
/// driver takes no further event into account.
pub open spec fn spec_drive<P: Payload, N: Node<P>>(pre: DriverV<N::V>, ev: EventV) -> (
    DriverV<N::V>,
    Result<Option<Seq<char>>, Error>,
) {
    match ev {
        EventV::Eof => (DriverV::Done, Ok(None)),
        EventV::Line(s) => match pre {
            DriverV::Done => (DriverV::Done, Ok(None)),
            DriverV::AwaitingInit => match spec_decode_line::<InitPayload>(s) {
                Err(e) => (DriverV::Done, Err(e)),
                Ok(mv) => match mv.body.payload {
                    InitPayloadV::Init(initv) => match N::spec_from_init(initv) {
                        Ok(nv) => (
                            DriverV::Running(nv),
                            Ok(Some(spec_encode_line::<InitPayload>(init_reply_v(mv)))),
                        ),
                        Err(_) => (DriverV::Done, Err(Error::Handshake)),
                    },
                    InitPayloadV::InitOk => (DriverV::Done, Err(Error::Handshake)),
                },
            },
            DriverV::Running(nv) => match spec_decode_line::<P>(s) {
                Err(e) => (DriverV::Done, Err(e)),
                Ok(mv) => {
                    let (nv2, out) = N::spec_step(nv, mv);
                    (
                        DriverV::Running(nv2),
                        Ok(
                            match out {
                                Some(m) => Some(spec_encode_line::<P>(m)),
                                None => None,
                            },
                        ),
                    )
                },
            },
        },
    }
}

/// Whether the driver can take a further event: a running handler must be
/// able to draw a fresh `msg_id`.
pub open spec fn driver_ready<P: Payload, N: Node<P>>(d: DriverV<N::V>) -> bool {
    d matches DriverV::Running(nv) ==> N::v_counter(nv) < u64::MAX
}

/// The view of a drive outcome.
pub open spec fn out_v(r: Result<Option<String>, Error>) -> Result<Option<Seq<char>>, Error> {
    match r {
        Ok(Some(s)) => Ok(Some(s@)),
        Ok(None) => Ok(None),
        Err(e) => Err(e),
    }
}

/// Whether the driver can take a further event; to be tested before each
/// call of [`drive`].
pub fn ready<P: Payload, N: Node<P>>(d: &Driver<N>) -> (b: bool)
    ensures
        b == driver_ready::<P, N>(d@),
{
    match d {
        Driver::Running(n) => n.counter() < u64::MAX,
        _ => true,
    }
}

/// Feeds the driver one event; hands back the next state, and the line to
/// write or the error to stop with.
pub fn drive<P: Payload, N: Node<P>>(d: Driver<N>, ev: Event) -> (r: (
    Driver<N>,
    Result<Option<String>, Error>,
))
    requires
        driver_ready::<P, N>(d@),
    ensures
        r.0@ == spec_drive::<P, N>(d@, ev@).0,
        out_v(r.1) == spec_drive::<P, N>(d@, ev@).1,
{
    match ev {
        Event::Eof => (Driver::Done, Ok(None)),
        Event::Line(line) => match d {
            Driver::Done => (Driver::Done, Ok(None)),
            Driver::AwaitingInit => match decode_line::<InitPayload>(line.as_str()) {
                Err(e) => (Driver::Done, Err(e)),
                Ok(m) => {
                    let reply = m.into_reply_unnumbered();
                    let Message { src, dest, body } = reply;
                    let Body { msg_id, in_reply_to, payload } = body;
                    match payload {
                        InitPayload::Init(init) => match N::from_init(init) {
                            Ok(n) => {
                                let out = Message {
                                    src,
                                    dest,
                                    body: Body {
                                        msg_id,
                                        in_reply_to,
                                        payload: InitPayload::InitOk,
                                    },
                                };
                                let s = encode_line(out);
                                (Driver::Running(n), Ok(Some(s)))
                            },
                            Err(_) => (Driver::Done, Err(Error::Handshake)),
                        },
                        InitPayload::InitOk => (Driver::Done, Err(Error::Handshake)),
                    }
                },
            },
            Driver::Running(mut n) => match decode_line::<P>(line.as_str()) {
                Err(e) => (Driver::Done, Err(e)),
                Ok(m) => {
                    let out = n.step(m);
                    match out {
                        Some(reply) => (Driver::Running(n), Ok(Some(encode_line(reply)))),
                        None => (Driver::Running(n), Ok(None)),
                    }
                },
            },
        },
    }
}

/// Law: a line that does not parse as JSON ends the run at once, with a
/// decode error and no output, from either live state.
pub proof fn lemma_malformed_line_terminates<P: Payload, N: Node<P>>(
    pre: DriverV<N::V>,
    s: Seq<char>,
)
    requires
        crate::json::parsed_of(s) is None,
        !(pre is Done),
    ensures
        spec_drive::<P, N>(pre, EventV::Line(s)) == (
            DriverV::<N::V>::Done,
            Err::<Option<Seq<char>>, Error>(Error::Decode),
        ),
{
}

/// Law: a terminated driver processes nothing further: whatever event
/// follows, it stays terminated, writes nothing, and touches no handler
/// state.
pub proof fn lemma_done_is_terminal<P: Payload, N: Node<P>>(ev: EventV)
    ensures
        spec_drive::<P, N>(DriverV::Done, ev) == (
            DriverV::<N::V>::Done,
            Ok::<Option<Seq<char>>, Error>(None),
        ),
{
}

/// Law: the handshake reply answers the `init` message: its `in_reply_to`
/// equals the incoming `msg_id`, present or absent alike, and it carries no
/// `msg_id` of its own.
pub proof fn lemma_init_reply_correlation(m: MessageV<InitPayloadV>)
    ensures
        init_reply_v(m).body.in_reply_to == m.body.msg_id,
        init_reply_v(m).body.msg_id is None,
        init_reply_v(m).src == m.dest,
        init_reply_v(m).dest == m.src,
{
}

} // verus!
