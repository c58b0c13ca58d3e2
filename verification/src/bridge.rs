//! The bridge session: the startup handshake state machine, the monotone
//! request-id counter, and the two halves of one synchronous exchange —
//! preparing the line to write, and classifying the line that was read.
//!
//! The bridge itself performs no I/O: the caller owns the child process,
//! reads and writes its streams, and hands each read back as a `ReadEvent`.
//! Everything the protocol decides is decided here, under contract.

use vstd::prelude::*;
use vstd::string::StringExecFns;
use crate::codec::{encode_doc, parse_line, parse_of, text_of, ParsedLine, ParseOutcome};
use crate::errors::{BridgeError, ErrorModel};
use crate::wire::{
    doc_model, lemma_doc_model_push, wf_doc, wf_obj, Doc, Node, NodeModel, Payload, Scalar,
    ScalarModel,
};

verus! {

/// Where the session stands: a freshly spawned child must send the ready
/// handshake before any command may be sent; a failed handshake is terminal.
#[derive(Debug, Clone, Copy, PartialEq, Eq, Structural)]
pub enum Phase {
    AwaitingReady,
    Ready,
    Failed,
}

/// What one blocking attempt to read a line from the child yielded: a full
/// line, end of stream, or a read failure with its description.
#[derive(Debug, Clone, PartialEq)]
pub enum ReadEvent {
    Line(String),
    Closed,
    Failed(String),
}

/// The per-session state of the bridge: the handshake phase and the last
/// request id issued (zero meaning none yet; zero is never issued).
#[derive(Debug, Clone, PartialEq)]
pub struct Bridge {
    pub phase: Phase,
    pub last_id: u32,
}

/// The id that follows `last`: the counter increments, and wraps to one —
/// never to zero.
pub open spec fn spec_next_id(last: u32) -> u32 {
    if last == u32::MAX {
        1u32
    } else {
        (last + 1) as u32
    }
}

/// A parsed line counts as the ready handshake exactly when it is an object
/// whose status field is the text "ready".
pub open spec fn is_ready_line(p: ParseOutcome) -> bool {
    match p {
        ParseOutcome::Doc(d) => d.contains_key("status"@) && d["status"@] == NodeModel::Prim(
            ScalarModel::Text("ready"@),
        ),
        _ => false,
    }
}

/// The envelope of one request: `{"cmd": ..., "id": ..., "payload": ...}`.
pub open spec fn envelope_model(
    id: u32,
    cmd: Seq<char>,
    payload: Map<Seq<char>, ScalarModel>,
) -> Map<Seq<char>, NodeModel> {
    Map::empty().insert("cmd"@, NodeModel::Prim(ScalarModel::Text(cmd))).insert(
        "id"@,
        NodeModel::Prim(ScalarModel::Int(id as int)),
    ).insert("payload"@, NodeModel::Obj(payload))
}

/// The envelope keeps every part of a request recoverable: under its three
/// distinct keys stand exactly the command name, the fresh id, and the
/// payload that were put in. Together with `prepare_request`'s promise that
/// a well-formed request line parses back to its envelope, this is the
/// round-trip law: encoding a request and decoding it again yields the same
/// command name and payload.
pub proof fn lemma_envelope_fields(id: u32, cmd: Seq<char>, payload: Map<Seq<char>, ScalarModel>)
    ensures
        envelope_model(id, cmd, payload)["cmd"@] == NodeModel::Prim(ScalarModel::Text(cmd)),
        envelope_model(id, cmd, payload)["id"@] == NodeModel::Prim(ScalarModel::Int(id as int)),
        envelope_model(id, cmd, payload)["payload"@] == NodeModel::Obj(payload),
        envelope_model(id, cmd, payload).dom() =~= set!["cmd"@, "id"@, "payload"@],
{
    reveal_strlit("cmd");
    reveal_strlit("id");
    reveal_strlit("payload");
    assert("cmd"@.len() == 3);
    assert("id"@.len() == 2);
    assert("payload"@.len() == 7);
    assert("cmd"@ != "id"@);
    assert("cmd"@ != "payload"@);
    assert("id"@ != "payload"@);
}

impl Bridge {
    /// A fresh session: no id issued yet, handshake still owed.
    pub fn new() -> (b: Bridge)
        ensures
            b.phase is AwaitingReady,
            b.last_id == 0,
    {
        Bridge { phase: Phase::AwaitingReady, last_id: 0 }
    }

    /// True exactly in the `Ready` phase, the only phase in which a request
    /// may be prepared.
    pub fn is_ready(&self) -> (r: bool)
        ensures
            r == (self.phase is Ready),
    {
        match self.phase {
            Phase::Ready => true,
            _ => false,
        }
    }

    /// Mints the next request id. Ids are never zero and strictly increase
    /// call after call, until incrementing would wrap, at which point the
    /// counter resets to one.
    pub fn next_id(&mut self) -> (id: u32)
        ensures
            id != 0,
            id == spec_next_id(old(self).last_id),
            old(self).last_id < u32::MAX ==> id == old(self).last_id + 1,
            final(self).last_id == id,
            final(self).phase == old(self).phase,
    {
        if self.last_id == u32::MAX {
            self.last_id = 1;
        } else {
            self.last_id = self.last_id + 1;
        }
        self.last_id
    }

    /// Consumes the first line read from the child. Only the exact ready
    /// handshake moves the session to `Ready`; a closed stream means the
    /// child exited prematurely, a line that is not the handshake fails it,
    /// and in every failing case the session is terminally `Failed`, so no
    /// command can ever be sent.
    pub fn handshake(&mut self, first: ReadEvent) -> (r: Result<(), BridgeError>)
        requires
            old(self).phase is AwaitingReady,
        ensures
            final(self).last_id == old(self).last_id,
            final(self).phase is Ready <==> r is Ok,
            r is Err ==> final(self).phase is Failed,
            match first {
                ReadEvent::Closed => r == Err::<(), BridgeError>(BridgeError::PrematureExit),
                ReadEvent::Failed(m) => r matches Err(e) && e@ == ErrorModel::IoError(m@),
                ReadEvent::Line(l) => {
                    if parse_of(l@) is Invalid {
                        r == Err::<(), BridgeError>(BridgeError::DecodeError)
                    } else if is_ready_line(parse_of(l@)) {
                        r == Ok::<(), BridgeError>(())
                    } else {
                        r == Err::<(), BridgeError>(BridgeError::UnexpectedHandshake)
                    }
                },
            },
    {
        match first {
            ReadEvent::Closed => {
                self.phase = Phase::Failed;
                Err(BridgeError::PrematureExit)
            },
            ReadEvent::Failed(m) => {
                self.phase = Phase::Failed;
                Err(BridgeError::IoError(m))
            },
            ReadEvent::Line(l) => match parse_line(l.as_str()) {
                ParsedLine::Invalid => {
                    self.phase = Phase::Failed;
                    Err(BridgeError::DecodeError)
                },
                ParsedLine::NonDoc => {
                    self.phase = Phase::Failed;
                    Err(BridgeError::UnexpectedHandshake)
                },
                ParsedLine::Doc(d) => {
                    let ready = match crate::wire::get_field(&d, "status") {
                        Some(n) => match n {
                            Node::Prim(Scalar::Text(s)) => crate::wire::str_eq(
                                s.as_str(),
                                "ready",
                            ),
                            _ => false,
                        },
                        None => false,
                    };
                    if ready {
                        self.phase = Phase::Ready;
                        Ok(())
                    } else {
                        self.phase = Phase::Failed;
                        Err(BridgeError::UnexpectedHandshake)
                    }
                },
            },
        }
    }

    /// Stamps a fresh id on a command and its payload and encodes the
    /// envelope as the one line to write. Decoding the line yields exactly
    /// the envelope again, whenever the payload holds only values that
    /// survive the wire.
    pub fn prepare_request(&mut self, cmd: &str, payload: Payload) -> (r: (u32, String))
        requires
            old(self).phase is Ready,
        ensures
            final(self).phase is Ready,
            final(self).last_id == r.0,
            r.0 != 0,
            r.0 == spec_next_id(old(self).last_id),
            old(self).last_id < u32::MAX ==> r.0 == old(self).last_id + 1,
            r.1@ == text_of(envelope_model(r.0, cmd@, payload@)),
            wf_obj(payload@) ==> parse_of(r.1@) == ParseOutcome::Doc(
                envelope_model(r.0, cmd@, payload@),
            ),
            forall|i: int| 0 <= i < r.1@.len() ==> r.1@[i] != '\n',
    {
        let id = self.next_id();
        let ghost payload_model = payload@;
        let mut fields: Vec<(String, Node)> = Vec::new();
        let f0 = (String::from_str("cmd"), Node::Prim(Scalar::Text(String::from_str(cmd))));
        let f1 = (String::from_str("id"), Node::Prim(Scalar::UInt(id as u64)));
        let f2 = (String::from_str("payload"), Node::Obj(payload.fields));
        proof {
            lemma_doc_model_push(fields@, f0.0, f0.1);
            lemma_doc_model_push(fields@.push(f0), f1.0, f1.1);
            lemma_doc_model_push(fields@.push(f0).push(f1), f2.0, f2.1);
            assert(doc_model(Seq::<(String, Node)>::empty()) =~= Map::empty());
        }
        fields.push(f0);
        fields.push(f1);
        fields.push(f2);
        let doc = Doc { fields };
        proof {
            assert(doc@ == envelope_model(id, cmd@, payload_model));
            if wf_obj(payload_model) {
                assert forall|k: Seq<char>| doc@.contains_key(k) implies crate::wire::wf_node(
                    #[trigger] doc@[k],
                ) by {
                    assert(k == "cmd"@ || k == "id"@ || k == "payload"@);
                }
                assert(wf_doc(doc@));
            }
        }
        let line = encode_doc(&doc);
        (id, line)
    }
}

/// Classifies the line read in answer to a request. A closed stream fails
/// the call with `StreamClosed` — the session never hangs on a child that
/// has gone away — a read failure is surfaced as `IoError`, a line that is
/// not JSON as `DecodeError`, and a JSON line that is not an object as
/// `MalformedReply`; an object is handed on for interpretation.
pub fn on_reply(ev: ReadEvent) -> (r: Result<Doc, BridgeError>)
    ensures
        match ev {
            ReadEvent::Closed => r == Err::<Doc, BridgeError>(BridgeError::StreamClosed),
            ReadEvent::Failed(m) => r matches Err(e) && e@ == ErrorModel::IoError(m@),
            ReadEvent::Line(l) => match parse_of(l@) {
                ParseOutcome::Invalid => r == Err::<Doc, BridgeError>(BridgeError::DecodeError),
                ParseOutcome::NonDoc => r == Err::<Doc, BridgeError>(BridgeError::MalformedReply),
                ParseOutcome::Doc(d) => r matches Ok(doc) && doc@ == d,
            },
        },
{
    match ev {
        ReadEvent::Closed => Err(BridgeError::StreamClosed),
        ReadEvent::Failed(m) => Err(BridgeError::IoError(m)),
        ReadEvent::Line(l) => match parse_line(l.as_str()) {
            ParsedLine::Invalid => Err(BridgeError::DecodeError),
            ParsedLine::NonDoc => Err(BridgeError::MalformedReply),
            ParsedLine::Doc(d) => Ok(d),
        },
    }
}

} // verus!
