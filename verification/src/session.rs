//! The session lifecycle: one state machine per connection.
//!
//! The host layer owns the I/O: it receives transport messages, reads the
//! pseudo-terminal, and notices failures. Each of those observations becomes
//! an [`Event`] fed to [`SessionState::step`], which decides what happens and
//! answers with the [`Effect`]s the host must perform, in order. All routing
//! of frames and the whole teardown discipline live here, so they are proved
//! once and hold for every connection.

use vstd::prelude::*;
use crate::pty_size::PtySize;
use crate::resize::spec_parse_pty_size;
use crate::resize::parse_pty_size;

verus! {

/// The tag byte of a data frame.
pub const DATA_TAG: u8 = 0;

/// The tag byte of a resize frame.
pub const RESIZE_TAG: u8 = 1;

/// One observation the host hands to the session.
#[derive(Debug)]
pub enum Event {
    /// A binary transport message arrived, tag byte included.
    Frame(Vec<u8>),
    /// The client sent a close message.
    ClientClose,
    /// A transport message of some other kind arrived.
    ClientOther,
    /// Receiving from the transport failed.
    TransportError,
    /// The pseudo-terminal yielded a chunk of shell output.
    PtyChunk(Vec<u8>),
    /// The pseudo-terminal read side reached end of file: the child is gone.
    PtyEof,
    /// Reading from the pseudo-terminal failed.
    PtyReadError,
    /// Performing an earlier effect (a write, a resize, a send) failed.
    IoFailure,
}

/// One action the session asks the host to perform.
#[derive(Debug, PartialEq, Eq)]
pub enum Effect {
    /// Write these bytes to the pseudo-terminal, verbatim and in order.
    WritePty(Vec<u8>),
    /// Apply this size to the pseudo-terminal.
    ResizePty(PtySize),
    /// Send this framed message to the client.
    SendClient(Vec<u8>),
    /// Terminate the child process.
    KillChild,
    /// Close the outbound half of the transport.
    CloseTransport,
}

/// The mathematical shape of an [`Event`].
pub enum EventModel {
    Frame(Seq<u8>),
    ClientClose,
    ClientOther,
    TransportError,
    PtyChunk(Seq<u8>),
    PtyEof,
    PtyReadError,
    IoFailure,
}

/// The mathematical shape of an [`Effect`].
pub enum EffectModel {
    WritePty(Seq<u8>),
    ResizePty(PtySize),
    SendClient(Seq<u8>),
    KillChild,
    CloseTransport,
}

impl View for Event {
    type V = EventModel;

    open spec fn view(&self) -> EventModel {
        match self {
            Event::Frame(m) => EventModel::Frame(m@),
            Event::ClientClose => EventModel::ClientClose,
            Event::ClientOther => EventModel::ClientOther,
            Event::TransportError => EventModel::TransportError,
            Event::PtyChunk(c) => EventModel::PtyChunk(c@),
            Event::PtyEof => EventModel::PtyEof,
            Event::PtyReadError => EventModel::PtyReadError,
            Event::IoFailure => EventModel::IoFailure,
        }
    }
}

impl View for Effect {
    type V = EffectModel;

    open spec fn view(&self) -> EffectModel {
        match self {
            Effect::WritePty(b) => EffectModel::WritePty(b@),
            Effect::ResizePty(z) => EffectModel::ResizePty(*z),
            Effect::SendClient(b) => EffectModel::SendClient(b@),
            Effect::KillChild => EffectModel::KillChild,
            Effect::CloseTransport => EffectModel::CloseTransport,
        }
    }
}

/// The state of one session: the last size applied to its terminal, and
/// whether teardown has begun.
#[derive(Clone, Copy, PartialEq, Eq, Structural, Debug)]
pub struct SessionState {
    pub size: PtySize,
    pub torn_down: bool,
}

/// The state a session starts in: the launcher's fixed initial size, not
/// torn down.
pub open spec fn initial_state() -> SessionState {
    SessionState {
        size: PtySize { rows: 24, cols: 80, pixel_width: 0, pixel_height: 0 },
        torn_down: false,
    }
}

/// The state after teardown has begun: the size stands, the session is done.
pub open spec fn torn(s: SessionState) -> SessionState {
    SessionState { size: s.size, torn_down: true }
}

/// What teardown asks of the host, in order: terminate the child, then close
/// the outbound transport half.
pub open spec fn teardown_effects() -> Seq<EffectModel> {
    seq![EffectModel::KillChild, EffectModel::CloseTransport]
}

/// How a binary frame is routed, given the session is live.
///
/// An empty message and an unknown tag are anomalies: the session goes on.
/// A data frame with a payload has that payload written to the terminal; one
/// without has nothing to write. A resize frame whose payload follows the
/// wire grammar resizes the terminal; one whose payload does not is a
/// protocol violation that tears this session down.
pub open spec fn spec_route_frame(s: SessionState, m: Seq<u8>) -> (SessionState, Seq<EffectModel>) {
    if m.len() == 0 {
        (s, Seq::empty())
    } else if m[0] == DATA_TAG {
        if m.len() > 1 {
            (s, seq![EffectModel::WritePty(m.skip(1))])
        } else {
            (s, Seq::empty())
        }
    } else if m[0] == RESIZE_TAG {
        match spec_parse_pty_size(m.skip(1)) {
            Some(z) => (
                SessionState { size: z, torn_down: false },
                seq![EffectModel::ResizePty(z)],
            ),
            None => (torn(s), teardown_effects()),
        }
    } else {
        (s, Seq::empty())
    }
}

/// One step of the session: the next state and the effects the host must
/// perform, in order. A torn-down session is inert: no event has any effect.
/// Shell output is framed under the data tag and sent as it came. The close
/// message, a transport error, end of file or a read error on the terminal,
/// and a failed effect all begin teardown.
pub open spec fn spec_step(s: SessionState, e: EventModel) -> (SessionState, Seq<EffectModel>) {
    if s.torn_down {
        (s, Seq::empty())
    } else {
        match e {
            EventModel::Frame(m) => spec_route_frame(s, m),
            EventModel::ClientClose => (torn(s), teardown_effects()),
            EventModel::ClientOther => (s, Seq::empty()),
            EventModel::TransportError => (torn(s), teardown_effects()),
            EventModel::PtyChunk(c) => (s, seq![EffectModel::SendClient(seq![DATA_TAG] + c)]),
            EventModel::PtyEof => (torn(s), teardown_effects()),
            EventModel::PtyReadError => (torn(s), teardown_effects()),
            EventModel::IoFailure => (torn(s), teardown_effects()),
        }
    }
}

/// The models of a list of effects, in order.
pub open spec fn effects_model(effects: Seq<Effect>) -> Seq<EffectModel> {
    effects.map_values(|e: Effect| e@)
}

/// Copies a message's payload: everything after the tag byte.
fn tail(m: &Vec<u8>) -> (r: Vec<u8>)
    requires
        m@.len() >= 1,
    ensures
        r@ == m@.skip(1),
{
    let mut r: Vec<u8> = Vec::new();
    let mut j: usize = 1;
    while j < m.len()
        invariant
            1 <= j <= m@.len(),
            r@ =~= m@.subrange(1, j as int),
        decreases m@.len() - j,
    {
        r.push(m[j]);
        proof {
            assert(r@ =~= m@.subrange(1, j + 1));
        }
        j += 1;
    }
    proof {
        assert(r@ =~= m@.skip(1));
    }
    r
}

/// Frames a chunk of shell output as a data message: the data tag, then the
/// chunk's bytes unchanged and in order.
pub fn frame_output(chunk: &Vec<u8>) -> (r: Vec<u8>)
    ensures
        r@ == seq![DATA_TAG] + chunk@,
{
    let mut r: Vec<u8> = Vec::new();
    r.push(DATA_TAG);
    let mut j: usize = 0;
    while j < chunk.len()
        invariant
            j <= chunk@.len(),
            r@ =~= seq![DATA_TAG] + chunk@.subrange(0, j as int),
        decreases chunk@.len() - j,
    {
        r.push(chunk[j]);
        proof {
            assert(r@ =~= seq![DATA_TAG] + chunk@.subrange(0, j + 1));
        }
        j += 1;
    }
    proof {
        assert(chunk@.subrange(0, chunk@.len() as int) =~= chunk@);
    }
    r
}

impl SessionState {
    /// A fresh session, sized as the launcher opened the terminal.
    pub fn new() -> (r: SessionState)
        ensures
            r == initial_state(),
    {
        SessionState {
            size: PtySize { rows: 24, cols: 80, pixel_width: 0, pixel_height: 0 },
            torn_down: false,
        }
    }

    fn begin_teardown(&mut self) -> (effects: Vec<Effect>)
        ensures
            *final(self) == torn(*old(self)),
            effects_model(effects@) == teardown_effects(),
    {
        self.torn_down = true;
        let mut effects: Vec<Effect> = Vec::new();
        effects.push(Effect::KillChild);
        effects.push(Effect::CloseTransport);
        proof {
            assert(effects_model(effects@) =~= teardown_effects());
        }
        effects
    }

    /// Feeds one observation to the session and yields the actions the host
    /// must perform, in order.
    pub fn step(&mut self, event: Event) -> (effects: Vec<Effect>)
        ensures
            *final(self) == spec_step(*old(self), event@).0,
            effects_model(effects@) == spec_step(*old(self), event@).1,
    {
        if self.torn_down {
            let effects: Vec<Effect> = Vec::new();
            proof {
                assert(effects_model(effects@) =~= Seq::<EffectModel>::empty());
            }
            return effects;
        }
        match event {
            Event::Frame(m) => {
                if m.len() == 0 {
                    let effects: Vec<Effect> = Vec::new();
                    proof {
                        assert(effects_model(effects@) =~= Seq::<EffectModel>::empty());
                    }
                    effects
                } else if m[0] == DATA_TAG {
                    if m.len() > 1 {
                        let payload = tail(&m);
                        let mut effects: Vec<Effect> = Vec::new();
                        effects.push(Effect::WritePty(payload));
                        proof {
                            assert(effects_model(effects@) =~= seq![
                                EffectModel::WritePty(m@.skip(1)),
                            ]);
                        }
                        effects
                    } else {
                        let effects: Vec<Effect> = Vec::new();
                        proof {
                            assert(effects_model(effects@) =~= Seq::<EffectModel>::empty());
                        }
                        effects
                    }
                } else if m[0] == RESIZE_TAG {
                    let payload = tail(&m);
                    match parse_pty_size(payload.as_slice()) {
                        Some(z) => {
                            self.size = z;
                            let mut effects: Vec<Effect> = Vec::new();
                            effects.push(Effect::ResizePty(z));
                            proof {
                                assert(effects_model(effects@) =~= seq![
                                    EffectModel::ResizePty(z),
                                ]);
                            }
                            effects
                        },
                        None => self.begin_teardown(),
                    }
                } else {
                    let effects: Vec<Effect> = Vec::new();
                    proof {
                        assert(effects_model(effects@) =~= Seq::<EffectModel>::empty());
                    }
                    effects
                }
            },
            Event::ClientClose => self.begin_teardown(),
            Event::ClientOther => {
                let effects: Vec<Effect> = Vec::new();
                proof {
                    assert(effects_model(effects@) =~= Seq::<EffectModel>::empty());
                }
                effects
            },
            Event::TransportError => self.begin_teardown(),
            Event::PtyChunk(c) => {
                let framed = frame_output(&c);
                let mut effects: Vec<Effect> = Vec::new();
                effects.push(Effect::SendClient(framed));
                proof {
                    assert(effects_model(effects@) =~= seq![
                        EffectModel::SendClient(seq![DATA_TAG] + c@),
                    ]);
                }
                effects
            },
            Event::PtyEof => self.begin_teardown(),
            Event::PtyReadError => self.begin_teardown(),
            Event::IoFailure => self.begin_teardown(),
        }
    }
}

} // verus!
