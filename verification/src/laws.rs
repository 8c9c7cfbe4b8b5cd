//! What holds of a session over its whole life, proved once for every
//! sequence of observations.

use vstd::prelude::*;
use crate::pty_size::PtySize;
use crate::resize::spec_parse_pty_size;
use crate::session::DATA_TAG;
use crate::session::EffectModel;
use crate::session::EventModel;
use crate::session::RESIZE_TAG;
use crate::session::SessionState;
use crate::session::spec_step;
use crate::session::teardown_effects;
use crate::session::torn;

verus! {

/// A whole run of a session: the state after feeding the events one by one,
/// and every effect asked of the host, in order.
pub open spec fn run(s: SessionState, events: Seq<EventModel>) -> (SessionState, Seq<EffectModel>)
    decreases events.len(),
{
    if events.len() == 0 {
        (s, Seq::empty())
    } else {
        let stepped = spec_step(s, events[0]);
        let rest = run(stepped.0, events.skip(1));
        (rest.0, stepped.1 + rest.1)
    }
}

/// How many times a list of effects terminates the child.
pub open spec fn kill_count(eff: Seq<EffectModel>) -> nat
    decreases eff.len(),
{
    if eff.len() == 0 {
        0
    } else {
        (if eff[0] is KillChild {
            1nat
        } else {
            0nat
        }) + kill_count(eff.skip(1))
    }
}

/// An event that begins teardown of a live session: the client's close
/// message, a transport receive error, end of file or a read error on the
/// terminal, a failed effect, or a resize frame whose payload breaks the
/// wire grammar.
pub open spec fn is_fatal(e: EventModel) -> bool {
    match e {
        EventModel::Frame(m) => m.len() >= 1 && m[0] == RESIZE_TAG && spec_parse_pty_size(
            m.skip(1),
        ) is None,
        EventModel::ClientClose => true,
        EventModel::TransportError => true,
        EventModel::PtyEof => true,
        EventModel::PtyReadError => true,
        EventModel::IoFailure => true,
        _ => false,
    }
}

/// The events that carry client keystrokes: each payload framed under the
/// data tag.
pub open spec fn data_frame_events(payloads: Seq<Seq<u8>>) -> Seq<EventModel> {
    payloads.map_values(|p: Seq<u8>| EventModel::Frame(seq![DATA_TAG] + p))
}

/// The writes those keystrokes owe the terminal: the payloads, unchanged.
pub open spec fn write_effects(payloads: Seq<Seq<u8>>) -> Seq<EffectModel> {
    payloads.map_values(|p: Seq<u8>| EffectModel::WritePty(p))
}

/// The events that carry shell output: one chunk each.
pub open spec fn chunk_events(chunks: Seq<Seq<u8>>) -> Seq<EventModel> {
    chunks.map_values(|c: Seq<u8>| EventModel::PtyChunk(c))
}

/// The messages that output owes the client: each chunk behind the data tag.
pub open spec fn send_effects(chunks: Seq<Seq<u8>>) -> Seq<EffectModel> {
    chunks.map_values(|c: Seq<u8>| EffectModel::SendClient(seq![DATA_TAG] + c))
}

/// The sizes that a list of effects asks the host to apply, in order.
pub open spec fn applied_sizes(eff: Seq<EffectModel>) -> Seq<PtySize>
    decreases eff.len(),
{
    if eff.len() == 0 {
        Seq::empty()
    } else {
        let rest = applied_sizes(eff.drop_last());
        match eff.last() {
            EffectModel::ResizePty(z) => rest.push(z),
            _ => rest,
        }
    }
}

proof fn lemma_applied_sizes_add(a: Seq<EffectModel>, b: Seq<EffectModel>)
    ensures
        applied_sizes(a + b) == applied_sizes(a) + applied_sizes(b),
    decreases b.len(),
{
    if b.len() == 0 {
        assert(a + b =~= a);
        assert(applied_sizes(a) + Seq::<PtySize>::empty() =~= applied_sizes(a));
    } else {
        lemma_applied_sizes_add(a, b.drop_last());
        assert((a + b).drop_last() =~= a + b.drop_last());
        assert((a + b).last() == b.last());
        match b.last() {
            EffectModel::ResizePty(z) => {
                assert((applied_sizes(a) + applied_sizes(b.drop_last())).push(z)
                    =~= applied_sizes(a) + applied_sizes(b.drop_last()).push(z));
            },
            _ => {},
        }
    }
}

proof fn lemma_applied_sizes_single(e: EffectModel)
    ensures
        applied_sizes(seq![e]) == (match e {
            EffectModel::ResizePty(z) => seq![z],
            _ => Seq::<PtySize>::empty(),
        }),
{
    assert(seq![e].drop_last() =~= Seq::<EffectModel>::empty());
    assert(seq![e].last() == e);
    assert(applied_sizes(Seq::<EffectModel>::empty()) == Seq::<PtySize>::empty());
    match e {
        EffectModel::ResizePty(z) => {
            assert(Seq::<PtySize>::empty().push(z) =~= seq![z]);
        },
        _ => {},
    }
}

/// One step applies at most one size, and the state's size tracks it: it
/// changes exactly to the size applied, and stays put when none is.
proof fn lemma_step_size(s: SessionState, e: EventModel)
    ensures
        applied_sizes(spec_step(s, e).1).len() <= 1,
        applied_sizes(spec_step(s, e).1).len() == 0 ==> spec_step(s, e).0.size == s.size,
        applied_sizes(spec_step(s, e).1).len() == 1 ==> spec_step(s, e).0.size == applied_sizes(
            spec_step(s, e).1,
        )[0],
{
    let t = teardown_effects();
    assert(t.drop_last() =~= seq![EffectModel::KillChild]);
    lemma_applied_sizes_single(EffectModel::KillChild);
    assert(applied_sizes(t) == applied_sizes(seq![EffectModel::KillChild]));
    match e {
        EventModel::Frame(m) => {
            if !s.torn_down && m.len() >= 1 && m[0] == DATA_TAG && m.len() > 1 {
                lemma_applied_sizes_single(EffectModel::WritePty(m.skip(1)));
            }
            if !s.torn_down && m.len() >= 1 && m[0] == RESIZE_TAG {
                match spec_parse_pty_size(m.skip(1)) {
                    Some(z) => {
                        lemma_applied_sizes_single(EffectModel::ResizePty(z));
                    },
                    None => {},
                }
            }
        },
        EventModel::PtyChunk(c) => {
            if !s.torn_down {
                lemma_applied_sizes_single(EffectModel::SendClient(seq![DATA_TAG] + c));
            }
        },
        _ => {},
    }
}

/// The session's size always reflects the last-applied value: after any run,
/// it is the last size a resize effect asked the host to apply, or the size
/// the run began with when no resize was applied.
pub proof fn lemma_size_reflects_last_resize(s: SessionState, events: Seq<EventModel>)
    ensures
        applied_sizes(run(s, events).1).len() == 0 ==> run(s, events).0.size == s.size,
        applied_sizes(run(s, events).1).len() > 0 ==> run(s, events).0.size == applied_sizes(
            run(s, events).1,
        ).last(),
    decreases events.len(),
{
    if events.len() == 0 {
    } else {
        let s1 = spec_step(s, events[0]).0;
        let eff1 = spec_step(s, events[0]).1;
        let rest = run(s1, events.skip(1)).1;
        lemma_step_size(s, events[0]);
        lemma_size_reflects_last_resize(s1, events.skip(1));
        lemma_applied_sizes_add(eff1, rest);
        if applied_sizes(rest).len() > 0 {
            assert((applied_sizes(eff1) + applied_sizes(rest)).last() == applied_sizes(
                rest,
            ).last());
        } else if applied_sizes(eff1).len() == 1 {
            assert((applied_sizes(eff1) + applied_sizes(rest)) =~= applied_sizes(eff1));
            assert(applied_sizes(eff1).last() == applied_sizes(eff1)[0]);
        } else {
            assert((applied_sizes(eff1) + applied_sizes(rest)).len() == 0);
        }
    }
}

proof fn lemma_kill_count_add(a: Seq<EffectModel>, b: Seq<EffectModel>)
    ensures
        kill_count(a + b) == kill_count(a) + kill_count(b),
    decreases a.len(),
{
    if a.len() == 0 {
        assert(a + b =~= b);
    } else {
        lemma_kill_count_add(a.skip(1), b);
        assert((a + b).skip(1) =~= a.skip(1) + b);
        assert((a + b)[0] == a[0]);
    }
}

proof fn lemma_kill_count_teardown()
    ensures
        kill_count(teardown_effects()) == 1,
{
    reveal_with_fuel(kill_count, 4);
    let t = teardown_effects();
    assert(t[0] is KillChild);
    assert(t.skip(1) =~= seq![EffectModel::CloseTransport]);
    assert(t.skip(1)[0] == EffectModel::CloseTransport);
    assert(t.skip(1).skip(1) =~= Seq::<EffectModel>::empty());
}

proof fn lemma_kill_count_single(e: EffectModel)
    ensures
        kill_count(seq![e]) == (if e is KillChild {
            1nat
        } else {
            0nat
        }),
{
    reveal_with_fuel(kill_count, 3);
    assert(seq![e][0] == e);
    assert(seq![e].skip(1) =~= Seq::<EffectModel>::empty());
}

/// One step of a live session terminates the child exactly when it begins
/// teardown, and never more than once; a torn-down session never does.
proof fn lemma_step_kills(s: SessionState, e: EventModel)
    ensures
        kill_count(spec_step(s, e).1) <= 1,
        spec_step(s, e).0.torn_down == (s.torn_down || kill_count(spec_step(s, e).1) == 1),
{
    lemma_kill_count_teardown();
    assert(kill_count(Seq::<EffectModel>::empty()) == 0);
    match e {
        EventModel::Frame(m) => {
            if !s.torn_down && m.len() >= 1 && m[0] == DATA_TAG && m.len() > 1 {
                lemma_kill_count_single(EffectModel::WritePty(m.skip(1)));
            }
            if !s.torn_down && m.len() >= 1 && m[0] == RESIZE_TAG {
                match spec_parse_pty_size(m.skip(1)) {
                    Some(z) => {
                        lemma_kill_count_single(EffectModel::ResizePty(z));
                    },
                    None => {},
                }
            }
        },
        EventModel::PtyChunk(c) => {
            if !s.torn_down {
                lemma_kill_count_single(EffectModel::SendClient(seq![DATA_TAG] + c));
            }
        },
        _ => {},
    }
}

/// Once teardown has begun, the session is inert: no later event changes its
/// state or has any effect. No frame is forwarded past teardown.
pub proof fn lemma_torn_down_inert(s: SessionState, events: Seq<EventModel>)
    requires
        s.torn_down,
    ensures
        run(s, events).0 == s,
        run(s, events).1 == Seq::<EffectModel>::empty(),
    decreases events.len(),
{
    if events.len() == 0 {
    } else {
        lemma_torn_down_inert(s, events.skip(1));
        assert(Seq::<EffectModel>::empty() + Seq::<EffectModel>::empty()
            =~= Seq::<EffectModel>::empty());
    }
}

/// Whatever happens, over its whole life a session terminates the child at
/// most once, however many failure signals arrive and in whatever order.
pub proof fn lemma_child_killed_at_most_once(s: SessionState, events: Seq<EventModel>)
    ensures
        kill_count(run(s, events).1) <= 1,
        s.torn_down ==> kill_count(run(s, events).1) == 0,
    decreases events.len(),
{
    if events.len() == 0 {
    } else {
        let s1 = spec_step(s, events[0]).0;
        let eff1 = spec_step(s, events[0]).1;
        lemma_step_kills(s, events[0]);
        lemma_child_killed_at_most_once(s1, events.skip(1));
        lemma_kill_count_add(eff1, run(s1, events.skip(1)).1);
        if s.torn_down {
            lemma_torn_down_inert(s, events);
        } else if kill_count(eff1) == 1 {
            assert(s1.torn_down);
        }
    }
}

/// A fatal event — the client's close message, a transport or terminal
/// failure, end of file on the terminal, or a malformed resize payload —
/// tears the session down at once: the child is terminated, the outbound
/// transport half is closed, and nothing that follows is processed.
pub proof fn lemma_fatal_event_stops_session(
    s: SessionState,
    e: EventModel,
    rest: Seq<EventModel>,
)
    requires
        !s.torn_down,
        is_fatal(e),
    ensures
        run(s, seq![e] + rest).0 == torn(s),
        run(s, seq![e] + rest).1 == teardown_effects(),
{
    let events = seq![e] + rest;
    assert(events[0] == e);
    assert(events.skip(1) =~= rest);
    assert(spec_step(s, e).1 == teardown_effects());
    lemma_torn_down_inert(torn(s), rest);
    assert(teardown_effects() + Seq::<EffectModel>::empty() =~= teardown_effects());
}

/// A well-formed resize frame takes effect at once: the session's size is
/// exactly the requested one before any later event is looked at, and the
/// host is asked to apply exactly that size to the terminal.
pub proof fn lemma_resize_applied(s: SessionState, m: Seq<u8>, z: PtySize)
    requires
        !s.torn_down,
        m.len() >= 1,
        m[0] == RESIZE_TAG,
        spec_parse_pty_size(m.skip(1)) == Some(z),
    ensures
        spec_step(s, EventModel::Frame(m)).0 == (SessionState { size: z, torn_down: false }),
        spec_step(s, EventModel::Frame(m)).1 == seq![EffectModel::ResizePty(z)],
{
}

/// Client keystrokes reach the terminal byte for byte and in order: a run of
/// data frames asks the host for exactly the frames' payloads, as writes, in
/// the order the frames arrived, and leaves the session as it was.
pub proof fn lemma_client_data_in_order(s: SessionState, payloads: Seq<Seq<u8>>)
    requires
        !s.torn_down,
        forall|i: int| 0 <= i < payloads.len() ==> #[trigger] payloads[i].len() > 0,
    ensures
        run(s, data_frame_events(payloads)).0 == s,
        run(s, data_frame_events(payloads)).1 == write_effects(payloads),
    decreases payloads.len(),
{
    let events = data_frame_events(payloads);
    if payloads.len() == 0 {
        assert(run(s, events).1 =~= write_effects(payloads));
    } else {
        let m = seq![DATA_TAG] + payloads[0];
        assert(events[0] == EventModel::Frame(m));
        assert(m.len() > 1);
        assert(m[0] == DATA_TAG);
        assert(m.skip(1) =~= payloads[0]);
        assert(spec_step(s, events[0]).0 == s);
        assert(spec_step(s, events[0]).1 == seq![EffectModel::WritePty(payloads[0])]);
        lemma_client_data_in_order(s, payloads.skip(1));
        assert(events.skip(1) =~= data_frame_events(payloads.skip(1)));
        assert(seq![EffectModel::WritePty(payloads[0])] + write_effects(payloads.skip(1))
            =~= write_effects(payloads));
    }
}

/// Shell output reaches the client in the order it was produced, each chunk
/// unchanged behind the data tag, with nothing dropped and nothing
/// reordered; the session is left as it was.
pub proof fn lemma_shell_output_in_order(s: SessionState, chunks: Seq<Seq<u8>>)
    requires
        !s.torn_down,
    ensures
        run(s, chunk_events(chunks)).0 == s,
        run(s, chunk_events(chunks)).1 == send_effects(chunks),
    decreases chunks.len(),
{
    let events = chunk_events(chunks);
    if chunks.len() == 0 {
        assert(run(s, events).1 =~= send_effects(chunks));
    } else {
        assert(events[0] == EventModel::PtyChunk(chunks[0]));
        assert(spec_step(s, events[0]).0 == s);
        assert(spec_step(s, events[0]).1 == seq![
            EffectModel::SendClient(seq![DATA_TAG] + chunks[0]),
        ]);
        lemma_shell_output_in_order(s, chunks.skip(1));
        assert(events.skip(1) =~= chunk_events(chunks.skip(1)));
        assert(seq![EffectModel::SendClient(seq![DATA_TAG] + chunks[0])] + send_effects(
            chunks.skip(1),
        ) =~= send_effects(chunks));
    }
}

} // verus!
