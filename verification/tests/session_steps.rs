use pty_bridge::Effect;
use pty_bridge::Event;
use pty_bridge::PtySize;
use pty_bridge::SessionState;
use pty_bridge::frame_output;

fn resize_frame(json: &[u8]) -> Vec<u8> {
    let mut m = vec![1u8];
    m.extend_from_slice(json);
    m
}

#[test]
fn a_fresh_session_has_the_launch_size() {
    let s = SessionState::new();
    assert!(!s.torn_down);
    assert_eq!(s.size, PtySize { rows: 24, cols: 80, pixel_width: 0, pixel_height: 0 });
}

#[test]
fn client_data_reaches_the_terminal_byte_for_byte() {
    let mut s = SessionState::new();
    let effects = s.step(Event::Frame(vec![0, b'l', b's', b'\n']));
    assert_eq!(effects, vec![Effect::WritePty(vec![b'l', b's', b'\n'])]);
    assert!(!s.torn_down);
}

#[test]
fn sequential_writes_keep_their_order() {
    let mut s = SessionState::new();
    let first = s.step(Event::Frame(vec![0, b'l', b's']));
    let second = s.step(Event::Frame(vec![0, b'\n']));
    assert_eq!(first, vec![Effect::WritePty(vec![b'l', b's'])]);
    assert_eq!(second, vec![Effect::WritePty(vec![b'\n'])]);
    assert!(!s.torn_down);
}

#[test]
fn a_data_frame_without_payload_is_ignored() {
    let mut s = SessionState::new();
    assert_eq!(s.step(Event::Frame(vec![0])), vec![]);
    assert!(!s.torn_down);
}

#[test]
fn an_empty_message_is_an_anomaly_and_the_session_goes_on() {
    let mut s = SessionState::new();
    assert_eq!(s.step(Event::Frame(vec![])), vec![]);
    assert_eq!(
        s.step(Event::Frame(vec![0, b'x'])),
        vec![Effect::WritePty(vec![b'x'])]
    );
}

#[test]
fn an_unknown_tag_is_an_anomaly_and_the_session_goes_on() {
    let mut s = SessionState::new();
    assert_eq!(s.step(Event::Frame(vec![7, 1, 2])), vec![]);
    assert!(!s.torn_down);
}

#[test]
fn a_non_binary_message_is_ignored() {
    let mut s = SessionState::new();
    assert_eq!(s.step(Event::ClientOther), vec![]);
    assert!(!s.torn_down);
}

#[test]
fn a_resize_frame_updates_the_size_before_anything_else() {
    let mut s = SessionState::new();
    let effects = s.step(Event::Frame(resize_frame(
        b"{\"rows\":40,\"cols\":120,\"pixel_width\":0,\"pixel_height\":0}",
    )));
    let wanted = PtySize { rows: 40, cols: 120, pixel_width: 0, pixel_height: 0 };
    assert_eq!(effects, vec![Effect::ResizePty(wanted)]);
    assert_eq!(s.size, wanted);
    assert!(!s.torn_down);
}

#[test]
fn a_malformed_resize_payload_tears_the_session_down() {
    let mut s = SessionState::new();
    let effects = s.step(Event::Frame(resize_frame(b"{\"rows\":40}")));
    assert_eq!(effects, vec![Effect::KillChild, Effect::CloseTransport]);
    assert!(s.torn_down);
    assert_eq!(s.step(Event::Frame(vec![0, b'x'])), vec![]);
}

#[test]
fn a_malformed_resize_leaves_another_session_untouched() {
    let mut offender = SessionState::new();
    let mut other = SessionState::new();
    let effects = offender.step(Event::Frame(resize_frame(b"not json")));
    assert_eq!(effects, vec![Effect::KillChild, Effect::CloseTransport]);
    assert!(offender.torn_down);
    assert!(!other.torn_down);
    assert_eq!(
        other.step(Event::Frame(vec![0, b'o', b'k'])),
        vec![Effect::WritePty(vec![b'o', b'k'])]
    );
    assert_eq!(
        other.step(Event::PtyChunk(vec![b'y'])),
        vec![Effect::SendClient(vec![0, b'y'])]
    );
}

#[test]
fn a_close_message_kills_the_child_and_stops_the_session() {
    let mut s = SessionState::new();
    let effects = s.step(Event::ClientClose);
    assert_eq!(effects, vec![Effect::KillChild, Effect::CloseTransport]);
    assert!(s.torn_down);
    assert_eq!(s.step(Event::Frame(vec![0, b'x'])), vec![]);
}

#[test]
fn the_child_is_killed_at_most_once() {
    let mut s = SessionState::new();
    assert_eq!(
        s.step(Event::ClientClose),
        vec![Effect::KillChild, Effect::CloseTransport]
    );
    assert_eq!(s.step(Event::ClientClose), vec![]);
    assert_eq!(s.step(Event::PtyEof), vec![]);
    assert_eq!(s.step(Event::TransportError), vec![]);
}

#[test]
fn eof_on_the_terminal_tears_the_session_down_without_the_client() {
    let mut s = SessionState::new();
    let effects = s.step(Event::PtyEof);
    assert_eq!(effects, vec![Effect::KillChild, Effect::CloseTransport]);
    assert!(s.torn_down);
}

#[test]
fn transport_and_terminal_failures_tear_the_session_down() {
    for event in [Event::TransportError, Event::PtyReadError, Event::IoFailure] {
        let mut s = SessionState::new();
        assert_eq!(s.step(event), vec![Effect::KillChild, Effect::CloseTransport]);
        assert!(s.torn_down);
    }
}

#[test]
fn shell_output_is_framed_under_the_data_tag_in_order() {
    let mut s = SessionState::new();
    let first = s.step(Event::PtyChunk(vec![b'$', b' ']));
    let second = s.step(Event::PtyChunk(vec![b'o', b'k']));
    assert_eq!(first, vec![Effect::SendClient(vec![0, b'$', b' '])]);
    assert_eq!(second, vec![Effect::SendClient(vec![0, b'o', b'k'])]);
    assert!(!s.torn_down);
}

#[test]
fn frame_output_prefixes_the_tag_and_keeps_the_bytes() {
    assert_eq!(frame_output(&vec![1, 2, 3]), vec![0, 1, 2, 3]);
    assert_eq!(frame_output(&vec![]), vec![0]);
}

#[test]
fn the_recording_hook_does_not_disturb_anything() {
    pty_bridge::record_data(&vec![1, 2, 3]);
}

#[test]
fn a_whole_conversation_in_order() {
    let mut s = SessionState::new();
    assert_eq!(
        s.step(Event::Frame(vec![0, b'l', b's', b'\n'])),
        vec![Effect::WritePty(vec![b'l', b's', b'\n'])]
    );
    assert_eq!(
        s.step(Event::PtyChunk(vec![b'C', b'a', b'r', b'g', b'o'])),
        vec![Effect::SendClient(vec![0, b'C', b'a', b'r', b'g', b'o'])]
    );
    let effects = s.step(Event::Frame(resize_frame(
        b"{\"rows\":50,\"cols\":132,\"pixel_width\":0,\"pixel_height\":0}",
    )));
    let wanted = PtySize { rows: 50, cols: 132, pixel_width: 0, pixel_height: 0 };
    assert_eq!(effects, vec![Effect::ResizePty(wanted)]);
    assert_eq!(s.size, wanted);
    assert_eq!(
        s.step(Event::ClientClose),
        vec![Effect::KillChild, Effect::CloseTransport]
    );
    assert!(s.torn_down);
    assert_eq!(s.step(Event::PtyChunk(vec![b'x'])), vec![]);
}
