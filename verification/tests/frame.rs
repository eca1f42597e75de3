use leap_osc::axes::Coordinate;
use leap_osc::listener::MyListener;
use leap_osc::message::Message;

fn palm(x: f32, y: f32, z: f32) -> Coordinate {
    Coordinate::from_bits(x.to_bits(), y.to_bits(), z.to_bits())
}

fn addresses(messages: &[Message]) -> Vec<String> {
    messages.iter().map(|m| m.address()).collect()
}

#[test]
fn two_hands_left_palm_scenario() {
    let mut listener = MyListener::default();
    let out = listener.onFrame(2, palm(-50.0, 70.0, 50.0), palm(50.0, 70.0, 150.0));
    assert_eq!(
        &out[..4],
        &[
            Message::Param { index: 1, value: 0 },
            Message::Param { index: 2, value: 0 },
            Message::Param { index: 3, value: 4096 },
            Message::NoteOn { chan: 0, note: 38, velocity: 1 },
        ]
    );
    assert_eq!(
        addresses(&out[..4]),
        vec![
            "/device/param/1/value",
            "/device/param/2/value",
            "/device/param/3/value",
            "/vkb_midi/1/note/38",
        ]
    );
    assert_eq!(out[3].value(), 1);
    assert_eq!(listener.sender().held_note(0), Some(38));
    assert_eq!(
        &out[4..],
        &[
            Message::Param { index: 5, value: 0 },
            Message::Param { index: 6, value: 0 },
            Message::Param { index: 7, value: 0 },
            Message::NoteOn { chan: 1, note: 38, velocity: 1 },
        ]
    );
    assert_eq!(listener.sender().held_note(1), Some(38));
}

#[test]
fn right_hand_parameters_are_numbered_from_five() {
    let mut listener = MyListener::default();
    let out = listener.onFrame(1, palm(0.0, 0.0, 0.0), palm(120.0, 410.0, 0.0));
    assert_eq!(
        out,
        vec![
            Message::Param { index: 5, value: 11468 },
            Message::Param { index: 6, value: 16383 },
            Message::Param { index: 7, value: 8192 },
            Message::NoteOn { chan: 1, note: 32 + 47, velocity: 1 + 58 },
        ]
    );
    assert_eq!(
        addresses(&out),
        vec![
            "/device/param/5/value",
            "/device/param/6/value",
            "/device/param/7/value",
            "/vkb_midi/2/note/79",
        ]
    );
    assert_eq!(listener.sender().held_note(0), None);
    assert_eq!(listener.sender().held_note(1), Some(79));
}

#[test]
fn one_hand_is_the_right_hand() {
    let mut listener = MyListener::default();
    let out = listener.onFrame(1, palm(-50.0, 70.0, 50.0), palm(50.0, 20.0, 99.0));
    assert_eq!(out.len(), 4);
    assert_eq!(out[3], Message::NoteOn { chan: 1, note: 32, velocity: 1 });
    assert_eq!(listener.sender().held_note(0), None);
}

#[test]
fn no_hands_send_nothing_when_silent() {
    let mut listener = MyListener::default();
    assert_eq!(listener.onFrame(0, palm(1.0, 2.0, 3.0), palm(4.0, 5.0, 6.0)), vec![]);
    assert_eq!(listener.onFrame(-1, palm(1.0, 2.0, 3.0), palm(4.0, 5.0, 6.0)), vec![]);
}

#[test]
fn hands_leaving_release_their_notes() {
    let mut listener = MyListener::default();
    listener.onFrame(2, palm(-50.0, 70.0, 50.0), palm(50.0, 800.0, 50.0));
    assert_eq!(listener.sender().held_note(0), Some(38));
    assert_eq!(listener.sender().held_note(1), Some(127));
    let out = listener.onFrame(1, palm(-50.0, 70.0, 50.0), palm(50.0, 800.0, 50.0));
    assert_eq!(
        out,
        vec![
            Message::NoteOff { chan: 0, note: 38 },
            Message::Param { index: 5, value: 0 },
            Message::Param { index: 6, value: 16383 },
            Message::Param { index: 7, value: 4096 },
        ]
    );
    let out = listener.onFrame(0, palm(-50.0, 70.0, 50.0), palm(50.0, 800.0, 50.0));
    assert_eq!(out, vec![Message::NoteOff { chan: 1, note: 127 }]);
    assert_eq!(listener.sender().held_note(1), None);
}

#[test]
fn tracked_hand_is_present_at_any_depth() {
    let mut listener = MyListener::default();
    let out = listener.onFrame(1, palm(0.0, 0.0, 0.0), palm(50.0, 70.0, 100.0));
    assert_eq!(
        out,
        vec![
            Message::Param { index: 5, value: 0 },
            Message::Param { index: 6, value: 0 },
            Message::Param { index: 7, value: 0 },
            Message::NoteOn { chan: 1, note: 38, velocity: 1 },
        ]
    );
    assert_eq!(out[3].address(), "/vkb_midi/2/note/38");
    assert_eq!(listener.sender().held_note(1), Some(38));
    // moving further away releases nothing: the hand is still tracked
    let out = listener.onFrame(1, palm(0.0, 0.0, 0.0), palm(50.0, 70.0, 5000.0));
    assert_eq!(
        out,
        vec![
            Message::Param { index: 5, value: 0 },
            Message::Param { index: 6, value: 0 },
            Message::Param { index: 7, value: 0 },
        ]
    );
    assert_eq!(listener.sender().held_note(1), Some(38));
}

#[test]
fn far_hand_on_silent_channel_starts_a_note() {
    let mut listener = MyListener::default();
    let out = listener.onFrame(2, palm(-200.0, 800.0, 150.0), palm(200.0, 20.0, 1.0e9));
    assert_eq!(out.len(), 8);
    assert_eq!(out[3], Message::NoteOn { chan: 0, note: 127, velocity: 127 });
    assert_eq!(out[7], Message::NoteOn { chan: 1, note: 32, velocity: 127 });
    assert_eq!(listener.sender().held_note(0), Some(127));
    assert_eq!(listener.sender().held_note(1), Some(32));
}

#[test]
fn steady_hand_sends_only_parameters() {
    let mut listener = MyListener::default();
    let first = listener.onFrame(2, palm(-120.0, 300.0, 10.0), palm(120.0, 300.0, 10.0));
    assert_eq!(first.len(), 8);
    let second = listener.onFrame(2, palm(-120.0, 300.0, 10.0), palm(120.0, 300.0, 10.0));
    assert_eq!(second.len(), 6);
    assert_eq!(&second[..3], &first[..3]);
    assert_eq!(&second[3..], &first[4..7]);
}

#[test]
fn moving_hand_bends_its_note() {
    let mut listener = MyListener::default();
    listener.onFrame(1, palm(0.0, 0.0, 0.0), palm(50.0, 70.0, 0.0));
    assert_eq!(listener.sender().held_note(1), Some(38));
    // 110 of 780, times 95, is 13.39...: note 45, seven above the held one
    let out = listener.onFrame(1, palm(0.0, 0.0, 0.0), palm(200.0, 130.0, 0.0));
    assert_eq!(
        &out[3..],
        &[
            Message::PitchBend { chan: 1, bend: 85 },
            Message::Aftertouch { chan: 1, note: 38, velocity: 127 },
        ]
    );
    assert_eq!(listener.sender().held_note(1), Some(38));
}

#[test]
fn frame_messages_encode_to_datagrams() {
    let mut listener = MyListener::default();
    let out = listener.onFrame(2, palm(-50.0, 70.0, 50.0), palm(50.0, 70.0, 150.0));
    let bytes = listener.sender().datagram(&out[2]);
    let mut expected = b"/device/param/3/value\0\0\0,i\0\0".to_vec();
    expected.extend_from_slice(&[0, 0, 0x10, 0]);
    assert_eq!(bytes, expected);
    assert_eq!(bytes, listener.sender().send(&out[2].address(), out[2].value()));
}
