use leap_osc::message::Message;
use leap_osc::sender::{pitch_bend, OscSender};

#[test]
fn channels_start_silent() {
    let sender = OscSender::default();
    assert_eq!(sender.held_note(0), None);
    assert_eq!(sender.held_note(1), None);
    assert_eq!(sender.held_note(2), None);
}

#[test]
fn absent_hand_on_silent_channel_sends_nothing() {
    let mut sender = OscSender::default();
    assert_eq!(sender.maybe_note(0, false, 60, 100), vec![]);
    assert_eq!(sender.held_note(0), None);
}

#[test]
fn press_and_release_sequence() {
    let mut sender = OscSender::default();
    assert_eq!(sender.maybe_note(0, false, 0, 0), vec![]);
    let on = sender.maybe_note(0, true, 60, 100);
    assert_eq!(on, vec![Message::NoteOn { chan: 0, note: 60, velocity: 100 }]);
    assert_eq!(on[0].address(), "/vkb_midi/1/note/60");
    assert_eq!(on[0].value(), 100);
    assert_eq!(sender.held_note(0), Some(60));
    let off = sender.maybe_note(0, false, 0, 0);
    assert_eq!(off, vec![Message::NoteOff { chan: 0, note: 60 }]);
    assert_eq!(off[0].address(), "/vkb_midi/1/note/60");
    assert_eq!(off[0].value(), 0);
    assert_eq!(sender.held_note(0), None);
}

#[test]
fn same_note_does_not_retrigger() {
    let mut sender = OscSender::default();
    assert_eq!(sender.maybe_note(1, true, 60, 100).len(), 1);
    assert_eq!(sender.maybe_note(1, true, 60, 100), vec![]);
    assert_eq!(sender.maybe_note(1, true, 60, 17), vec![]);
    assert_eq!(sender.held_note(1), Some(60));
}

#[test]
fn drift_bends_and_keeps_the_note() {
    let mut sender = OscSender::default();
    sender.maybe_note(0, true, 60, 100);
    let out = sender.maybe_note(0, true, 63, 90);
    assert_eq!(
        out,
        vec![
            Message::PitchBend { chan: 0, bend: 73 },
            Message::Aftertouch { chan: 0, note: 60, velocity: 90 },
        ]
    );
    assert_eq!(out[0].address(), "/vkb_midi/1/pitchbend");
    assert_eq!(out[0].value(), 73);
    assert_eq!(out[1].address(), "/vkb_midi/1/aftertouch/60");
    assert_eq!(out[1].value(), 90);
    assert_eq!(sender.held_note(0), Some(60));
}

#[test]
fn drift_bends_again_on_every_frame() {
    let mut sender = OscSender::default();
    sender.maybe_note(0, true, 60, 100);
    assert_eq!(sender.maybe_note(0, true, 63, 90).len(), 2);
    assert_eq!(sender.maybe_note(0, true, 63, 90).len(), 2);
    assert_eq!(sender.held_note(0), Some(60));
}

#[test]
fn release_names_the_held_note_not_the_candidate() {
    let mut sender = OscSender::default();
    sender.maybe_note(1, true, 40, 5);
    sender.maybe_note(1, true, 50, 5);
    assert_eq!(sender.maybe_note(1, false, 77, 99), vec![Message::NoteOff { chan: 1, note: 40 }]);
    assert_eq!(sender.held_note(1), None);
}

#[test]
fn pitch_bend_formula() {
    assert_eq!(pitch_bend(60, 63), 73);
    assert_eq!(pitch_bend(60, 60), 64);
    assert_eq!(pitch_bend(60, 57), 55);
    assert_eq!(pitch_bend(60, 81), 127);
    assert_eq!(pitch_bend(60, 82), 127);
    assert_eq!(pitch_bend(60, 39), 1);
    assert_eq!(pitch_bend(60, 38), 0);
    assert_eq!(pitch_bend(60, 0), 0);
    assert_eq!(pitch_bend(i32::MIN, i32::MAX), 127);
    assert_eq!(pitch_bend(i32::MAX, i32::MIN), 0);
}

#[test]
fn channels_do_not_touch_each_other() {
    let mut sender = OscSender::default();
    assert_eq!(
        sender.maybe_note(0, true, 60, 100),
        vec![Message::NoteOn { chan: 0, note: 60, velocity: 100 }]
    );
    assert_eq!(sender.held_note(0), Some(60));
    assert_eq!(sender.held_note(1), None);
    assert_eq!(sender.maybe_note(1, false, 0, 0), vec![]);
    assert_eq!(
        sender.maybe_note(1, true, 72, 30),
        vec![Message::NoteOn { chan: 1, note: 72, velocity: 30 }]
    );
    assert_eq!(sender.held_note(0), Some(60));
    assert_eq!(sender.maybe_note(0, false, 0, 0), vec![Message::NoteOff { chan: 0, note: 60 }]);
    assert_eq!(sender.held_note(0), None);
    assert_eq!(sender.held_note(1), Some(72));
}

#[test]
fn addresses_count_channels_from_one() {
    assert_eq!(Message::NoteOn { chan: 1, note: 64, velocity: 3 }.address(), "/vkb_midi/2/note/64");
    assert_eq!(Message::NoteOff { chan: 1, note: 64 }.address(), "/vkb_midi/2/note/64");
    assert_eq!(Message::PitchBend { chan: 1, bend: 64 }.address(), "/vkb_midi/2/pitchbend");
    assert_eq!(
        Message::Aftertouch { chan: 1, note: 127, velocity: 1 }.address(),
        "/vkb_midi/2/aftertouch/127"
    );
}

#[test]
fn addresses_of_parameters() {
    assert_eq!(Message::Param { index: 1, value: 0 }.address(), "/device/param/1/value");
    assert_eq!(Message::Param { index: 7, value: 16383 }.address(), "/device/param/7/value");
    assert_eq!(Message::Param { index: 0, value: 0 }.address(), "/device/param/0/value");
    assert_eq!(Message::Param { index: 1024, value: 0 }.address(), "/device/param/1024/value");
    assert_eq!(Message::Param { index: 7, value: 16383 }.value(), 16383);
}

#[test]
fn addresses_render_any_number() {
    assert_eq!(Message::NoteOn { chan: 0, note: 0, velocity: 1 }.address(), "/vkb_midi/1/note/0");
    assert_eq!(Message::NoteOn { chan: 0, note: -5, velocity: 1 }.address(), "/vkb_midi/1/note/-5");
    assert_eq!(Message::NoteOn { chan: 9, note: 10, velocity: 1 }.address(), "/vkb_midi/10/note/10");
    assert_eq!(
        Message::NoteOff { chan: 0, note: i32::MIN }.address(),
        "/vkb_midi/1/note/-2147483648"
    );
    assert_eq!(
        Message::Aftertouch { chan: 0, note: i32::MAX, velocity: 0 }.address(),
        "/vkb_midi/1/aftertouch/2147483647"
    );
    assert_eq!(
        Message::PitchBend { chan: usize::MAX, bend: 0 }.address(),
        format!("/vkb_midi/{}/pitchbend", usize::MAX as u128 + 1)
    );
}

#[test]
fn arguments_of_messages() {
    assert_eq!(Message::NoteOn { chan: 0, note: 60, velocity: 100 }.value(), 100);
    assert_eq!(Message::NoteOff { chan: 0, note: 60 }.value(), 0);
    assert_eq!(Message::PitchBend { chan: 0, bend: 73 }.value(), 73);
    assert_eq!(Message::Aftertouch { chan: 0, note: 60, velocity: 90 }.value(), 90);
}
