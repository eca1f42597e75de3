//! The gesture interpreter: one held note per channel, and the events that
//! a hand appearing, moving and leaving gives rise to.

use crate::message::Message;
use crate::range::clamp;
use crate::wire::{encode_int_message, int_message, lemma_int_message_aligned};
use vstd::prelude::*;
use vstd::string::StringSliceAdditionalSpecFns;

verus! {

/// The number of gesture channels: 0 is the left hand, 1 the right.
pub const CHANNELS: usize = 2;

/// The pitch-bend value for a hand at `candidate` while `held` sounds: the
/// deviation from the held note, three steps per note, centred at 64 and
/// kept within seven bits.
pub open spec fn bend_spec(held: int, candidate: int) -> int {
    clamp((candidate - held) * 3 + 64, 0, 127)
}

/// The held note of a channel after one frame.
///
/// A hand that appears takes the candidate as its note, a hand that leaves
/// releases the note, and a hand that stays keeps the note it has, wherever
/// it moves.
pub open spec fn next_note(held: Option<i32>, target: bool, note: i32) -> Option<i32> {
    match held {
        None => if target {
            Some(note)
        } else {
            None
        },
        Some(current) => if target {
            Some(current)
        } else {
            None
        },
    }
}

/// The events of one frame on channel `chan`, in the order they are sent.
pub open spec fn note_messages(
    chan: usize,
    held: Option<i32>,
    target: bool,
    note: i32,
    velocity: i32,
) -> Seq<Message> {
    match held {
        None => if target {
            seq![Message::NoteOn { chan, note, velocity }]
        } else {
            seq![]
        },
        Some(current) => if !target {
            seq![Message::NoteOff { chan, note: current }]
        } else if note == current {
            seq![]
        } else {
            seq![
                Message::PitchBend { chan, bend: bend_spec(current as int, note as int) as i32 },
                Message::Aftertouch { chan, note: current, velocity },
            ]
        },
    }
}

/// Computes the pitch-bend value for a hand at `candidate` while `held`
/// sounds.
pub fn pitch_bend(held: i32, candidate: i32) -> (bend: i32)
    ensures
        bend == bend_spec(held as int, candidate as int),
        0 <= bend <= 127,
{
    let raw: i64 = (candidate as i64 - held as i64) * 3 + 64;
    if raw < 0 {
        0
    } else if raw > 127 {
        127
    } else {
        raw as i32
    }
}

/// The state of the gesture channels: the note each one holds, if any.
pub struct OscSender {
    notes: [Option<i32>; 2],
}

impl OscSender {
    /// The note that channel `chan` holds; `None` for a silent channel and
    /// for a number that names no channel.
    pub closed spec fn held(&self, chan: int) -> Option<i32> {
        if 0 <= chan < CHANNELS {
            self.notes@[chan]
        } else {
            None
        }
    }

    /// `after` is `self` after one frame on channel `chan`: that channel has
    /// moved on, every other is as it was.
    pub open spec fn stepped(&self, after: &OscSender, chan: usize, target: bool, note: i32) -> bool {
        &&& after.held(chan as int) == next_note(self.held(chan as int), target, note)
        &&& forall|other: int| other != chan ==> after.held(other) == self.held(other)
    }

    /// The note that channel `chan` holds.
    pub fn held_note(&self, chan: usize) -> (held: Option<i32>)
        ensures
            held == self.held(chan as int),
    {
        if chan < CHANNELS {
            self.notes[chan]
        } else {
            None
        }
    }

    /// Encodes the message with the address `ns` and the argument `val` as the
    /// datagram to hand to the transport: a whole number of four-byte words.
    pub fn send(&self, ns: &str, val: i32) -> (datagram: Vec<u8>)
        ensures
            datagram@ == int_message(ns.spec_bytes(), val),
            datagram@.len() % 4 == 0,
    {
        proof {
            lemma_int_message_aligned(ns.spec_bytes(), val);
        }
        match encode_int_message(ns, val) {
            Ok(bytes) => bytes,
            Err(_) => unreached(),
        }
    }

    /// Encodes `message` as the datagram to hand to the transport: its own
    /// address with its own argument.
    pub fn datagram(&self, message: &Message) -> (datagram: Vec<u8>)
        ensures
            datagram@ == message.datagram_spec(),
            datagram@.len() % 4 == 0,
    {
        let addr: String = message.address();
        self.send(addr.as_str(), message.value())
    }

    /// Feeds one frame to channel `chan`: whether a hand is there (`target`),
    /// and the note and velocity that its position stands for. Returns the
    /// events to send, in order, and moves the channel to its next state.
    pub fn maybe_note(&mut self, chan: usize, target: bool, note: i32, velocity: i32) -> (out: Vec<
        Message,
    >)
        requires
            chan < CHANNELS,
        ensures
            out@ == note_messages(chan, old(self).held(chan as int), target, note, velocity),
            out@.len() <= 2,
            old(self).stepped(final(self), chan, target, note),
    {
        let mut out: Vec<Message> = Vec::new();
        match self.notes[chan] {
            None => {
                if target {
                    out.push(Message::NoteOn { chan, note, velocity });
                    self.notes[chan] = Some(note);
                }
            },
            Some(current) => {
                if !target {
                    out.push(Message::NoteOff { chan, note: current });
                    self.notes[chan] = None;
                } else if note != current {
                    out.push(Message::PitchBend { chan, bend: pitch_bend(current, note) });
                    out.push(Message::Aftertouch { chan, note: current, velocity });
                }
            },
        }
        out
    }
}

impl Default for OscSender {
    /// A sender with both channels silent.
    fn default() -> (sender: OscSender)
        ensures
            forall|chan: int| sender.held(chan) is None,
    {
        OscSender { notes: [None, None] }
    }
}

/// No re-trigger: once a channel holds the note that the hand stands for,
/// a further frame with the same candidate sends nothing and changes
/// nothing, whatever the velocities are.
///
/// The first frame leaves the channel on the candidate when it was silent
/// or held that note already. A channel that holds another note keeps it,
/// and goes on bending toward the candidate.
pub proof fn same_note_is_silent(
    chan: usize,
    held: Option<i32>,
    note: i32,
    first_velocity: i32,
    second_velocity: i32,
)
    requires
        held is None || held == Some(note),
    ensures
        note_messages(chan, next_note(held, true, note), true, note, second_velocity)
            == Seq::<Message>::empty(),
        next_note(next_note(held, true, note), true, note) == next_note(held, true, note),
        next_note(held, true, note) == Some(note),
{
}

/// A hand that appears over a silent channel and then leaves sends exactly
/// a note-on with its note and velocity and then a note-off for that note,
/// and the channel is silent again. Frames without a hand before that send
/// nothing.
pub proof fn press_then_release(
    chan: usize,
    note: i32,
    velocity: i32,
    idle_note: i32,
    idle_velocity: i32,
)
    ensures
        note_messages(chan, None, false, idle_note, idle_velocity) == Seq::<Message>::empty(),
        next_note(None, false, idle_note) == None::<i32>,
        note_messages(chan, None, true, note, velocity) == seq![
            Message::NoteOn { chan, note, velocity },
        ],
        note_messages(chan, next_note(None, true, note), false, idle_note, idle_velocity) == seq![
            Message::NoteOff { chan, note },
        ],
        next_note(next_note(None, true, note), false, idle_note) == None::<i32>,
{
}

/// A hand that moves while its note is held bends the pitch instead of
/// starting a new note: the frame sends the pitch bend for the drift and the
/// aftertouch of the held note, and the held note stays.
pub proof fn drift_bends_held_note(chan: usize, held: i32, note: i32, velocity: i32)
    requires
        note != held,
    ensures
        note_messages(chan, Some(held), true, note, velocity) == seq![
            Message::PitchBend { chan, bend: bend_spec(held as int, note as int) as i32 },
            Message::Aftertouch { chan, note: held, velocity },
        ],
        next_note(Some(held), true, note) == Some(held),
        0 <= bend_spec(held as int, note as int) <= 127,
{
}

/// The channels neither observe nor change each other: a frame on one
/// channel leaves the held note of every other channel as it was, so the
/// events that any frame on another channel gives rise to are the same
/// before and after.
pub proof fn channels_are_independent(
    before: OscSender,
    after: OscSender,
    chan: usize,
    target: bool,
    note: i32,
    other: usize,
    other_target: bool,
    other_note: i32,
    other_velocity: i32,
)
    requires
        before.stepped(&after, chan, target, note),
        other != chan,
    ensures
        after.held(other as int) == before.held(other as int),
        note_messages(other, after.held(other as int), other_target, other_note, other_velocity)
            == note_messages(
            other,
            before.held(other as int),
            other_target,
            other_note,
            other_velocity,
        ),
        next_note(after.held(other as int), other_target, other_note) == next_note(
            before.held(other as int),
            other_target,
            other_note,
        ),
{
}

} // verus!
