//! The frame handler: what one tracking frame makes of the two hands.
//!
//! Channel 0 follows the leftmost hand, and only while two hands are
//! tracked, since a single hand counts as the right one. Channel 1 follows
//! the rightmost hand.

use crate::axes::{
    note_bounds, param_bounds, velocity_bounds, AxisMapping, Coordinate, NOTE_BASE, NOTE_MAX,
    PARAM_MAX, VELOCITY_BASE, VELOCITY_MAX,
};
use crate::message::Message;
use crate::range::remap_spec;
use crate::sender::{next_note, note_messages, OscSender, CHANNELS};
use vstd::prelude::*;

verus! {

/// The number of axes of a coordinate.
pub const AXES: usize = 3;

/// The distance between the parameter numbers of the two channels.
pub const PARAM_STRIDE: usize = 4;

/// Whether a frame with `hands` tracked hands has a hand for channel `chan`.
pub open spec fn visible_spec(chan: int, hands: int) -> bool {
    if chan == 0 {
        hands > 1
    } else {
        hands > 0
    }
}

/// The continuous parameter of `axis` for a palm on channel `chan`.
/// Parameters are numbered from 1 on channel 0 and from 5 on channel 1.
pub open spec fn param_message(chan: int, palm: Coordinate, axis: int) -> Message {
    Message::Param {
        index: (axis + 1 + PARAM_STRIDE * chan) as usize,
        value: remap_spec(
            palm.axis_spec(axis) as int,
            param_bounds(chan, axis).0,
            param_bounds(chan, axis).1,
            PARAM_MAX as int,
        ) as i32,
    }
}

/// The continuous parameters of a palm on channel `chan`, one per axis.
pub open spec fn param_messages(chan: int, palm: Coordinate) -> Seq<Message> {
    Seq::new(AXES as nat, |axis: int| param_message(chan, palm, axis))
}

/// The note that the height of a palm stands for.
pub open spec fn candidate_note(palm: Coordinate) -> int {
    remap_spec(palm.y as int, note_bounds().0, note_bounds().1, NOTE_MAX as int) + NOTE_BASE
}

/// The velocity that the sideways reach of a palm on channel `chan` stands
/// for.
pub open spec fn candidate_velocity(chan: int, palm: Coordinate) -> int {
    remap_spec(palm.x as int, velocity_bounds(chan).0, velocity_bounds(chan).1, VELOCITY_MAX as int)
        + VELOCITY_BASE
}

/// The messages of one frame on channel `chan`. A hand that is there is
/// present wherever its palm is: it sends its continuous parameters and then
/// the events of the channel. Without a hand the held note is released, if
/// there is one.
pub open spec fn hand_messages(
    chan: usize,
    held: Option<i32>,
    visible: bool,
    palm: Coordinate,
) -> Seq<Message> {
    if visible {
        param_messages(chan as int, palm) + note_messages(
            chan,
            held,
            true,
            candidate_note(palm) as i32,
            candidate_velocity(chan as int, palm) as i32,
        )
    } else {
        note_messages(chan, held, false, 0, 0)
    }
}

/// The held note of a channel after one frame.
pub open spec fn hand_next(held: Option<i32>, visible: bool, palm: Coordinate) -> Option<i32> {
    if visible {
        next_note(held, true, candidate_note(palm) as i32)
    } else {
        next_note(held, false, 0)
    }
}

/// Receives the tracking frames and keeps the state of both channels.
pub struct MyListener {
    sender: OscSender,
}

impl MyListener {
    /// The note that channel `chan` holds.
    pub closed spec fn held(&self, chan: int) -> Option<i32> {
        self.sender.held(chan)
    }

    /// The sender, with the state of the channels.
    pub fn sender(&self) -> (sender: &OscSender)
        ensures
            forall|chan: int| sender.held(chan) == self.held(chan),
    {
        &self.sender
    }

    /// Whether a frame with `hands` tracked hands has a hand for channel
    /// `chan`, so that its palm is worth reading.
    pub fn visible(chan: usize, hands: i32) -> (visible: bool)
        ensures
            visible == visible_spec(chan as int, hands as int),
    {
        if chan == 0 {
            hands > 1
        } else {
            hands > 0
        }
    }

    /// The continuous parameters of a palm on channel `chan`.
    fn params(chan: usize, palm: &Coordinate) -> (out: Vec<Message>)
        requires
            chan < CHANNELS,
        ensures
            out@ == param_messages(chan as int, *palm),
    {
        let mut out: Vec<Message> = Vec::new();
        let mut axis: usize = 0;
        while axis < AXES
            invariant
                chan < CHANNELS,
                axis <= AXES,
                out@ == Seq::new(axis as nat, |a: int| param_message(chan as int, *palm, a)),
            decreases AXES - axis,
        {
            let value: i32 = AxisMapping::param(chan, axis).remap(palm.axis(axis));
            out.push(Message::Param { index: axis + 1 + PARAM_STRIDE * chan, value });
            axis = axis + 1;
        }
        out
    }

    /// One frame on channel `chan`: `palm` is read only if the hand is `visible`.
    fn hand(&mut self, chan: usize, visible: bool, palm: &Coordinate) -> (out: Vec<Message>)
        requires
            chan < CHANNELS,
        ensures
            out@ == hand_messages(chan, old(self).held(chan as int), visible, *palm),
            final(self).held(chan as int) == hand_next(old(self).held(chan as int), visible, *palm),
            forall|other: int| other != chan ==> final(self).held(other) == old(self).held(other),
    {
        if visible {
            let mut out: Vec<Message> = Self::params(chan, palm);
            let note: i32 = AxisMapping::note().remap(palm.y) + NOTE_BASE;
            let velocity: i32 = AxisMapping::velocity(chan).remap(palm.x) + VELOCITY_BASE;
            let mut events: Vec<Message> = self.sender.maybe_note(chan, true, note, velocity);
            out.append(&mut events);
            out
        } else {
            self.sender.maybe_note(chan, false, 0, 0)
        }
    }

    /// Handles one tracking frame with `hands` tracked hands. `leftmost` is
    /// read only if there are at least two hands, `rightmost` only if there
    /// is at least one. Returns the messages to send, in order: those of
    /// channel 0, then those of channel 1.
    #[allow(non_snake_case)]
    pub fn onFrame(&mut self, hands: i32, leftmost: Coordinate, rightmost: Coordinate) -> (out: Vec<
        Message,
    >)
        ensures
            out@ == hand_messages(0, old(self).held(0), visible_spec(0, hands as int), leftmost)
                + hand_messages(1, old(self).held(1), visible_spec(1, hands as int), rightmost),
            final(self).held(0) == hand_next(
                old(self).held(0),
                visible_spec(0, hands as int),
                leftmost,
            ),
            final(self).held(1) == hand_next(
                old(self).held(1),
                visible_spec(1, hands as int),
                rightmost,
            ),
    {
        let mut out: Vec<Message> = self.hand(0, Self::visible(0, hands), &leftmost);
        let mut right: Vec<Message> = self.hand(1, Self::visible(1, hands), &rightmost);
        out.append(&mut right);
        out
    }
}

impl Default for MyListener {
    /// A listener with both channels silent.
    fn default() -> (listener: MyListener)
        ensures
            forall|chan: int| listener.held(chan) is None,
    {
        MyListener { sender: OscSender::default() }
    }
}

/// A hand that is there is present, wherever its palm is: over a silent
/// channel it starts the note of its palm, and a held note is released only
/// when the hand is gone.
pub proof fn tracked_hand_is_present(chan: usize, held: i32, palm: Coordinate)
    ensures
        hand_messages(chan, None, true, palm) == param_messages(chan as int, palm) + seq![
            Message::NoteOn {
                chan,
                note: candidate_note(palm) as i32,
                velocity: candidate_velocity(chan as int, palm) as i32,
            },
        ],
        hand_next(None, true, palm) == Some(candidate_note(palm) as i32),
        hand_next(Some(held), true, palm) == Some(held),
        hand_messages(chan, Some(held), false, palm) == seq![Message::NoteOff { chan, note: held }],
        hand_next(Some(held), false, palm) == None::<i32>,
{
}

/// A hand that holds still sends nothing but its continuous parameters:
/// once the channel is on the note of the palm, a further frame with the
/// same palm starts no note and bends none.
pub proof fn steady_hand_sends_parameters_only(chan: usize, held: Option<i32>, palm: Coordinate)
    requires
        held is None || held == Some(candidate_note(palm) as i32),
    ensures
        hand_messages(chan, hand_next(held, true, palm), true, palm) == param_messages(
            chan as int,
            palm,
        ),
        hand_next(hand_next(held, true, palm), true, palm) == hand_next(held, true, palm),
{
}

} // verus!
