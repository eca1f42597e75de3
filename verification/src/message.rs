//! The outgoing messages: what the listener asks the transport to send.
//!
//! Every message has an address, a path-like name that the receiver
//! dispatches on, and one integer argument.

use crate::decimal::{decimal, digits, push_decimal, push_digits};
use crate::wire::int_message;
use vstd::prelude::*;
use vstd::string::StringExecFns;
use vstd::utf8::encode_utf8;

verus! {

/// One outgoing control message.
///
/// Channels are counted from 0 here and from 1 in addresses.
#[derive(Clone, Copy, Debug, PartialEq, Eq, Structural)]
pub enum Message {
    /// A continuous parameter: the mapped coordinate of one axis.
    Param { index: usize, value: i32 },
    /// A note starts sounding on a channel.
    NoteOn { chan: usize, note: i32, velocity: i32 },
    /// The held note of a channel stops.
    NoteOff { chan: usize, note: i32 },
    /// The hand drifted away from the held note's position.
    PitchBend { chan: usize, bend: i32 },
    /// The intensity of the held note, sent along with a pitch bend.
    Aftertouch { chan: usize, note: i32, velocity: i32 },
}

/// The address of a continuous parameter.
pub open spec fn param_address(index: int) -> Seq<char> {
    "/device/param/"@ + digits(index as nat) + "/value"@
}

/// The address under which a note is switched on and off.
pub open spec fn note_address(chan: int, note: int) -> Seq<char> {
    "/vkb_midi/"@ + digits((chan + 1) as nat) + "/note/"@ + decimal(note)
}

/// The address of a channel's pitch bend.
pub open spec fn pitchbend_address(chan: int) -> Seq<char> {
    "/vkb_midi/"@ + digits((chan + 1) as nat) + "/pitchbend"@
}

/// The address of the aftertouch of a held note.
pub open spec fn aftertouch_address(chan: int, note: int) -> Seq<char> {
    "/vkb_midi/"@ + digits((chan + 1) as nat) + "/aftertouch/"@ + decimal(note)
}

impl Message {
    /// The address the message is sent to.
    pub open spec fn address_spec(self) -> Seq<char> {
        match self {
            Message::Param { index, .. } => param_address(index as int),
            Message::NoteOn { chan, note, .. } => note_address(chan as int, note as int),
            Message::NoteOff { chan, note } => note_address(chan as int, note as int),
            Message::PitchBend { chan, .. } => pitchbend_address(chan as int),
            Message::Aftertouch { chan, note, .. } => aftertouch_address(chan as int, note as int),
        }
    }

    /// The integer argument of the message. A note-off is a note message with
    /// velocity 0.
    pub open spec fn value_spec(self) -> int {
        match self {
            Message::Param { value, .. } => value as int,
            Message::NoteOn { velocity, .. } => velocity as int,
            Message::NoteOff { .. } => 0,
            Message::PitchBend { bend, .. } => bend as int,
            Message::Aftertouch { velocity, .. } => velocity as int,
        }
    }

    /// The datagram that carries the message: its address in UTF-8 and its
    /// argument.
    pub open spec fn datagram_spec(self) -> Seq<u8> {
        int_message(encode_utf8(self.address_spec()), self.value_spec() as i32)
    }

    /// Builds the address the message is sent to.
    pub fn address(&self) -> (addr: String)
        ensures
            addr@ == self.address_spec(),
    {
        match *self {
            Message::Param { index, .. } => {
                let mut addr = String::from_str("/device/param/");
                push_digits(&mut addr, index as u128);
                addr.append("/value");
                addr
            },
            Message::NoteOn { chan, note, .. } | Message::NoteOff { chan, note } => {
                let mut addr = channel_prefix(chan);
                addr.append("/note/");
                push_decimal(&mut addr, note as i64);
                addr
            },
            Message::PitchBend { chan, .. } => {
                let mut addr = channel_prefix(chan);
                addr.append("/pitchbend");
                addr
            },
            Message::Aftertouch { chan, note, .. } => {
                let mut addr = channel_prefix(chan);
                addr.append("/aftertouch/");
                push_decimal(&mut addr, note as i64);
                addr
            },
        }
    }

    /// The integer argument of the message.
    pub fn value(&self) -> (v: i32)
        ensures
            v == self.value_spec(),
    {
        match *self {
            Message::Param { value, .. } => value,
            Message::NoteOn { velocity, .. } => velocity,
            Message::NoteOff { .. } => 0,
            Message::PitchBend { bend, .. } => bend,
            Message::Aftertouch { velocity, .. } => velocity,
        }
    }
}

/// The part of an address that all messages of one channel share.
fn channel_prefix(chan: usize) -> (addr: String)
    ensures
        addr@ == "/vkb_midi/"@ + digits((chan + 1) as nat),
{
    let mut addr = String::from_str("/vkb_midi/");
    push_digits(&mut addr, chan as u128 + 1);
    addr
}

} // verus!
