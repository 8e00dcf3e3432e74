//! The voice tracker: turns raw three-byte channel-voice messages into the
//! writes a single-voice instrument needs, and counts the keys held down.
//!
//! There is one pitch and one trigger. Every key press overrides the pitch,
//! and the trigger is released only when the last held key goes up.

use vstd::prelude::*;

verus! {

/// The engine slot that receives the pitch of the latest key press.
pub const PITCH_SLOT: usize = 0;

/// The engine slot that receives the trigger amplitude.
pub const TRIGGER_SLOT: usize = 1;

/// The key that sounds at the reference frequency.
pub const REFERENCE_KEY: u8 = 64;

/// The reference frequency in hertz.
pub const REFERENCE_HERTZ: u16 = 440;

/// How many keys make an octave.
pub const KEYS_PER_OCTAVE: u8 = 12;

/// The velocity that stands for full amplitude.
pub const FULL_VELOCITY: u8 = 127;

/// What a three-byte message means to the tracker.
#[derive(Copy, Clone, Debug, PartialEq, Eq)]
pub enum NoteMessage {
    /// A key went down.
    NoteOn { key: u8, velocity: u8 },
    /// A key went up.
    NoteOff { key: u8 },
    /// A message the tracker takes no notice of.
    Other,
}

/// What the engine has to be told after a message.
#[derive(Copy, Clone, Debug, PartialEq, Eq)]
pub enum VoiceAction {
    /// Nothing is written.
    Idle,
    /// The pitch slot takes the frequency of `key`, the trigger slot takes
    /// `velocity` over [`FULL_VELOCITY`].
    Strike { key: u8, velocity: u8 },
    /// The trigger slot takes 0.0.
    Release,
}

/// The meaning of a message, by its status byte: 0x80 to 0x8F releases the
/// key in the first data byte; 0x90 to 0x9F presses it with the velocity in
/// the second data byte, where velocity 0 is a release; every other status
/// means nothing here.
pub open spec fn decoded(packet: Seq<u8>) -> NoteMessage {
    if 0x80 <= packet[0] <= 0x8F {
        NoteMessage::NoteOff { key: packet[1] }
    } else if 0x90 <= packet[0] <= 0x9F {
        if packet[2] > 0 {
            NoteMessage::NoteOn { key: packet[1], velocity: packet[2] }
        } else {
            NoteMessage::NoteOff { key: packet[1] }
        }
    } else {
        NoteMessage::Other
    }
}

/// The count of held keys after one message: a press adds one, a release
/// takes one away but never below zero.
pub open spec fn held_after_message(held: nat, message: NoteMessage) -> nat {
    match message {
        NoteMessage::NoteOn { .. } => held + 1,
        NoteMessage::NoteOff { .. } => if held > 0 {
            (held - 1) as nat
        } else {
            0
        },
        NoteMessage::Other => held,
    }
}

/// What one message makes the engine do, given the count of held keys
/// before it: a press always strikes; a release lets the trigger go only
/// when no key stays held.
pub open spec fn action_for(held: nat, message: NoteMessage) -> VoiceAction {
    match message {
        NoteMessage::NoteOn { key, velocity } => VoiceAction::Strike { key, velocity },
        NoteMessage::NoteOff { .. } => if held_after_message(held, message) == 0 {
            VoiceAction::Release
        } else {
            VoiceAction::Idle
        },
        NoteMessage::Other => VoiceAction::Idle,
    }
}

/// The count of held keys after a batch of messages, taken in order.
pub open spec fn held_after(held: nat, packets: Seq<[u8; 3]>) -> nat
    decreases packets.len(),
{
    if packets.len() == 0 {
        held
    } else {
        held_after_message(held_after(held, packets.drop_last()), decoded(packets.last()@))
    }
}

/// The message at position `i` of a batch arrives with the counter below its
/// ceiling whenever it is a key press.
pub open spec fn press_fits(held: nat, packets: Seq<[u8; 3]>, i: int) -> bool {
    decoded(packets[i]@) is NoteOn ==> held_after(held, packets.take(i)) < u32::MAX
}

/// How far a key lies from the reference key, in keys.
pub open spec fn key_offset(key: u8) -> int {
    key - REFERENCE_KEY
}

/// Reads a message.
pub fn decode(packet: [u8; 3]) -> (message: NoteMessage)
    ensures
        message == decoded(packet@),
{
    let status = packet[0];
    if 0x80 <= status && status <= 0x8F {
        NoteMessage::NoteOff { key: packet[1] }
    } else if 0x90 <= status && status <= 0x9F {
        if packet[2] > 0 {
            NoteMessage::NoteOn { key: packet[1], velocity: packet[2] }
        } else {
            NoteMessage::NoteOff { key: packet[1] }
        }
    } else {
        NoteMessage::Other
    }
}

/// How far a key lies from [`REFERENCE_KEY`]: the pitch of the key is the
/// reference frequency times two to the power of this offset over
/// [`KEYS_PER_OCTAVE`].
pub fn semitones_from_reference(key: u8) -> (offset: i16)
    ensures
        offset == key_offset(key),
{
    key as i16 - REFERENCE_KEY as i16
}

/// Counts the keys held down.
#[derive(Copy, Clone, Debug, PartialEq, Eq)]
pub struct VoiceTracker {
    num_keys_down: u32,
}

impl VoiceTracker {
    /// The number of keys held down.
    pub closed spec fn held(&self) -> nat {
        self.num_keys_down as nat
    }

    /// A tracker with no key held.
    pub fn new() -> (tracker: VoiceTracker)
        ensures
            tracker.held() == 0,
    {
        VoiceTracker { num_keys_down: 0 }
    }

    /// The number of keys held down.
    pub fn num_keys_down(&self) -> (n: u32)
        ensures
            n == self.held(),
    {
        self.num_keys_down
    }

    /// A key goes down: the voice takes its pitch and velocity, and one more
    /// key is held.
    pub fn note_on(&mut self, key: u8, velocity: u8) -> (action: VoiceAction)
        requires
            old(self).held() < u32::MAX,
        ensures
            final(self).held() == old(self).held() + 1,
            action == (VoiceAction::Strike { key, velocity }),
    {
        self.num_keys_down = self.num_keys_down + 1;
        VoiceAction::Strike { key, velocity }
    }

    /// A key goes up: one key fewer is held, never fewer than none, and the
    /// trigger is released exactly when none is left.
    pub fn note_off(&mut self, key: u8) -> (action: VoiceAction)
        ensures
            old(self).held() >= 1 ==> final(self).held() == old(self).held() - 1,
            old(self).held() == 0 ==> final(self).held() == 0,
            final(self).held() == 0 ==> action == VoiceAction::Release,
            final(self).held() != 0 ==> action == VoiceAction::Idle,
    {
        self.num_keys_down = self.num_keys_down.saturating_sub(1);
        if self.num_keys_down == 0 {
            VoiceAction::Release
        } else {
            VoiceAction::Idle
        }
    }

    /// Handles one message.
    pub fn process_midi_event(&mut self, packet: [u8; 3]) -> (action: VoiceAction)
        requires
            decoded(packet@) is NoteOn ==> old(self).held() < u32::MAX,
        ensures
            final(self).held() == held_after_message(old(self).held(), decoded(packet@)),
            action == action_for(old(self).held(), decoded(packet@)),
    {
        match decode(packet) {
            NoteMessage::NoteOff { key } => self.note_off(key),
            NoteMessage::NoteOn { key, velocity } => self.note_on(key, velocity),
            NoteMessage::Other => VoiceAction::Idle,
        }
    }

    /// Handles a batch of messages in the order given, and returns one
    /// action for each.
    pub fn process_events(&mut self, packets: &[[u8; 3]]) -> (actions: Vec<VoiceAction>)
        requires
            forall|i: int| 0 <= i < packets@.len() ==> press_fits(old(self).held(), packets@, i),
        ensures
            final(self).held() == held_after(old(self).held(), packets@),
            actions@.len() == packets@.len(),
            forall|i: int|
                0 <= i < packets@.len() ==> #[trigger] actions@[i] == action_for(
                    held_after(old(self).held(), packets@.take(i)),
                    decoded(packets@[i]@),
                ),
    {
        let mut actions: Vec<VoiceAction> = Vec::new();
        let n = packets.len();
        let mut i: usize = 0;
        assert(packets@.take(0) =~= Seq::<[u8; 3]>::empty());
        while i < n
            invariant
                i <= n,
                n == packets@.len(),
                forall|k: int|
                    0 <= k < packets@.len() ==> press_fits(old(self).held(), packets@, k),
                self.held() == held_after(old(self).held(), packets@.take(i as int)),
                actions@.len() == i,
                forall|k: int|
                    0 <= k < i ==> #[trigger] actions@[k] == action_for(
                        held_after(old(self).held(), packets@.take(k)),
                        decoded(packets@[k]@),
                    ),
            decreases n - i,
        {
            let packet = packets[i];
            assert(press_fits(old(self).held(), packets@, i as int));
            let action = self.process_midi_event(packet);
            actions.push(action);
            proof {
                let next = packets@.take(i + 1);
                assert(next.drop_last() =~= packets@.take(i as int));
                assert(next.last() == packets@[i as int]);
            }
            i = i + 1;
        }
        assert(packets@.take(n as int) =~= packets@);
        actions
    }
}

/// A batch that fits: the counter never has to pass its ceiling when the
/// batch is no longer than the room left above the current count.
pub proof fn lemma_short_batch_fits(held: nat, packets: Seq<[u8; 3]>)
    requires
        held + packets.len() <= u32::MAX,
    ensures
        forall|i: int| 0 <= i < packets.len() ==> press_fits(held, packets, i),
{
    assert forall|i: int| 0 <= i < packets.len() implies press_fits(held, packets, i) by {
        lemma_held_after_bounds(held, packets.take(i));
    }
}

/// A batch moves the counter by at most its length, and never below zero.
pub proof fn lemma_held_after_bounds(held: nat, packets: Seq<[u8; 3]>)
    ensures
        held_after(held, packets) <= held + packets.len(),
        held_after(held, packets) + packets.len() >= held,
    decreases packets.len(),
{
    if packets.len() > 0 {
        lemma_held_after_bounds(held, packets.drop_last());
    }
}

/// Releases that no press came before cannot push the counter below zero:
/// after a batch of nothing but releases the counter stands at the old count
/// less the number of releases, or at zero where there were more releases
/// than held keys.
pub proof fn lemma_releases_saturate(held: nat, packets: Seq<[u8; 3]>)
    requires
        forall|i: int| 0 <= i < packets.len() ==> decoded(#[trigger] packets[i]@) is NoteOff,
    ensures
        held_after(held, packets) == if held >= packets.len() {
            held - packets.len()
        } else {
            0
        },
    decreases packets.len(),
{
    if packets.len() > 0 {
        let front = packets.drop_last();
        assert forall|i: int| 0 <= i < front.len() implies decoded(
            #[trigger] front[i]@,
        ) is NoteOff by {
            assert(front[i] == packets[i]);
        }
        lemma_releases_saturate(held, front);
        assert(decoded(packets[packets.len() - 1]@) is NoteOff);
    }
}

} // verus!
