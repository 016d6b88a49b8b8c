//! The audio adapter: an on/off tone that follows the core's sound timer.

use vstd::prelude::*;

verus! {

/// Whether a tone is currently sounding.
pub struct Sound {
    is_playing: bool,
}

impl View for Sound {
    type V = bool;

    /// The adapter's whole state: `true` while the tone is on.
    closed spec fn view(&self) -> bool {
        self.is_playing
    }
}

impl Sound {
    /// A silent adapter.
    pub fn new() -> (sound: Sound)
        ensures
            !sound@,
    {
        Sound { is_playing: false }
    }

    /// Turns the tone on. The result tells the caller whether the tone was off
    /// before, which is when an audible signal has to be emitted; starting a
    /// tone that already sounds changes nothing and returns `false`.
    pub fn start(&mut self) -> (ring: bool)
        ensures
            final(self)@,
            ring == !old(self)@,
    {
        if !self.is_playing {
            self.is_playing = true;
            true
        } else {
            false
        }
    }

    /// Turns the tone off.
    pub fn stop(&mut self)
        ensures
            !final(self)@,
    {
        self.is_playing = false;
    }

    /// Whether the tone is on.
    pub fn is_playing(&self) -> (playing: bool)
        ensures
            playing == self@,
    {
        self.is_playing
    }

    /// Follows the observed sound timer: the tone is on exactly while the timer
    /// is nonzero. The result is `true` when this call switched the tone on.
    pub fn update(&mut self, sound_timer: u8) -> (ring: bool)
        ensures
            final(self)@ == (sound_timer > 0),
            ring == (sound_timer > 0 && !old(self)@),
    {
        if sound_timer > 0 {
            self.start()
        } else {
            self.stop();
            false
        }
    }
}

} // verus!
