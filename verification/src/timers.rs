//! The delay timer and the sound timer.

use vstd::prelude::*;

verus! {

/// What one tick makes of a timer value: one less, and zero stays zero.
pub open spec fn ticked(value: u8) -> u8 {
    if value > 0 {
        (value - 1) as u8
    } else {
        0
    }
}

/// Two independent byte counters that count down to zero, one step per tick.
///
/// The buzzer is meant to sound for as long as the sound timer is not zero.
pub struct Timers {
    delay: u8,
    sound: u8,
}

impl Timers {
    /// The delay timer's value in contracts.
    pub closed spec fn spec_delay(&self) -> u8 {
        self.delay
    }

    /// The sound timer's value in contracts.
    pub closed spec fn spec_sound(&self) -> u8 {
        self.sound
    }

    /// Both timers at rest.
    pub fn new() -> (timers: Self)
        ensures
            timers.spec_delay() == 0,
            timers.spec_sound() == 0,
    {
        Self { delay: 0, sound: 0 }
    }

    /// One tick: each timer that is not zero loses one.
    pub fn update(&mut self)
        ensures
            final(self).spec_delay() == ticked(old(self).spec_delay()),
            final(self).spec_sound() == ticked(old(self).spec_sound()),
    {
        if self.delay > 0 {
            self.delay -= 1;
        }
        if self.sound > 0 {
            self.sound -= 1;
        }
    }

    #[verifier::when_used_as_spec(spec_delay)]
    pub fn delay(&self) -> (value: u8)
        ensures
            value == self.spec_delay(),
    {
        self.delay
    }

    pub fn set_delay(&mut self, value: u8)
        ensures
            final(self).spec_delay() == value,
            final(self).spec_sound() == old(self).spec_sound(),
    {
        self.delay = value;
    }

    #[verifier::when_used_as_spec(spec_sound)]
    pub fn sound(&self) -> (value: u8)
        ensures
            value == self.spec_sound(),
    {
        self.sound
    }

    pub fn set_sound(&mut self, value: u8)
        ensures
            final(self).spec_sound() == value,
            final(self).spec_delay() == old(self).spec_delay(),
    {
        self.sound = value;
    }
}

} // verus!
