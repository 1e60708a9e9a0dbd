//! One LED channel: a simulator and the table that turns its samples into
//! duty counts. The caller owns the hardware and the clock; once per tick it
//! asks the channel for the next duty count and writes it out.

use crate::config::FireConfig;
use crate::flicker::{initial, intensity_of, tick, FireState, FlickerModel};
use crate::lut::{duty_of, BrightnessTable};
use vstd::prelude::*;

verus! {

/// The per-channel state of the output driver.
pub struct Channel {
    sim: FireState,
    table: BrightnessTable,
}

impl Channel {
    /// The configuration of the channel's simulator.
    pub closed spec fn config(&self) -> FireConfig {
        self.sim.config()
    }

    /// The state of the channel's simulator.
    pub closed spec fn state(&self) -> FlickerModel {
        self.sim@
    }

    /// The PWM period in counter steps that the duty counts are scaled to.
    pub closed spec fn top_counts(&self) -> u16 {
        self.table.top_counts()
    }

    /// Makes a channel whose simulator starts from `seed`, which must not
    /// be zero, and whose duty counts range over `0..=top_counts`.
    pub fn new(cfg: FireConfig, seed: u32, top_counts: u16) -> (ch: Self)
        requires
            cfg.wf(),
            seed != 0,
        ensures
            ch.config() == cfg,
            ch.state() == initial(cfg, seed),
            ch.top_counts() == top_counts,
    {
        Channel { sim: FireState::new(cfg, seed), table: BrightnessTable::new(top_counts) }
    }

    /// Advances the simulator by one tick and returns the duty count to
    /// write: the new intensity mapped through the brightness table. The
    /// count never exceeds the period.
    pub fn next_duty(&mut self) -> (duty: u16)
        ensures
            final(self).config() == old(self).config(),
            final(self).top_counts() == old(self).top_counts(),
            final(self).state() == tick(old(self).config(), old(self).state()),
            duty == duty_of(intensity_of(final(self).state()), old(self).top_counts()),
            duty <= old(self).top_counts(),
    {
        let intensity = self.sim.update();
        self.table.duty(intensity)
    }
}

} // verus!
