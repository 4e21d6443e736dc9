//! Background clouds: they drift left and reappear on the right with new looks.
use vstd::prelude::*;
use crate::geometry::{ONE};
use crate::random::random_below;

verus! {

/// A cloud whose left edge passes this point (a fraction of the width) reappears.
pub const CLOUD_EXIT_X: i64 = -500_000;
/// How far past the right edge a cloud may reappear.
pub const CLOUD_ENTRY_SPREAD: u32 = 200_000;
pub const CLOUD_MIN_Y: u32 = 50_000;
pub const CLOUD_MAX_Y: u32 = 300_000;
pub const CLOUD_MIN_SPEED: u32 = 50_000;
pub const CLOUD_MAX_SPEED: u32 = 60_000;
pub const CLOUD_MIN_SIZE: u32 = 300_000;
pub const CLOUD_MAX_SIZE: u32 = 400_000;
/// Sprites in the cloud sheet.
pub const CLOUD_SPRITES: u32 = 4;

#[derive(Clone, Copy, Debug)]
pub struct Cloud {
    /// Left edge, a fraction of the viewport width.
    pub x_percent: i64,
    /// Bottom of the cloud, a fraction of the viewport height.
    pub y_percent: i64,
    /// Drift, in millionths of the width per second.
    pub speed_percent: i64,
    /// Size, a fraction of the viewport height.
    pub size_percent: i64,
    /// Which sprite of the sheet it shows.
    pub sprite_index: usize,
}

impl Cloud {
    /// The looks a cloud may take: each within its documented range.
    pub open spec fn looks_in_range(&self) -> bool {
        &&& CLOUD_MIN_Y <= self.y_percent < CLOUD_MAX_Y
        &&& CLOUD_MIN_SPEED <= self.speed_percent < CLOUD_MAX_SPEED
        &&& CLOUD_MIN_SIZE <= self.size_percent < CLOUD_MAX_SIZE
        &&& self.sprite_index < CLOUD_SPRITES
    }

    pub open spec fn wf(&self) -> bool {
        &&& self.looks_in_range()
        &&& CLOUD_EXIT_X <= self.x_percent < ONE + CLOUD_ENTRY_SPREAD
    }

    /// A cloud just past the right edge, with random looks.
    pub fn new() -> (c: Cloud)
        ensures
            c.wf(),
            ONE <= c.x_percent,
    {
        let x = ONE + random_below(0, CLOUD_ENTRY_SPREAD) as i64;
        let y = random_below(CLOUD_MIN_Y, CLOUD_MAX_Y) as i64;
        let speed = random_below(CLOUD_MIN_SPEED, CLOUD_MAX_SPEED) as i64;
        let size = random_below(CLOUD_MIN_SIZE, CLOUD_MAX_SIZE) as i64;
        let sprite = random_below(0, CLOUD_SPRITES) as usize;
        Cloud { x_percent: x, y_percent: y, speed_percent: speed, size_percent: size, sprite_index: sprite }
    }

    /// Drifts left for `dt` milliseconds; past `CLOUD_EXIT_X` it reappears just
    /// past the right edge with a new height, size and sprite, keeping its drift.
    pub fn update(&mut self, dt: u32)
        requires
            old(self).wf(),
        ensures
            final(self).wf(),
            final(self).speed_percent == old(self).speed_percent,
            old(self).x_percent - old(self).speed_percent * dt / 1000 >= CLOUD_EXIT_X
                ==> *final(self) == (Cloud {
                x_percent: (old(self).x_percent - old(self).speed_percent * dt / 1000) as i64,
                ..*old(self)
            }),
            old(self).x_percent - old(self).speed_percent * dt / 1000 < CLOUD_EXIT_X ==> ONE
                <= final(self).x_percent,
    {
        assert(0 <= self.speed_percent * dt <= CLOUD_MAX_SPEED * u32::MAX) by (nonlinear_arith)
            requires
                0 <= self.speed_percent <= CLOUD_MAX_SPEED,
                0 <= dt <= u32::MAX,
        ;
        self.x_percent = self.x_percent - self.speed_percent * dt as i64 / 1000;
        if self.x_percent < CLOUD_EXIT_X {
            self.x_percent = ONE + random_below(0, CLOUD_ENTRY_SPREAD) as i64;
            self.y_percent = random_below(CLOUD_MIN_Y, CLOUD_MAX_Y) as i64;
            self.size_percent = random_below(CLOUD_MIN_SIZE, CLOUD_MAX_SIZE) as i64;
            self.sprite_index = random_below(0, CLOUD_SPRITES) as usize;
        }
    }
}

} // verus!
