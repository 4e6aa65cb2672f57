//! The fixed speed multipliers at which the host delivers ticks.

use vstd::prelude::*;

verus! {

/// The tick period at normal speed, in milliseconds.
pub const BASE_MILLISECONDS_PER_TICK: u32 = 200;

/// The speed at which game time passes.
///
/// Pausing, resuming and changing the multiplier are host-side
/// operations that only affect tick delivery cadence, never the
/// simulation itself.
#[derive(Debug, Copy, Clone, PartialEq, Eq, Hash, Structural)]
pub enum GameSpeed {
    /// 1x game speed
    Normal,
    /// 2x game speed
    Fast,
    /// 4x game speed
    Faster,
}

impl GameSpeed {
    /// The number of milliseconds to wait between ticks.
    pub fn milliseconds_per_tick(self) -> (ms: u32)
        ensures
            ms == match self {
                GameSpeed::Normal => BASE_MILLISECONDS_PER_TICK as int,
                GameSpeed::Fast => BASE_MILLISECONDS_PER_TICK as int / 2,
                GameSpeed::Faster => BASE_MILLISECONDS_PER_TICK as int / 4,
            },
    {
        match self {
            GameSpeed::Normal => BASE_MILLISECONDS_PER_TICK,
            GameSpeed::Fast => BASE_MILLISECONDS_PER_TICK / 2,
            GameSpeed::Faster => BASE_MILLISECONDS_PER_TICK / 4,
        }
    }
}

} // verus!
