//! Simulation-wide configuration: the render scale factor, which physics
//! itself never reads, and the optional speed limit applied after each
//! step.

use vstd::prelude::*;
use crate::fx::FX_MAX;
use crate::fx::fx_wf;
use crate::fx::fx_mul_v;
use crate::fx::fx_mul;

verus! {

/// The kernel's configuration.  `scale` only feeds the host's transform
/// stage; a positive `max_speed` caps every body's linear speed once per
/// step.
#[derive(Clone, Copy, Debug, PartialEq, Eq, Structural)]
pub struct FishicsConfig {
    pub scale: i64,
    pub max_speed: i64,
    pub max_speed_squared: i64,
}

impl FishicsConfig {
    /// The squared limit is kept consistent with the limit.
    pub open spec fn wf(self) -> bool {
        &&& 0 <= self.max_speed <= FX_MAX
        &&& self.max_speed_squared == fx_mul_v(self.max_speed as int, self.max_speed as int)
        &&& fx_wf(self.max_speed_squared as int)
    }

    /// Caps every body's linear speed at the given limit from the next
    /// step on; zero turns the limiter off.  A limit whose square is not
    /// representable leaves the configuration unchanged.
    pub fn set_speed_limmit(&mut self, speed_limmit: i64)
        requires
            old(self).wf(),
        ensures
            final(self).wf(),
            0 <= speed_limmit <= FX_MAX && fx_wf(
                fx_mul_v(speed_limmit as int, speed_limmit as int),
            ) ==> *final(self) == (FishicsConfig {
                scale: old(self).scale,
                max_speed: speed_limmit,
                max_speed_squared: fx_mul_v(speed_limmit as int, speed_limmit as int) as i64,
            }),
            !(0 <= speed_limmit <= FX_MAX && fx_wf(
                fx_mul_v(speed_limmit as int, speed_limmit as int),
            )) ==> *final(self) == *old(self),
    {
        if speed_limmit < 0 || speed_limmit > FX_MAX {
            return ;
        }
        match fx_mul(speed_limmit, speed_limmit) {
            Some(sq) => {
                if sq >= 0 {
                    self.max_speed = speed_limmit;
                    self.max_speed_squared = sq;
                } else {
                    proof {
                        crate::fx::lemma_square_fx_nonneg(speed_limmit as int);
                    }
                }
            },
            None => {},
        }
    }

    pub fn max_speed(&self) -> (r: i64)
        ensures
            r == self.max_speed,
    {
        self.max_speed
    }

    pub fn max_speed_squared(&self) -> (r: i64)
        ensures
            r == self.max_speed_squared,
    {
        self.max_speed_squared
    }
}

impl Default for FishicsConfig {
    /// Render scale ten, no speed limit.
    fn default() -> (r: FishicsConfig)
        ensures
            r == (FishicsConfig { scale: 655360i64, max_speed: 0i64, max_speed_squared: 0i64 }),
            r.wf(),
    {
        FishicsConfig { scale: 655360, max_speed: 0, max_speed_squared: 0 }
    }
}

} // verus!
