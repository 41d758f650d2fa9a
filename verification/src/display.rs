//! Choosing among the framebuffer configurations that a display offers.

use vstd::prelude::*;

verus! {

/// What the choice looks at in a framebuffer configuration.
#[derive(Clone, Copy, Debug, PartialEq, Eq)]
pub struct ConfigTraits {
    /// Whether the configuration can be drawn see-through, where the display
    /// can tell.
    pub supports_transparency: Option<bool>,
    /// The number of samples per pixel.
    pub num_samples: u8,
}

impl ConfigTraits {
    /// The configuration is known to be see-through.
    pub open spec fn transparent(self) -> bool {
        self.supports_transparency == Some(true)
    }

    /// The configuration wins against `held`, the one chosen so far: it is
    /// see-through where `held` is not, or it has more samples.
    pub open spec fn beats(self, held: ConfigTraits) -> bool {
        (self.transparent() && !held.transparent()) || self.num_samples > held.num_samples
    }
}

/// The position of the configuration that is chosen among the first `count`
/// of `configs`: the first one to begin with, then each that beats the one
/// held when its turn comes.
pub open spec fn picked_among(configs: Seq<ConfigTraits>, count: nat) -> int
    decreases count,
{
    if count <= 1 {
        0
    } else {
        let held = picked_among(configs, (count - 1) as nat);
        if configs[count - 1].beats(configs[held]) {
            count - 1
        } else {
            held
        }
    }
}

/// Picks a configuration: the position in `configs` of the one that is left
/// after each in turn has been held against the one chosen so far.
pub fn gl_config_picker(configs: &Vec<ConfigTraits>) -> (picked: usize)
    requires
        configs@.len() > 0,
    ensures
        picked == picked_among(configs@, configs@.len()),
        picked < configs@.len(),
{
    let mut picked: usize = 0;
    let mut at: usize = 1;
    while at < configs.len()
        invariant
            1 <= at <= configs@.len(),
            picked < at,
            picked == picked_among(configs@, at as nat),
        decreases configs@.len() - at,
    {
        let config = configs[at];
        let held = configs[picked];
        let transparency_check = config.supports_transparency.unwrap_or(false)
            && !held.supports_transparency.unwrap_or(false);
        if transparency_check || config.num_samples > held.num_samples {
            picked = at;
        }
        at += 1;
    }
    picked
}

} // verus!
