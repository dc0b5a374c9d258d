//! Choosing the framebuffer configuration for the window.
//!
//! The window system offers a list of configurations. Of each only two traits
//! matter here: whether it can make a transparent surface, and how many
//! samples its multisample buffer has.

use vstd::prelude::*;

verus! {

/// What the picker reads of one framebuffer configuration.
#[derive(Clone, Copy, Debug, PartialEq, Eq)]
pub struct ConfigTraits {
    /// Whether transparent surfaces are supported; `None` where the window
    /// system could not tell.
    pub supports_transparency: Option<bool>,
    /// Samples in the multisample buffer; zero means no multisampling.
    pub num_samples: u8,
}

impl ConfigTraits {
    /// Transparency counts only where it is known to be supported.
    pub open spec fn transparent(self) -> bool {
        self.supports_transparency == Some(true)
    }
}

/// A candidate replaces the configuration held so far if it brings
/// transparency that the held one lacks, or if it has more samples.
pub open spec fn preferred(candidate: ConfigTraits, held: ConfigTraits) -> bool {
    (candidate.transparent() && !held.transparent()) || candidate.num_samples > held.num_samples
}

/// The position of the configuration that is held after going through
/// `configs` from the front, starting with the first and replacing the held
/// one by every candidate that is preferred to it.
pub open spec fn picked(configs: Seq<ConfigTraits>) -> int
    decreases configs.len(),
{
    if configs.len() <= 1 {
        0
    } else {
        let held = picked(configs.drop_last());
        if preferred(configs.last(), configs[held]) {
            configs.len() - 1
        } else {
            held
        }
    }
}

/// The pick is one of the configurations, and none that comes after it is
/// preferred to it.
pub proof fn lemma_picked_is_not_bettered_later(configs: Seq<ConfigTraits>)
    requires
        configs.len() > 0,
    ensures
        0 <= picked(configs) < configs.len(),
        forall|j: int| picked(configs) < j < configs.len() ==> !preferred(configs[j], configs[picked(configs)]),
    decreases configs.len(),
{
    if configs.len() > 1 {
        let front = configs.drop_last();
        lemma_picked_is_not_bettered_later(front);
        assert forall|j: int| picked(configs) < j < configs.len() implies !preferred(
            configs[j],
            configs[picked(configs)],
        ) by {
            if j < front.len() {
                assert(front[j] == configs[j]);
            }
        }
    }
}

fn is_transparent(config: &ConfigTraits) -> (yes: bool)
    ensures
        yes == config.transparent(),
{
    match config.supports_transparency {
        Some(known) => known,
        None => false,
    }
}

/// Picks a configuration out of a list that is not empty; the result is its
/// position in the list.
pub fn gl_config_picker(configs: &Vec<ConfigTraits>) -> (choice: usize)
    requires
        configs.len() > 0,
    ensures
        choice == picked(configs@),
        choice < configs.len(),
        forall|j: int| choice < j < configs.len() ==> !preferred(configs[j], configs[choice as int]),
{
    let mut held: usize = 0;
    let mut i: usize = 1;
    assert(configs@.take(1).len() == 1);
    while i < configs.len()
        invariant
            1 <= i <= configs.len(),
            held < i,
            held == picked(configs@.take(i as int)),
        decreases configs.len() - i,
    {
        let candidate = &configs[i];
        let current = &configs[held];
        let gains_transparency = is_transparent(candidate) && !is_transparent(current);
        proof {
            let upto = configs@.take(i as int + 1);
            assert(upto.drop_last() =~= configs@.take(i as int));
            assert(upto.last() == configs[i as int]);
            assert(upto[held as int] == configs[held as int]);
        }
        if gains_transparency || candidate.num_samples > current.num_samples {
            held = i;
        }
        i += 1;
    }
    proof {
        assert(configs@.take(configs.len() as int) =~= configs@);
        lemma_picked_is_not_bettered_later(configs@);
    }
    held
}

} // verus!
