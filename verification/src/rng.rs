use vstd::prelude::*;

verus! {

/// The seed a generator starts from when none is given.
pub const DEFAULT_SEED: u16 = 888;

/// The multiplier of the recurrence.
pub const LCG_A: u16 = 75;

/// The increment of the recurrence.
pub const LCG_C: u16 = 74;

/// A source of 16-bit values for the machine's random-byte instruction.
///
/// A source is a value like any other: what it yields next and what it turns
/// into are functions of the source alone, so a machine that owns its source
/// replays the same run from the same start.
pub trait EntropySource: Sized {
    /// The value that the next draw yields, or `None` if the source has run dry.
    spec fn upcoming(&self) -> Option<u16>;

    /// The source as that draw leaves it.
    spec fn advanced(&self) -> Self;

    /// Draws one value and advances the source.
    fn next(&mut self) -> (out: Option<u16>)
        ensures
            out == old(self).upcoming(),
            *final(self) == old(self).advanced(),
    ;
}

/// A linear congruential generator over 16 bits:
/// `seed <- (75 * seed + 74) mod 65536`, each draw returning the new seed.
#[derive(Clone, Copy, Debug, PartialEq, Eq, Structural)]
pub struct LinearCongruentialGenerator {
    pub seed: u16,
}

impl LinearCongruentialGenerator {
    /// One step of the recurrence.
    pub open spec fn successor(seed: u16) -> u16 {
        ((LCG_A * seed + LCG_C) % 0x10000) as u16
    }

    /// The seed after `draws` draws: the `draws`-th value of the sequence that
    /// starts behind `seed`.
    pub open spec fn nth(seed: u16, draws: nat) -> u16
        decreases draws,
    {
        if draws == 0 {
            seed
        } else {
            Self::successor(Self::nth(seed, (draws - 1) as nat))
        }
    }

    /// The generator after `draws` draws.
    pub open spec fn after(self, draws: nat) -> Self
        decreases draws,
    {
        if draws == 0 {
            self
        } else {
            self.after((draws - 1) as nat).advanced()
        }
    }

    /// The sequence is a function of the seed alone: after any number of
    /// draws a generator holds the value that the recurrence gives for its
    /// starting seed, so two generators started alike stay alike for ever.
    pub proof fn lemma_sequence_follows_seed(self, other: Self, draws: nat)
        requires
            self.seed == other.seed,
        ensures
            self.after(draws).seed == Self::nth(self.seed, draws),
            self.after(draws) == other.after(draws),
            self.after(draws).upcoming() == Some(Self::nth(self.seed, draws + 1)),
        decreases draws,
    {
        if draws > 0 {
            self.lemma_sequence_follows_seed(other, (draws - 1) as nat);
        }
    }
}

impl EntropySource for LinearCongruentialGenerator {
    open spec fn upcoming(&self) -> Option<u16> {
        Some(Self::successor(self.seed))
    }

    open spec fn advanced(&self) -> Self {
        LinearCongruentialGenerator { seed: Self::successor(self.seed) }
    }

    /// Advances the seed by one step of the recurrence and returns it; the
    /// sequence never ends.
    fn next(&mut self) -> (out: Option<u16>) {
        self.seed = LCG_A.wrapping_mul(self.seed).wrapping_add(LCG_C);
        Some(self.seed)
    }
}

impl Default for LinearCongruentialGenerator {
    /// A generator seeded with [`DEFAULT_SEED`].
    fn default() -> (out: Self)
        ensures
            out.seed == DEFAULT_SEED,
    {
        LinearCongruentialGenerator { seed: DEFAULT_SEED }
    }
}

} // verus!
