//! Rarity tiers, card traits, and the bands that turn a roll into a tier.

use vstd::prelude::*;

verus! {

/// A rarity tier. Each tier has its own pool of card types.
#[derive(Clone, Copy, Debug, PartialEq, Eq, Structural)]
pub enum Rarity {
    Common,
    Rare,
    Legendary,
}

/// The category of a card.
#[derive(Clone, Copy, Debug, PartialEq, Eq, Structural)]
pub enum TraitType {
    Warrior,
    Archer,
    Assassin,
}

impl Rarity {
    /// The tier's position in the fixed order Common, Rare, Legendary.
    pub open spec fn index(self) -> int {
        match self {
            Rarity::Common => 0,
            Rarity::Rare => 1,
            Rarity::Legendary => 2,
        }
    }

    /// The one-byte tag under which the tier's pool is stored.
    pub fn to_discriminant(&self) -> (d: u8)
        ensures
            d == self.index(),
    {
        match self {
            Rarity::Common => 0,
            Rarity::Rare => 1,
            Rarity::Legendary => 2,
        }
    }

    /// The tier stored under `discriminant`, if there is one.
    pub fn from_discriminant(discriminant: u8) -> (r: Option<Rarity>)
        ensures
            discriminant > 2 <==> r is None,
            r matches Some(rarity) ==> rarity.index() == discriminant,
    {
        match discriminant {
            0 => Some(Rarity::Common),
            1 => Some(Rarity::Rare),
            2 => Some(Rarity::Legendary),
            _ => None,
        }
    }
}

/// Number of outcomes of a rarity roll.
pub const ROLL_OUTCOMES: u64 = 100;

/// The bands of the game: 70 % Common, 27 % Rare, 3 % Legendary.
pub open spec fn standard_bands() -> RarityBands {
    RarityBands { common: 70, rare: 27, legendary: 3 }
}

/// The tier that `random_value` rolls under the game's bands.
pub open spec fn rolled_rarity(random_value: u64) -> Rarity {
    standard_bands().tier((random_value % ROLL_OUTCOMES) as int)
}

/// How many of the hundred outcomes of a roll fall to each tier. The bands
/// lie side by side in the order Common, Rare, Legendary.
#[derive(Clone, Copy, Debug, PartialEq, Eq, Structural)]
pub struct RarityBands {
    pub common: u8,
    pub rare: u8,
    pub legendary: u8,
}

impl RarityBands {
    /// The widths add up to the hundred outcomes.
    pub open spec fn wf(self) -> bool {
        self.common + self.rare + self.legendary == ROLL_OUTCOMES
    }

    /// Number of outcomes that fall to `rarity`.
    pub open spec fn width(self, rarity: Rarity) -> int {
        match rarity {
            Rarity::Common => self.common as int,
            Rarity::Rare => self.rare as int,
            Rarity::Legendary => self.legendary as int,
        }
    }

    /// The first outcome of the band of `rarity`.
    pub open spec fn lower(self, rarity: Rarity) -> int {
        match rarity {
            Rarity::Common => 0,
            Rarity::Rare => self.common as int,
            Rarity::Legendary => self.common + self.rare,
        }
    }

    /// The first outcome past the band of `rarity`.
    pub open spec fn upper(self, rarity: Rarity) -> int {
        self.lower(rarity) + self.width(rarity)
    }

    /// The tier whose band holds `roll`. An outcome on the boundary between
    /// two bands belongs to the later band.
    pub open spec fn tier(self, roll: int) -> Rarity {
        if roll < self.upper(Rarity::Common) {
            Rarity::Common
        } else if roll < self.upper(Rarity::Rare) {
            Rarity::Rare
        } else {
            Rarity::Legendary
        }
    }

    /// The bands of the game: 70 % Common, 27 % Rare, 3 % Legendary.
    pub fn standard() -> (bands: RarityBands)
        ensures
            bands == standard_bands(),
            bands.wf(),
    {
        RarityBands { common: 70, rare: 27, legendary: 3 }
    }

    /// The bands with the given widths, if these add up to a hundred.
    pub fn new(common: u8, rare: u8, legendary: u8) -> (r: Option<RarityBands>)
        ensures
            r == if common + rare + legendary == ROLL_OUTCOMES {
                Some(RarityBands { common, rare, legendary })
            } else {
                None
            },
            r matches Some(bands) ==> bands.wf(),
    {
        if common as u64 + rare as u64 + legendary as u64 == ROLL_OUTCOMES {
            Some(RarityBands { common, rare, legendary })
        } else {
            None
        }
    }

    /// The tier that `random_value` rolls: the tier whose band holds the
    /// value reduced modulo one hundred.
    pub fn roll(&self, random_value: u64) -> (rarity: Rarity)
        ensures
            rarity == self.tier((random_value % ROLL_OUTCOMES) as int),
            self.wf() ==> self.lower(rarity) <= random_value % ROLL_OUTCOMES < self.upper(rarity),
    {
        let roll: u8 = (random_value % ROLL_OUTCOMES) as u8;
        if roll < self.common {
            Rarity::Common
        } else if roll - self.common < self.rare {
            Rarity::Rare
        } else {
            Rarity::Legendary
        }
    }

    /// The bands split the hundred outcomes among the tiers: every outcome
    /// lies in the band of exactly one tier, which is the tier it rolls; the
    /// bands start at outcome 0, follow each other without gap or overlap
    /// and end at outcome 100.
    pub proof fn lemma_bands_partition(self, roll: int, rarity: Rarity)
        requires
            self.wf(),
            0 <= roll < ROLL_OUTCOMES,
        ensures
            (self.lower(rarity) <= roll < self.upper(rarity)) <==> rarity == self.tier(roll),
            self.lower(Rarity::Common) == 0,
            self.upper(Rarity::Common) == self.lower(Rarity::Rare),
            self.upper(Rarity::Rare) == self.lower(Rarity::Legendary),
            self.upper(Rarity::Legendary) == ROLL_OUTCOMES,
    {
    }

    /// Each tier is rolled by as many of the hundred outcomes as its band is
    /// wide.
    pub proof fn lemma_band_size(self, rarity: Rarity)
        requires
            self.wf(),
        ensures
            Set::new(|roll: int| 0 <= roll < ROLL_OUTCOMES && self.tier(roll) == rarity)
                =~= Set::new(|roll: int| self.lower(rarity) <= roll < self.upper(rarity)),
            Set::new(|roll: int| 0 <= roll < ROLL_OUTCOMES && self.tier(roll) == rarity).len()
                == self.width(rarity),
    {
        let band = Set::new(|roll: int| self.lower(rarity) <= roll < self.upper(rarity));
        assert(band =~= vstd::set_lib::set_int_range(self.lower(rarity), self.upper(rarity)));
        vstd::set_lib::lemma_int_range(self.lower(rarity), self.upper(rarity));
        match rarity {
            Rarity::Common => {},
            Rarity::Rare => {},
            Rarity::Legendary => {},
        }
    }
}

/// The tier that `random_value` rolls under the game's bands: Common for a
/// value that is below 70 modulo one hundred, Rare below 97, else Legendary.
pub fn roll_rarity(random_value: u64) -> (rarity: Rarity)
    ensures
        rarity == rolled_rarity(random_value),
        rarity == if random_value % 100 < 70 {
            Rarity::Common
        } else if random_value % 100 < 97 {
            Rarity::Rare
        } else {
            Rarity::Legendary
        },
{
    RarityBands::standard().roll(random_value)
}

} // verus!
