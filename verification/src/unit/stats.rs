use vstd::prelude::*;

verus! {

/// The highest level that `Stats::new` can start from: above it the health
/// of that level does not fit in a `u32`.
pub const MAX_LEVEL: u32 = 429_496_719;

/// The progression of a character: its level, what it has learnt since it
/// reached that level, its attributes and its reserves.
#[derive(Debug, Clone, Copy, PartialEq, Eq, Structural)]
pub struct Stats {
    pub level: u32,
    pub experience: u32,
    pub strength: u32,
    pub dexterity: u32,
    pub intelligence: u32,
    pub max_health: u32,
    pub current_health: u32,
    pub max_mana: u32,
    pub current_mana: u32,
}

impl Default for Stats {
    /// Stats whose every number is zero.
    fn default() -> (s: Self)
        ensures
            s == Stats::zero(),
    {
        Stats {
            level: 0,
            experience: 0,
            strength: 0,
            dexterity: 0,
            intelligence: 0,
            max_health: 0,
            current_health: 0,
            max_mana: 0,
            current_mana: 0,
        }
    }
}

impl Stats {
    /// Stats whose every number is zero.
    pub open spec fn zero() -> Stats {
        Stats {
            level: 0,
            experience: 0,
            strength: 0,
            dexterity: 0,
            intelligence: 0,
            max_health: 0,
            current_health: 0,
            max_mana: 0,
            current_mana: 0,
        }
    }

    /// The stats that a character of `level` starts with.
    pub open spec fn at_level(level: u32) -> Stats {
        Stats {
            level,
            experience: 0,
            strength: (10 + level) as u32,
            dexterity: (10 + level) as u32,
            intelligence: (10 + level) as u32,
            max_health: (100 + level * 10) as u32,
            current_health: (100 + level * 10) as u32,
            max_mana: (50 + level * 5) as u32,
            current_mana: (50 + level * 5) as u32,
        }
    }

    /// No reserve holds more than its maximum.
    pub open spec fn wf(&self) -> bool {
        &&& self.current_health <= self.max_health
        &&& self.current_mana <= self.max_mana
    }

    /// The experience at which the character rises from its level.
    pub open spec fn threshold(&self) -> int {
        self.level * 100
    }

    /// Whether each number of the next level fits in a `u32`.
    pub open spec fn can_level_up(&self) -> bool {
        &&& self.level + 1 <= u32::MAX
        &&& self.strength + 2 <= u32::MAX
        &&& self.dexterity + 2 <= u32::MAX
        &&& self.intelligence + 2 <= u32::MAX
        &&& self.max_health + 10 <= u32::MAX
        &&& self.max_mana + 5 <= u32::MAX
    }

    /// The stats one level up: each attribute two higher, the reserves
    /// larger and filled, the experience back at zero.
    pub open spec fn leveled_up(&self) -> Stats {
        Stats {
            level: (self.level + 1) as u32,
            experience: 0,
            strength: (self.strength + 2) as u32,
            dexterity: (self.dexterity + 2) as u32,
            intelligence: (self.intelligence + 2) as u32,
            max_health: (self.max_health + 10) as u32,
            current_health: (self.max_health + 10) as u32,
            max_mana: (self.max_mana + 5) as u32,
            current_mana: (self.max_mana + 5) as u32,
        }
    }

    /// Whether `amount` of experience can be taken in without a number
    /// leaving the range of `u32`.
    pub open spec fn can_gain(&self, amount: u32) -> bool {
        &&& self.experience + amount <= u32::MAX
        &&& self.threshold() <= u32::MAX
        &&& self.experience + amount >= self.threshold() ==> self.can_level_up()
    }

    /// The stats after `amount` of experience: one level up where the
    /// experience reaches the threshold, else only the experience larger.
    pub open spec fn gained(&self, amount: u32) -> Stats {
        if self.experience + amount >= self.threshold() {
            self.leveled_up()
        } else {
            Stats { experience: (self.experience + amount) as u32, ..*self }
        }
    }

    /// The stats that a character of `level` starts with: attributes of
    /// `10 + level`, health of `100 + 10 * level` and mana of
    /// `50 + 5 * level`, both full, and no experience.
    pub fn new(level: u32) -> (s: Self)
        requires
            level <= MAX_LEVEL,
        ensures
            s == Stats::at_level(level),
            s.wf(),
    {
        Self {
            level,
            experience: 0,
            strength: 10 + level,
            dexterity: 10 + level,
            intelligence: 10 + level,
            max_health: 100 + (level * 10),
            current_health: 100 + (level * 10),
            max_mana: 50 + (level * 5),
            current_mana: 50 + (level * 5),
        }
    }

    /// Takes in `amount` of experience. Where the experience then reaches
    /// the threshold of the level, a hundred times the level, the character
    /// rises by one level, once.
    pub fn gain_experience(&mut self, amount: u32)
        requires
            old(self).can_gain(amount),
        ensures
            *final(self) == old(self).gained(amount),
            old(self).wf() ==> final(self).wf(),
    {
        self.experience += amount;
        let exp_needed: u32 = self.level * 100;
        if self.experience >= exp_needed {
            self.level_up();
        }
    }

    /// Rises by one level: each attribute two higher, ten more health and
    /// five more mana, both filled, and the experience back at zero.
    pub fn level_up(&mut self)
        requires
            old(self).can_level_up(),
        ensures
            *final(self) == old(self).leveled_up(),
            final(self).wf(),
    {
        self.level += 1;
        self.strength += 2;
        self.dexterity += 2;
        self.intelligence += 2;
        self.max_health += 10;
        self.current_health = self.max_health;
        self.max_mana += 5;
        self.current_mana = self.max_mana;
        self.experience = 0;
    }
}

} // verus!
