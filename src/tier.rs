use vstd::prelude::*;

verus! {

/// The ten size tiers of population fish, from smallest to largest.
#[derive(Clone, Copy, PartialEq, Eq, Debug, Structural)]
pub enum EnemySize {
    Tiny,
    Small,
    Medium,
    Large,
    Huge,
    Giant,
    Massive,
    Colossal,
    Titanic,
    Legendary,
}

/// The direction in which a population fish crosses the play area.
#[derive(Clone, Copy, PartialEq, Eq, Debug, Structural)]
pub enum EnemyDirection {
    LeftToRight,
    RightToLeft,
}

/// Position of a tier in the order of tiers, from 1 (Tiny) to 10 (Legendary).
pub open spec fn rank(t: EnemySize) -> int {
    match t {
        EnemySize::Tiny => 1,
        EnemySize::Small => 2,
        EnemySize::Medium => 3,
        EnemySize::Large => 4,
        EnemySize::Huge => 5,
        EnemySize::Giant => 6,
        EnemySize::Massive => 7,
        EnemySize::Colossal => 8,
        EnemySize::Titanic => 9,
        EnemySize::Legendary => 10,
    }
}

/// Score awarded for eating a fish of the tier.
pub open spec fn score_of(t: EnemySize) -> int {
    rank(t)
}

/// Growth awarded for eating a fish of the tier, in hundredths of a size unit.
pub open spec fn growth_of(t: EnemySize) -> int {
    rank(t)
}

/// Physical size of the tier, in hundredths (Tiny 0.20 up to Legendary 1.10).
pub open spec fn size_of(t: EnemySize) -> int {
    10 * rank(t) + 10
}

/// Swimming speed of the tier in pixels per second (Tiny 150 down to Legendary 60).
pub open spec fn speed_of(t: EnemySize) -> int {
    160 - 10 * rank(t)
}

/// Relative likelihood of the tier in the spawner's weighted draw.
pub open spec fn weight_of(t: EnemySize) -> int {
    match t {
        EnemySize::Tiny => 10,
        EnemySize::Small => 8,
        EnemySize::Medium => 6,
        EnemySize::Large => 5,
        EnemySize::Huge => 4,
        EnemySize::Giant => 3,
        EnemySize::Massive => 2,
        EnemySize::Colossal => 2,
        EnemySize::Titanic => 1,
        EnemySize::Legendary => 1,
    }
}

/// The tiers in increasing order.
pub open spec fn tier_order() -> Seq<EnemySize> {
    seq![
        EnemySize::Tiny,
        EnemySize::Small,
        EnemySize::Medium,
        EnemySize::Large,
        EnemySize::Huge,
        EnemySize::Giant,
        EnemySize::Massive,
        EnemySize::Colossal,
        EnemySize::Titanic,
        EnemySize::Legendary,
    ]
}

/// Larger tiers are worth more, are bigger and swim slower.
pub proof fn lemma_tier_monotone(a: EnemySize, b: EnemySize)
    requires
        rank(a) < rank(b),
    ensures
        score_of(a) < score_of(b),
        size_of(a) < size_of(b),
        growth_of(a) < growth_of(b),
        speed_of(a) > speed_of(b),
        weight_of(a) >= weight_of(b),
{
}

impl EnemySize {
    /// Score awarded for eating this tier.
    pub fn get_score(&self) -> (r: i32)
        ensures
            r == score_of(*self),
    {
        match self {
            EnemySize::Tiny => 1,
            EnemySize::Small => 2,
            EnemySize::Medium => 3,
            EnemySize::Large => 4,
            EnemySize::Huge => 5,
            EnemySize::Giant => 6,
            EnemySize::Massive => 7,
            EnemySize::Colossal => 8,
            EnemySize::Titanic => 9,
            EnemySize::Legendary => 10,
        }
    }

    /// Growth of the controlled fish for eating this tier, in hundredths.
    pub fn growth_increment(&self) -> (r: u32)
        ensures
            r == growth_of(*self),
    {
        match self {
            EnemySize::Tiny => 1,
            EnemySize::Small => 2,
            EnemySize::Medium => 3,
            EnemySize::Large => 4,
            EnemySize::Huge => 5,
            EnemySize::Giant => 6,
            EnemySize::Massive => 7,
            EnemySize::Colossal => 8,
            EnemySize::Titanic => 9,
            EnemySize::Legendary => 10,
        }
    }

    /// Weight of this tier in the spawner's draw; smaller tiers weigh more.
    pub fn spawn_weight(&self) -> (r: u32)
        ensures
            r == weight_of(*self),
    {
        match self {
            EnemySize::Tiny => 10,
            EnemySize::Small => 8,
            EnemySize::Medium => 6,
            EnemySize::Large => 5,
            EnemySize::Huge => 4,
            EnemySize::Giant => 3,
            EnemySize::Massive => 2,
            EnemySize::Colossal => 2,
            EnemySize::Titanic => 1,
            EnemySize::Legendary => 1,
        }
    }

    /// Physical size of this tier, in hundredths of a size unit.
    pub fn get_size(&self) -> (r: u32)
        ensures
            r == size_of(*self),
    {
        match self {
            EnemySize::Tiny => 20,
            EnemySize::Small => 30,
            EnemySize::Medium => 40,
            EnemySize::Large => 50,
            EnemySize::Huge => 60,
            EnemySize::Giant => 70,
            EnemySize::Massive => 80,
            EnemySize::Colossal => 90,
            EnemySize::Titanic => 100,
            EnemySize::Legendary => 110,
        }
    }

    /// Swimming speed of this tier, in pixels per second.
    pub fn get_speed(&self) -> (r: i32)
        ensures
            r == speed_of(*self),
    {
        match self {
            EnemySize::Tiny => 150,
            EnemySize::Small => 140,
            EnemySize::Medium => 130,
            EnemySize::Large => 120,
            EnemySize::Huge => 110,
            EnemySize::Giant => 100,
            EnemySize::Massive => 90,
            EnemySize::Colossal => 80,
            EnemySize::Titanic => 70,
            EnemySize::Legendary => 60,
        }
    }

    /// All tiers, smallest first.
    pub fn all() -> (r: Vec<EnemySize>)
        ensures
            r@ == tier_order(),
    {
        let r = vec![
            EnemySize::Tiny,
            EnemySize::Small,
            EnemySize::Medium,
            EnemySize::Large,
            EnemySize::Huge,
            EnemySize::Giant,
            EnemySize::Massive,
            EnemySize::Colossal,
            EnemySize::Titanic,
            EnemySize::Legendary,
        ];
        assert(r@ =~= tier_order());
        r
    }
}

} // verus!
