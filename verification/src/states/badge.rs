use vstd::prelude::*;
use crate::pubkey::Pubkey;

verus! {

/// The counters over all badges, of which there is one set.
#[derive(Clone, Copy, Debug, PartialEq, Eq, Structural)]
pub struct BadgeConfigPool {
    /// The number of badges.
    pub total: u64,
    /// The number of quizzes that have a badge.
    pub config_count: u64,
}

/// The counter of one quiz. A counter that no badge has touched yet has
/// `quiz` zero.
#[derive(Clone, Copy, Debug, PartialEq, Eq, Structural)]
pub struct BadgeConfig {
    pub quiz: u64,
    /// The number of badges of the quiz.
    pub total: u64,
}

/// The badge of one user for one quiz.
#[derive(Clone, Copy, Debug, PartialEq, Eq)]
pub struct Badge {
    pub owner: Pubkey,
    pub quiz: u64,
    pub tier: u64,
}

impl BadgeConfigPool {
    /// The counters before any badge.
    pub fn new() -> (pool: BadgeConfigPool)
        ensures
            pool == (BadgeConfigPool { total: 0, config_count: 0 }),
    {
        BadgeConfigPool { total: 0, config_count: 0 }
    }
}

impl BadgeConfig {
    /// The counter of a quiz before its first badge.
    pub fn new() -> (counter: BadgeConfig)
        ensures
            counter == (BadgeConfig { quiz: 0, total: 0 }),
    {
        BadgeConfig { quiz: 0, total: 0 }
    }
}

} // verus!
