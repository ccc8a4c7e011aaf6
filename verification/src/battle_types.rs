use vstd::prelude::*;

verus! {

use crate::monster_data::MonsterAction;

/// The per-side battle condition: asleep, spell-sealed, or gone.
#[derive(Debug, Clone, Copy, PartialEq, Eq, Structural)]
pub struct BattleState {
    pub sleep: bool,
    pub seal: bool,
    pub escaped: bool,
}

impl BattleState {
    /// A side starts awake, unsealed and present.
    pub fn new() -> (r: BattleState)
        ensures
            !r.sleep && !r.seal && !r.escaped,
    {
        BattleState { sleep: false, seal: false, escaped: false }
    }
}

impl Default for BattleState {
    fn default() -> (r: BattleState)
        ensures
            !r.sleep && !r.seal && !r.escaped,
    {
        BattleState { sleep: false, seal: false, escaped: false }
    }
}

/// What the player picks on a turn.
#[derive(Debug, Clone, Copy, PartialEq, Eq, Structural)]
pub enum PlayerAction {
    Attack,
    Spell,
    Item,
    Escape,
}

/// What the monster decides on a turn.
#[derive(Debug, Clone, PartialEq, Eq)]
pub enum EnemyAction {
    Escape,
    Attack,
    Special(MonsterAction),
}

} // verus!
