use vstd::prelude::*;

verus! {

/// The permanent story flags a password carries.
#[derive(Debug, Clone, Copy, Default, PartialEq, Eq, Structural)]
pub struct Flags {
    pub has_dragon_scale: bool,
    pub has_warrior_ring: bool,
    pub has_cursed_necklace: bool,
    pub defeated_dragon: bool,
    pub defeated_golem: bool,
}

/// One row of the growth table: the stats a level grants.
#[derive(Debug, Clone, PartialEq, Eq)]
pub struct Status {
    pub level: u8,
    pub strength: u8,
    pub agility: u8,
    pub max_hp: u8,
    pub max_mp: u8,
    pub required_exp: u16,
    pub spell: Option<&'static str>,
}

/// A short, display-oriented view of a player.
#[derive(Debug)]
pub struct PlayerSummary {
    pub name: String,
    pub level: u8,
    pub hp: u8,
    pub mp: u8,
    pub gold: u16,
    pub experience: u16,
}

/// The full strength panel of a player, equipment names included.
#[derive(Debug)]
pub struct StrengthStatus {
    pub level: u8,
    pub strength: u8,
    pub agility: u8,
    pub max_hp: u8,
    pub max_mp: u8,
    pub attack_power: u8,
    pub defense_power: u8,
    pub weapon: String,
    pub armor: String,
    pub shield: String,
}

/// The row used when a level has no entry of its own.
pub fn default_status() -> (r: Status)
    ensures
        r.level == 1 && r.strength == 0 && r.agility == 0 && r.max_hp == 0 && r.max_mp == 0
            && r.required_exp == 0 && r.spell is None,
{
    Status {
        level: 1,
        strength: 0,
        agility: 0,
        max_hp: 0,
        max_mp: 0,
        required_exp: 0,
        spell: None,
    }
}

} // verus!
