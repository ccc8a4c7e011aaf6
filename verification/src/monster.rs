use vstd::prelude::*;

verus! {

use crate::monster_data::{
    monster_behaviors, monster_master, spec_behavior_actions, spec_behavior_evade,
    spec_behavior_resist, spec_monster_master, ActionType, MonsterAction, MonsterBehavior,
    MonsterStats,
};
use crate::player::Player;
use crate::random_utils::{generate_in_range, random_value};
use crate::spell::Spell;
use crate::spell_utils::{spec_is_strong_flame, spec_is_weak_flame};
use crate::string_utils::str_eq;

/// Whether a monster move is one of the support spells: heal, sleep or
/// seal.
pub open spec fn spec_is_support_action(a: MonsterAction) -> bool {
    a.action == ActionType::Spell(Spell::Hoimi) || a.action == ActionType::Spell(Spell::Behoimi)
        || a.action == ActionType::Spell(Spell::Rarirho) || a.action == ActionType::Spell(
        Spell::Mahoton,
    )
}

/// Whether a monster move deals direct damage: an attack spell or a flame
/// breath.
pub open spec fn spec_is_attack_action(a: MonsterAction) -> bool {
    a.action == ActionType::Spell(Spell::Gira) || a.action == ActionType::Spell(Spell::Begirama)
        || (a.action matches ActionType::Special(name) && (spec_is_weak_flame(name@)
        || spec_is_strong_flame(name@)))
}

fn is_support_action(a: &MonsterAction) -> (r: bool)
    ensures
        r == spec_is_support_action(*a),
{
    match a.action {
        ActionType::Spell(sp) => sp == Spell::Hoimi || sp == Spell::Behoimi || sp == Spell::Rarirho
            || sp == Spell::Mahoton,
        ActionType::Special(_) => false,
    }
}

fn is_attack_action(a: &MonsterAction) -> (r: bool)
    ensures
        r == spec_is_attack_action(*a),
{
    match a.action {
        ActionType::Spell(sp) => sp == Spell::Gira || sp == Spell::Begirama,
        ActionType::Special(name) => str_eq(name, "ほのお(弱)") || str_eq(name, "ほのお(強)"),
    }
}

/// One live monster: its current hit points over its static stats and
/// behaviour profile.
#[derive(Debug, Clone)]
pub struct Monster {
    pub hp: u8,
    pub stats: MonsterStats,
    pub behavior: MonsterBehavior,
}

/// The fallback strike value for a given bonus: a quarter of the
/// softened attack-minus-half-defense difference plus the bonus.
pub open spec fn spec_correction_damage(attack: int, defense: int, bonus: int) -> int {
    let base = if attack - defense / 2 + 2 >= 0 {
        (attack - defense / 2 + 2) / 4
    } else {
        0
    };
    base + bonus
}

/// The spells of the support moves of a list, in declaration order.
pub open spec fn spec_support_spells(actions: Seq<MonsterAction>) -> Seq<Spell>
    decreases actions.len(),
{
    if actions.len() == 0 {
        Seq::empty()
    } else {
        let rest = spec_support_spells(actions.drop_last());
        if spec_is_support_action(actions.last()) {
            rest.push(actions.last().action->Spell_0)
        } else {
            rest
        }
    }
}

/// The normal-attack value for a given draw: the attack-minus-half-defense
/// difference scaled by the draw, cut to `0..=255`.
pub open spec fn spec_normal_damage(attack: int, defense: int, draw: int) -> int {
    let diff = attack - defense / 2;
    if diff <= 0 {
        0
    } else {
        (draw * (diff + 1) / 256 + diff) / 4
    }
}

impl Monster {
    /// Spawns the monster with the given index, or the first monster when
    /// the index leaves the table: the full stat and behaviour rows of
    /// that index, and starting hit points drawn as the maximum less a
    /// random quarter at most.
    pub fn new(index: usize) -> (r: Monster)
        ensures
            ({
                let pick: int = if index < 40 { index as int } else { 0 };
                &&& r.stats == spec_monster_master()[pick]
                &&& r.behavior.index == pick
                &&& r.behavior.resist == spec_behavior_resist(pick)
                &&& r.behavior.evade_rate_hundredths == spec_behavior_evade(pick)
                &&& r.behavior.actions@ == spec_behavior_actions(pick)
                &&& exists|d: int|
                    #![trigger (r.stats.hp as int * d)]
                    0 <= d <= 255 && r.hp as int == r.stats.hp as int - (r.stats.hp as int * d)
                        / 1024
            }),
            r.hp <= r.stats.hp,
    {
        let master = monster_master();
        let behaviors = monster_behaviors();
        let idx = if index < 40 { index } else { 0 };
        let stats = master[idx];
        let mut behaviors_mut = behaviors;
        let behavior = behaviors_mut.remove(idx);
        let draw = random_value(255) as u16;
        proof {
            assert(0 <= (stats.hp as int) * (draw as int) <= 255 * 255 && (stats.hp as int) * (
            draw as int) / 1024 <= 63) by (nonlinear_arith)
                requires
                    0 <= stats.hp as int <= 255,
                    0 <= draw as int <= 255,
            ;
        }
        let reduction_wide = (stats.hp as u16) * draw / 1024;
        let reduction = reduction_wide as u8;
        proof {
            assert((stats.hp as int) * (draw as int) / 1024 <= stats.hp as int) by (nonlinear_arith)
                requires
                    0 <= stats.hp as int <= 255,
                    0 <= draw as int <= 255,
            ;
        }
        let hp = if reduction <= stats.hp {
            stats.hp - reduction
        } else {
            0
        };
        proof {
            assert(master@[idx as int] == spec_monster_master()[idx as int]);
            assert(0 <= draw as int <= 255 && hp as int == stats.hp as int - (stats.hp as int
                * draw as int) / 1024);
        }
        Monster { hp, stats, behavior }
    }

    /// The monster's full hit points.
    pub fn max_hp(&self) -> (r: u8)
        ensures
            r == self.stats.hp,
    {
        self.stats.hp
    }

    /// Whether the monster is at or under a quarter of its full hit
    /// points.
    pub fn is_low_hp(&self) -> (r: bool)
        ensures
            r == (4 * self.hp as int <= self.stats.hp as int),
    {
        (self.hp as u16) * 4 <= self.stats.hp as u16
    }

    /// Moves the hit points by `amount`, held inside `0..=max`.
    pub fn adjust_hp(&mut self, amount: i16)
        ensures
            final(self).stats == old(self).stats,
            final(self).behavior == old(self).behavior,
            final(self).hp as int == ({
                let target = old(self).hp as int + amount as int;
                if target < 0 {
                    0
                } else if target > old(self).stats.hp as int {
                    old(self).stats.hp as int
                } else {
                    target
                }
            }),
    {
        let target: i32 = (self.hp as i32) + (amount as i32);
        let maxv = self.stats.hp as i32;
        let new_hp: i32 = if target < 0 {
            0
        } else if target > maxv {
            maxv
        } else {
            target
        };
        self.hp = new_hp as u8;
    }

    /// Whether the behaviour list holds any support spell.
    pub fn has_support_magic(&self) -> (r: bool)
        ensures
            r == exists|i: int|
                0 <= i < self.behavior.actions@.len() && spec_is_support_action(
                    #[trigger] self.behavior.actions@[i],
                ),
    {
        let n = self.behavior.actions.len();
        let mut i: usize = 0;
        while i < n
            invariant
                n == self.behavior.actions@.len(),
                i <= n,
                forall|j: int| 0 <= j < i ==> !spec_is_support_action(
                    #[trigger] self.behavior.actions@[j],
                ),
            decreases n - i,
        {
            if is_support_action(&self.behavior.actions[i]) {
                return true;
            }
            i = i + 1;
        }
        false
    }

    /// Whether the behaviour list holds any direct-damage move.
    pub fn has_attack_skill(&self) -> (r: bool)
        ensures
            r == exists|i: int|
                0 <= i < self.behavior.actions@.len() && spec_is_attack_action(
                    #[trigger] self.behavior.actions@[i],
                ),
    {
        let n = self.behavior.actions.len();
        let mut i: usize = 0;
        while i < n
            invariant
                n == self.behavior.actions@.len(),
                i <= n,
                forall|j: int| 0 <= j < i ==> !spec_is_attack_action(
                    #[trigger] self.behavior.actions@[j],
                ),
            decreases n - i,
        {
            if is_attack_action(&self.behavior.actions[i]) {
                return true;
            }
            i = i + 1;
        }
        false
    }

    /// The support-spell moves, in declaration order.
    pub fn support_spells_actions(&self) -> (v: Vec<MonsterAction>)
        ensures
            v@ == self.behavior.actions@.filter(|a: MonsterAction| spec_is_support_action(a)),
    {
        let n = self.behavior.actions.len();
        let mut v: Vec<MonsterAction> = Vec::new();
        proof {
            reveal(Seq::filter);
            assert(self.behavior.actions@.take(0) =~= Seq::<MonsterAction>::empty());
        }
        let mut i: usize = 0;
        while i < n
            invariant
                n == self.behavior.actions@.len(),
                i <= n,
                v@ == self.behavior.actions@.take(i as int).filter(
                    |a: MonsterAction| spec_is_support_action(a),
                ),
            decreases n - i,
        {
            proof {
                reveal(Seq::filter);
                assert(self.behavior.actions@.take(i + 1).drop_last() =~= self.behavior.actions@
                    .take(i as int));
            }
            if is_support_action(&self.behavior.actions[i]) {
                v.push(self.behavior.actions[i]);
            }
            i = i + 1;
        }
        proof {
            assert(self.behavior.actions@.take(n as int) =~= self.behavior.actions@);
        }
        v
    }

    /// The direct-damage moves, in declaration order.
    pub fn attack_spells_actions(&self) -> (v: Vec<MonsterAction>)
        ensures
            v@ == self.behavior.actions@.filter(|a: MonsterAction| spec_is_attack_action(a)),
    {
        let n = self.behavior.actions.len();
        let mut v: Vec<MonsterAction> = Vec::new();
        proof {
            reveal(Seq::filter);
            assert(self.behavior.actions@.take(0) =~= Seq::<MonsterAction>::empty());
        }
        let mut i: usize = 0;
        while i < n
            invariant
                n == self.behavior.actions@.len(),
                i <= n,
                v@ == self.behavior.actions@.take(i as int).filter(
                    |a: MonsterAction| spec_is_attack_action(a),
                ),
            decreases n - i,
        {
            proof {
                reveal(Seq::filter);
                assert(self.behavior.actions@.take(i + 1).drop_last() =~= self.behavior.actions@
                    .take(i as int));
            }
            if is_attack_action(&self.behavior.actions[i]) {
                v.push(self.behavior.actions[i]);
            }
            i = i + 1;
        }
        proof {
            assert(self.behavior.actions@.take(n as int) =~= self.behavior.actions@);
        }
        v
    }

    /// The support spells themselves, stripped of their move wrappers, in
    /// declaration order.
    pub fn support_spells(&self) -> (v: Vec<Spell>)
        ensures
            v@ == spec_support_spells(self.behavior.actions@),
    {
        let n = self.behavior.actions.len();
        let mut v: Vec<Spell> = Vec::new();
        proof {
            assert(self.behavior.actions@.take(0) =~= Seq::<MonsterAction>::empty());
        }
        let mut i: usize = 0;
        while i < n
            invariant
                n == self.behavior.actions@.len(),
                i <= n,
                v@ == spec_support_spells(self.behavior.actions@.take(i as int)),
            decreases n - i,
        {
            proof {
                assert(self.behavior.actions@.take(i + 1).drop_last() =~= self.behavior.actions@
                    .take(i as int));
                assert(self.behavior.actions@.take(i + 1).last() == self.behavior.actions@[
                i as int]);
            }
            if is_support_action(&self.behavior.actions[i]) {
                match self.behavior.actions[i].action {
                    ActionType::Spell(sp) => { v.push(sp); },
                    ActionType::Special(_) => {
                        proof {
                            assert(false);
                        }
                    },
                }
            }
            i = i + 1;
        }
        proof {
            assert(self.behavior.actions@.take(n as int) =~= self.behavior.actions@);
        }
        v
    }

    /// Whether the monster still stands.
    pub fn is_alive(&self) -> (r: bool)
        ensures
            r == (self.hp > 0),
    {
        self.hp > 0
    }

    /// Whether the monster is one of the two final opponents, whom a
    /// critical strike never fells.
    pub fn is_final_boss(&self) -> (r: bool)
        ensures
            r == (self.behavior.index == 38 || self.behavior.index == 39),
    {
        self.behavior.index == 38 || self.behavior.index == 39
    }

    /// The fallback strike for a given bonus draw: a quarter of the
    /// softened difference plus the bonus, cut to `0..=255`.
    pub fn correction_damage_with(&self, player_defense: u8, bonus: u8) -> (r: u8)
        requires
            bonus as int <= self.stats.attack as int / 4,
        ensures
            r as int == spec_correction_damage(
                self.stats.attack as int,
                player_defense as int,
                bonus as int,
            ),
    {
        let monster_strength = self.stats.attack as i32;
        let player_def = player_defense as i32;
        let mut base_damage = (monster_strength - player_def / 2 + 2);
        if base_damage < 0 {
            base_damage = 0;
        }
        base_damage = base_damage / 4;
        (base_damage + (bonus as i32)) as u8
    }

    /// The fallback strike with a fresh bonus draw of up to a quarter of
    /// the monster's attack.
    pub fn correction_damage(&self, player: &Player) -> (r: u8)
        ensures
            exists|b: int|
                0 <= b <= self.stats.attack as int / 4 && r as int == spec_correction_damage(
                    self.stats.attack as int,
                    crate::player::spec_defense_power(*player),
                    b,
                ),
    {
        let bonus = random_value(self.stats.attack / 4);
        let defense = player.defense_power();
        let r = self.correction_damage_with(defense, bonus);
        proof {
            assert(0 <= bonus as int <= self.stats.attack as int / 4 && r as int
                == spec_correction_damage(
                self.stats.attack as int,
                crate::player::spec_defense_power(*player),
                bonus as int,
            ));
        }
        r
    }

    /// The monster's normal strike for a given draw.
    pub fn normal_damage_with(&self, player_defense: u8, draw: u8) -> (r: u8)
        ensures
            r as int == spec_normal_damage(self.stats.attack as int, player_defense as int, draw as int),
            r <= 127,
    {
        let attack = self.stats.attack as u32;
        let defense = (player_defense / 2) as u32;
        if attack <= defense {
            proof {
                if self.stats.attack as int - player_defense as int / 2 > 0 {
                    assert(false);
                }
            }
            return 0;
        }
        let diff = attack - defense;
        proof {
            assert((draw as int) * ((diff as int) + 1) <= 255 * 256 && 0 <= (draw as int) * ((
            diff as int) + 1) && ((draw as int) * ((diff as int) + 1) / 256 + (diff as int)) / 4
                <= 127) by (nonlinear_arith)
                requires
                    0 <= draw as int <= 255,
                    1 <= diff as int <= 255,
            ;
        }
        let damage = ((draw as u32) * (diff + 1) / 256 + diff) / 4;
        damage as u8
    }

    /// The monster's normal strike with a fresh draw.
    pub fn normal_damage(&self, player: &Player) -> (r: u8)
        ensures
            r <= 127,
            exists|d: int|
                0 <= d <= 255 && r as int == spec_normal_damage(
                    self.stats.attack as int,
                    crate::player::spec_defense_power(*player),
                    d,
                ),
    {
        let draw = random_value(255);
        let defense = player.defense_power();
        let r = self.normal_damage_with(defense, draw);
        proof {
            assert(0 <= draw as int <= 255 && r as int == spec_normal_damage(
                self.stats.attack as int,
                crate::player::spec_defense_power(*player),
                draw as int,
            ));
        }
        r
    }

    /// The gold the monster yields: at least three quarters of its base
    /// gold, at most all of it.
    pub fn get_gold(&self) -> (r: u8)
        ensures
            self.stats.gold as int * 3 / 4 <= r as int <= self.stats.gold as int,
    {
        let base = self.stats.gold;
        let low = ((base as u16) * 3 / 4) as u8;
        generate_in_range(low, base)
    }

    /// One physical strike: the normal formula when the attack dwarfs the
    /// defense, the fallback formula in the narrow band where it does
    /// not.
    pub fn battle_attack(&self, player: &Player) -> (r: u8)
        ensures
            ({
                let attack = self.stats.attack as int;
                let defense = crate::player::spec_defense_power(*player);
                if attack - defense / 2 >= attack / 2 + 1 {
                    exists|d: int|
                        0 <= d <= 255 && r as int == spec_normal_damage(attack, defense, d)
                } else {
                    exists|b: int|
                        0 <= b <= attack / 4 && r as int == spec_correction_damage(
                            attack,
                            defense,
                            b,
                        )
                }
            }),
    {
        let defense = player.defense_power();
        let monster_strength = self.stats.attack as i32;
        let diff = monster_strength - (defense as i32) / 2;
        if diff >= monster_strength / 2 + 1 {
            let draw = random_value(255);
            let r = self.normal_damage_with(defense, draw);
            proof {
                assert(0 <= draw as int <= 255 && r as int == spec_normal_damage(
                    self.stats.attack as int,
                    crate::player::spec_defense_power(*player),
                    draw as int,
                ));
            }
            r
        } else {
            let bonus = random_value(self.stats.attack / 4);
            let r = self.correction_damage_with(defense, bonus);
            proof {
                assert(0 <= bonus as int <= self.stats.attack as int / 4 && r as int
                    == spec_correction_damage(
                    self.stats.attack as int,
                    crate::player::spec_defense_power(*player),
                    bonus as int,
                ));
            }
            r
        }
    }
}

} // verus!
