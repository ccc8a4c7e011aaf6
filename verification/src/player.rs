use vstd::prelude::*;

verus! {

use crate::growth_type::{
    calculate_abc, calculate_growth_name_total, spec_calculate_abc, spec_growth_name_total,
    GrowthModifiers,
};
use crate::item_weapon::{
    armor_master, item_master, shield_master, spec_armor_master, spec_item_master,
    spec_shield_master, spec_weapon_master, weapon_master, Equipment,
};
use crate::load::decode_from_password_string;
use crate::random_utils::{generate_in_range, random_value};
use crate::save::spec_password_char;
use crate::save_data::{SaveData, SaveDataArgs};
use crate::spell::{spec_spell_info_list, SpellInfo};
use crate::spell_utils::spells_learned_by_level;
use crate::status::{Flags, PlayerSummary, Status, StrengthStatus};
use crate::status_table::spec_status_table;
use crate::status_utils::{
    get_level_by_exp, get_status_by_level, lemma_level_by_exp_range, resolve_experience,
    spec_apply_abc, spec_apply_modifier, spec_level_by_exp,
};
use crate::string_utils::{name_normalize, spec_name_normalize};
use crate::growth_type::get_adjusted_status_by_name_lv;
use crate::text::default_name;
use vstd::string::StringExecFns;

/// The hero: current condition, belongings and story flags. The derived
/// stats come from the growth table through the name and the experience.
#[derive(Debug)]
pub struct Player {
    pub name: String,
    pub hp: u8,
    pub mp: u8,
    pub exp: u16,
    pub gold: u16,
    pub weapon: u8,
    pub armor: u8,
    pub shield: u8,
    pub items: [u8; 8],
    pub herbs: u8,
    pub keys: u8,
    pub is_curse_belt: bool,
    pub is_curse_necklace: bool,
    pub flags: Flags,
}

/// Optional overrides for building a player.
#[derive(Default)]
pub struct PlayerArgs {
    pub name: Option<String>,
    pub level: Option<u8>,
    pub exp: Option<u16>,
    pub gold: Option<u16>,
    pub weapon: Option<u8>,
    pub armor: Option<u8>,
    pub shield: Option<u8>,
    pub items: Option<[u8; 8]>,
    pub herbs: Option<u8>,
    pub keys: Option<u8>,
    pub flags: Option<Flags>,
}

/// One entry of the in-battle item menu.
#[derive(Debug, Clone, Copy, PartialEq, Eq)]
pub struct UnifiedItem {
    pub id: u8,
    pub name: &'static str,
    pub count: u8,
    pub kind: ItemKind,
}

/// The three families an item menu entry can belong to.
#[derive(Debug, Clone, Copy, PartialEq, Eq, Structural)]
pub enum ItemKind {
    Herb,
    Key,
    Equipment,
}

/// The growth row a player's name and experience select.
pub open spec fn spec_player_status(p: Player) -> Status {
    spec_apply_abc(
        spec_status_table()[spec_level_by_exp(p.exp as int) - 1],
        spec_calculate_abc(spec_growth_name_total(p.name@)),
    )
}

/// The clamped-index equipment row a slot value selects.
pub open spec fn spec_equipment_at(table: Seq<Equipment>, idx: int) -> Equipment {
    if 0 <= idx < table.len() {
        table[idx]
    } else {
        table[0]
    }
}

/// The attack power: strength plus weapon attack plus the ring bonus,
/// capped at 255.
pub open spec fn spec_attack_power(p: Player) -> int {
    let raw = spec_player_status(p).strength as int + spec_equipment_at(
        spec_weapon_master(),
        p.weapon as int,
    ).attack as int + (if p.flags.has_warrior_ring {
        2int
    } else {
        0int
    });
    if raw > 255 {
        255
    } else {
        raw
    }
}

/// The defense power: half the agility plus armor, shield and the scale
/// bonus, capped at 255.
pub open spec fn spec_defense_power(p: Player) -> int {
    let raw = spec_player_status(p).agility as int / 2 + spec_equipment_at(
        spec_armor_master(),
        p.armor as int,
    ).defense as int + spec_equipment_at(spec_shield_master(), p.shield as int).defense as int + (
    if p.flags.has_dragon_scale {
        2int
    } else {
        0int
    });
    if raw > 255 {
        255
    } else {
        raw
    }
}

/// The player's normal strike for a given draw: the difference against
/// half the defense, scaled by the draw.
pub open spec fn spec_player_normal_damage(attack: int, defense: int, draw: int) -> int {
    let base = if attack - defense / 2 >= 0 {
        attack - defense / 2
    } else {
        0
    };
    (draw * (base + 1) / 256 + base) / 4
}

/// The player's critical strike for a given draw: full attack less a
/// random slice of half of it.
pub open spec fn spec_critical_damage(attack: int, draw: int) -> int {
    attack - (attack / 2) * draw / 256
}

impl Player {
    /// A fresh player with the given raw name and level-one experience.
    pub fn new(name: &str) -> (r: Player)
        ensures
            r.name@ == spec_name_normalize(name@),
            r.exp == 0,
            r.gold == 0 && r.weapon == 0 && r.armor == 0 && r.shield == 0,
            r.herbs == 0 && r.keys == 0,
            !r.is_curse_belt && !r.is_curse_necklace,
            r.hp as int == spec_player_status(r).max_hp as int,
            r.mp as int == spec_player_status(r).max_mp as int,
    {
        Player::new_with(
            PlayerArgs {
                name: Some(String::from_str(name)),
                level: None,
                exp: None,
                gold: None,
                weapon: None,
                armor: None,
                shield: None,
                items: None,
                herbs: None,
                keys: None,
                flags: None,
            },
        )
    }

    /// A player built from the given overrides: the name is normalized,
    /// the experience resolves against the requested level, and the
    /// current condition starts at the derived maxima.
    pub fn new_with(args: PlayerArgs) -> (r: Player)
        ensures
            (match args.name {
                Option::Some(n) => r.name@ == spec_name_normalize(n@),
                Option::None => r.name@ == spec_name_normalize("ゆうてい"@),
            }),
            r.exp as int == ({
                let base_level: int = if args.level is Some { args.level->0 as int } else { 1 };
                let base: int = if 1 <= base_level <= 30 {
                    spec_status_table()[base_level - 1].required_exp as int
                } else {
                    0
                };
                match args.exp {
                    Option::Some(e) => if e as int >= base { e as int } else { base },
                    Option::None => base,
                }
            }),
            r.hp as int == spec_player_status(r).max_hp as int,
            r.mp as int == spec_player_status(r).max_mp as int,
            r.gold == (if args.gold is Some { args.gold->0 } else { 0 }),
            r.weapon == (if args.weapon is Some { args.weapon->0 } else { 0 }),
            r.armor == (if args.armor is Some { args.armor->0 } else { 0 }),
            r.shield == (if args.shield is Some { args.shield->0 } else { 0 }),
            r.items@ == (if args.items is Some { args.items->0@ } else { Seq::new(8, |i: int| 0u8) }),
            r.herbs == (if args.herbs is Some { args.herbs->0 } else { 0 }),
            r.keys == (if args.keys is Some { args.keys->0 } else { 0 }),
            !r.is_curse_belt && !r.is_curse_necklace,
            r.flags == (if args.flags is Some { args.flags->0 } else { (Flags {
                has_dragon_scale: false,
                has_warrior_ring: false,
                has_cursed_necklace: false,
                defeated_dragon: false,
                defeated_golem: false,
            }) }),
    {
        let raw_name = match args.name {
            Some(n) => n,
            None => String::from_str(default_name()),
        };
        let name = name_normalize(raw_name.as_str());
        let base_level = match args.level {
            Some(l) => l,
            None => 1,
        };
        let final_exp = resolve_experience(base_level, args.exp);
        let level = get_level_by_exp(final_exp);
        let adjusted = get_adjusted_status_by_name_lv(name.as_str(), level);
        let items = match args.items {
            Some(a) => a,
            None => [0; 8],
        };
        proof {
            if args.items is None {
                assert(items@ =~= Seq::new(8, |i: int| 0u8));
            }
        }
        Player {
            name,
            hp: adjusted.max_hp,
            mp: adjusted.max_mp,
            exp: final_exp,
            gold: match args.gold { Some(v) => v, None => 0 },
            weapon: match args.weapon { Some(v) => v, None => 0 },
            armor: match args.armor { Some(v) => v, None => 0 },
            shield: match args.shield { Some(v) => v, None => 0 },
            items,
            herbs: match args.herbs { Some(v) => v, None => 0 },
            keys: match args.keys { Some(v) => v, None => 0 },
            is_curse_belt: false,
            is_curse_necklace: false,
            flags: match args.flags {
                Some(f) => f,
                None => Flags {
                    has_dragon_scale: false,
                    has_warrior_ring: false,
                    has_cursed_necklace: false,
                    defeated_dragon: false,
                    defeated_golem: false,
                },
            },
        }
    }

    /// The level the current experience reaches.
    pub fn level(&self) -> (r: u8)
        ensures
            r as int == spec_level_by_exp(self.exp as int),
            1 <= r <= 30,
    {
        get_level_by_exp(self.exp)
    }

    /// The growth total of the current name.
    pub fn growth_name_total(&self) -> (r: u16)
        ensures
            r as int == spec_growth_name_total(self.name@),
    {
        calculate_growth_name_total(self.name.as_str())
    }

    /// The growth pattern of the current name.
    pub fn abc(&self) -> (r: GrowthModifiers)
        ensures
            r == spec_calculate_abc(spec_growth_name_total(self.name@)),
    {
        calculate_abc(self.growth_name_total())
    }

    /// The raw growth row of the current level.
    pub fn base_status(&self) -> (r: Option<Status>)
        ensures
            r == Some(spec_status_table()[spec_level_by_exp(self.exp as int) - 1]),
    {
        get_status_by_level(self.level())
    }

    /// The corrected growth row of the current name and level.
    pub fn status(&self) -> (r: Option<Status>)
        ensures
            r == Some(spec_player_status(*self)),
    {
        Some(get_adjusted_status_by_name_lv(self.name.as_str(), self.level()))
    }

    /// The corrected strength.
    pub fn strength(&self) -> (r: u8)
        ensures
            r == spec_player_status(*self).strength,
    {
        match self.status() {
            Some(s) => s.strength,
            None => 0,
        }
    }

    /// The corrected agility.
    pub fn agility(&self) -> (r: u8)
        ensures
            r == spec_player_status(*self).agility,
    {
        match self.status() {
            Some(s) => s.agility,
            None => 0,
        }
    }

    /// The corrected maximum hit points.
    pub fn max_hp(&self) -> (r: u8)
        ensures
            r == spec_player_status(*self).max_hp,
    {
        match self.status() {
            Some(s) => s.max_hp,
            None => 0,
        }
    }

    /// The corrected maximum magic points.
    pub fn max_mp(&self) -> (r: u8)
        ensures
            r == spec_player_status(*self).max_mp,
    {
        match self.status() {
            Some(s) => s.max_mp,
            None => 0,
        }
    }

    /// Whether the current magic points cover a spell's cost.
    pub fn is_mp_cast(&self, spell_info: &SpellInfo) -> (r: bool)
        ensures
            r == (self.mp >= spell_info.mp_cost),
    {
        self.mp >= spell_info.mp_cost
    }

    /// The equipped weapon row, the bare row when the slot is out of
    /// range.
    pub fn get_weapon(&self) -> (r: Equipment)
        ensures
            r == spec_equipment_at(spec_weapon_master(), self.weapon as int),
    {
        let table = weapon_master();
        let idx = if (self.weapon as usize) < table.len() { self.weapon as usize } else { 0 };
        let mut t = table;
        t.remove(idx)
    }

    /// The equipped armor row, the bare row when the slot is out of range.
    pub fn get_armor(&self) -> (r: Equipment)
        ensures
            r == spec_equipment_at(spec_armor_master(), self.armor as int),
    {
        let table = armor_master();
        let idx = if (self.armor as usize) < table.len() { self.armor as usize } else { 0 };
        let mut t = table;
        t.remove(idx)
    }

    /// The equipped shield row, the bare row when the slot is out of
    /// range.
    pub fn get_shield(&self) -> (r: Equipment)
        ensures
            r == spec_equipment_at(spec_shield_master(), self.shield as int),
    {
        let table = shield_master();
        let idx = if (self.shield as usize) < table.len() { self.shield as usize } else { 0 };
        let mut t = table;
        t.remove(idx)
    }

    /// The attack power: strength, weapon and ring bonus together.
    pub fn attack_power(&self) -> (r: u8)
        ensures
            r as int == spec_attack_power(*self),
    {
        let ring_bonus: u16 = if self.flags.has_warrior_ring { 2 } else { 0 };
        let strength = self.strength() as u16;
        let weapon_attack = self.get_weapon().attack as u16;
        let raw = strength + weapon_attack + ring_bonus;
        if raw > 255 {
            255
        } else {
            raw as u8
        }
    }

    /// The defense power: half the agility, armor, shield and scale bonus
    /// together.
    pub fn defense_power(&self) -> (r: u8)
        ensures
            r as int == spec_defense_power(*self),
    {
        let scale_bonus: u16 = if self.flags.has_dragon_scale { 2 } else { 0 };
        let agility = self.agility() as u16;
        let armor_defense = self.get_armor().defense as u16;
        let shield_defense = self.get_shield().defense as u16;
        let raw = agility / 2 + armor_defense + shield_defense + scale_bonus;
        if raw > 255 {
            255
        } else {
            raw as u8
        }
    }

    /// Moves the hit points by `amount`: healing is capped at the derived
    /// maximum, damage at zero.
    pub fn adjust_hp(&mut self, amount: i16)
        ensures
            *final(self) == (Player { hp: final(self).hp, ..*old(self) }),
            amount >= 0 ==> final(self).hp as int == ({
                let target = old(self).hp as int + amount as int;
                let maxv = spec_player_status(*old(self)).max_hp as int;
                if target > maxv {
                    maxv
                } else {
                    target
                }
            }),
            amount < 0 ==> final(self).hp as int == ({
                let target = old(self).hp as int + amount as int;
                if target < 0 {
                    0
                } else {
                    target
                }
            }),
    {
        let maxv = self.max_hp() as i32;
        let target: i32 = (self.hp as i32) + (amount as i32);
        if amount >= 0 {
            self.hp = if target > maxv { maxv as u8 } else { target as u8 };
        } else {
            self.hp = if target < 0 { 0 } else { target as u8 };
        }
    }

    /// The display names of the eight item slots; an empty or unknown
    /// slot shows the bare name.
    pub fn item_list(&self) -> (v: Vec<&'static str>)
        ensures
            v@.len() == 8,
            forall|i: int|
                0 <= i < 8 ==> (#[trigger] v@[i])@ == spec_equipment_at(
                    spec_item_master(),
                    self.items@[i] as int,
                ).name@,
    {
        let table = item_master();
        let mut v: Vec<&'static str> = Vec::new();
        let mut i: usize = 0;
        while i < 8
            invariant
                table@ == spec_item_master(),
                i <= 8,
                v@.len() == i,
                forall|j: int|
                    0 <= j < i ==> (#[trigger] v@[j])@ == spec_equipment_at(
                        spec_item_master(),
                        self.items@[j] as int,
                    ).name@,
            decreases 8 - i,
        {
            let id = self.items[i] as usize;
            if id < table.len() {
                v.push(table[id].name);
            } else {
                v.push(table[0].name);
            }
            i = i + 1;
        }
        v
    }

    /// Whether the current belongings give the item menu anything to
    /// show.
    pub fn is_unified_item_list(&self) -> (r: bool)
        ensures
            r == (spec_unified_items(*self).len() > 0),
    {
        let list = self.unified_item_list();
        list.len() > 0
    }

    /// The in-battle item menu: herbs, then keys, then every equipment
    /// slot that holds a real item.
    pub fn unified_item_list(&self) -> (v: Vec<UnifiedItem>)
        ensures
            v@ == spec_unified_items(*self),
    {
        let mut v: Vec<UnifiedItem> = Vec::new();
        if self.herbs > 0 {
            v.push(UnifiedItem { id: 101, name: "やくそう", count: self.herbs, kind: ItemKind::Herb });
        }
        if self.keys > 0 {
            v.push(UnifiedItem { id: 102, name: "かぎ", count: self.keys, kind: ItemKind::Key });
        }
        let table = item_master();
        let ghost prefix = v@;
        let mut i: usize = 0;
        while i < 8
            invariant
                table@ == spec_item_master(),
                i <= 8,
                v@ == prefix + spec_equipment_entries(self.items@.take(i as int)),
                prefix == spec_menu_head(*self),
            decreases 8 - i,
        {
            proof {
                assert(self.items@.take(i + 1).drop_last() =~= self.items@.take(i as int));
                assert(self.items@.take(i + 1).last() == self.items@[i as int]);
            }
            let item_id = self.items[i];
            if (item_id as usize) < table.len() {
                proof {
                    reveal_strlit("なし");
                }
                if !crate::string_utils::str_eq(table[item_id as usize].name, "なし") {
                    v.push(
                        UnifiedItem {
                            id: item_id,
                            name: table[item_id as usize].name,
                            count: 1,
                            kind: ItemKind::Equipment,
                        },
                    );
                }
            }
            i = i + 1;
        }
        proof {
            assert(self.items@.take(8) =~= self.items@);
        }
        v
    }

    /// The spell rows the current level has unlocked.
    pub fn spell_list(&self) -> (v: Vec<SpellInfo>)
        ensures
            v@ == spec_spell_info_list().filter(
                |info: SpellInfo| info.learn_level as int <= spec_level_by_exp(self.exp as int),
            ),
    {
        let level = self.level();
        let v = spells_learned_by_level(level);
        proof {
            assert(spec_spell_info_list().filter(|info: SpellInfo| info.learn_level <= level)
                =~= spec_spell_info_list().filter(
                |info: SpellInfo| info.learn_level as int <= spec_level_by_exp(self.exp as int),
            )) by {
                reveal(Seq::filter);
                lemma_filter_equiv(
                    spec_spell_info_list(),
                    |info: SpellInfo| info.learn_level <= level,
                    |info: SpellInfo| info.learn_level as int <= spec_level_by_exp(self.exp as int),
                );
            }
        }
        v
    }

    /// The unlocked spell row at `index`.
    pub fn select_spell(&self, index: usize) -> (r: SpellInfo)
        requires
            index < spec_spell_info_list().filter(
                |info: SpellInfo| info.learn_level as int <= spec_level_by_exp(self.exp as int),
            ).len(),
        ensures
            r == spec_spell_info_list().filter(
                |info: SpellInfo| info.learn_level as int <= spec_level_by_exp(self.exp as int),
            )[index as int],
    {
        let list = self.spell_list();
        let mut l = list;
        l.remove(index)
    }

    /// Whether no spell is unlocked yet.
    pub fn is_empty_spell_list(&self) -> (r: bool)
        ensures
            r == (spec_spell_info_list().filter(
                |info: SpellInfo| info.learn_level as int <= spec_level_by_exp(self.exp as int),
            ).len() == 0),
    {
        let list = self.spell_list();
        list.len() == 0
    }

    /// Pays a spell's cost from the current magic points.
    pub fn consume_mp(&mut self, spell_info: &SpellInfo)
        requires
            old(self).mp >= spell_info.mp_cost,
        ensures
            *final(self) == (Player { mp: final(self).mp, ..*old(self) }),
            final(self).mp == old(self).mp - spell_info.mp_cost,
    {
        self.mp = self.mp - spell_info.mp_cost;
    }

    /// Fills the hit points to the derived maximum.
    pub fn hp_maximize(&mut self)
        ensures
            *final(self) == (Player { hp: final(self).hp, ..*old(self) }),
            final(self).hp == spec_player_status(*old(self)).max_hp,
    {
        self.hp = self.max_hp();
    }

    /// Fills the magic points to the derived maximum.
    pub fn mp_maximize(&mut self)
        ensures
            *final(self) == (Player { mp: final(self).mp, ..*old(self) }),
            final(self).mp == spec_player_status(*old(self)).max_mp,
    {
        self.mp = self.max_mp();
    }

    /// Whether the player still stands.
    pub fn is_alive(&self) -> (r: bool)
        ensures
            r == (self.hp > 0),
    {
        self.hp > 0
    }

    /// Whether the strongest armor is worn.
    pub fn is_max_armor(&self) -> (r: bool)
        ensures
            r == (self.armor == 7),
    {
        self.armor == 7
    }

    /// Whether the magic armor is worn.
    pub fn is_magic_armor(&self) -> (r: bool)
        ensures
            r == (self.armor == 6),
    {
        self.armor == 6
    }

    /// Spell damage after the armor correction: cut to two thirds under
    /// the magic or the strongest armor.
    pub fn reduce_spell_damage(&self, base_damage: u8) -> (r: u8)
        ensures
            (self.armor == 6 || self.armor == 7) ==> r as int == (base_damage as int) * 2 / 3,
            !(self.armor == 6 || self.armor == 7) ==> r == base_damage,
    {
        if self.is_magic_armor() || self.is_max_armor() {
            (((base_damage as u16) * 2) / 3) as u8
        } else {
            base_damage
        }
    }

    /// Flame damage after the armor correction: cut to two thirds under
    /// the strongest armor only.
    pub fn reduce_fire_damage(&self, base_damage: u8) -> (r: u8)
        ensures
            self.armor == 7 ==> r as int == (base_damage as int) * 2 / 3,
            self.armor != 7 ==> r == base_damage,
    {
        if self.is_max_armor() {
            (((base_damage as u16) * 2) / 3) as u8
        } else {
            base_damage
        }
    }

    /// Eats one herb: heals a bounded random amount, capped at the
    /// derived maximum, and spends the herb; nothing else changes. The
    /// healed player always stands.
    pub fn use_herbs(&mut self)
        requires
            old(self).herbs > 0,
        ensures
            *final(self) == (Player {
                hp: final(self).hp,
                herbs: (old(self).herbs - 1) as u8,
                ..*old(self)
            }),
            exists|h: int|
                #![trigger (old(self).hp as int + h)]
                23 <= h <= 30 && final(self).hp as int == ({
                    let target = old(self).hp as int + h;
                    let maxv = spec_player_status(*old(self)).max_hp as int;
                    if target > maxv {
                        maxv
                    } else {
                        target
                    }
                }),
            final(self).hp >= 1,
    {
        let heal = generate_in_range(23, 30);
        proof {
            lemma_player_max_hp_floor(*self);
        }
        self.adjust_hp(heal as i16);
        self.herbs = self.herbs - 1;
        proof {
            assert(23 <= heal as int <= 30 && final(self).hp as int == ({
                let target = old(self).hp as int + heal as int;
                let maxv = spec_player_status(*old(self)).max_hp as int;
                if target > maxv {
                    maxv
                } else {
                    target
                }
            }));
        }
    }

    /// Puts the warrior's ring on.
    pub fn equip_warrior_ring(&mut self)
        ensures
            *final(self) == (Player { flags: final(self).flags, ..*old(self) }),
            final(self).flags == (Flags { has_warrior_ring: true, ..old(self).flags }),
    {
        self.flags = Flags { has_warrior_ring: true, ..self.flags };
    }

    /// Puts the cursed belt on: the curse takes hold for good.
    pub fn equip_cursed_belt(&mut self)
        ensures
            *final(self) == (Player {
                flags: final(self).flags,
                is_curse_belt: true,
                ..*old(self)
            }),
            final(self).flags == (Flags { has_cursed_necklace: true, ..old(self).flags }),
    {
        self.flags = Flags { has_cursed_necklace: true, ..self.flags };
        self.is_curse_belt = true;
    }

    /// Puts the cursed necklace on: the curse takes hold for good.
    pub fn equip_cursed_necklace(&mut self)
        ensures
            *final(self) == (Player {
                flags: final(self).flags,
                is_curse_necklace: true,
                ..*old(self)
            }),
            final(self).flags == (Flags { has_cursed_necklace: true, ..old(self).flags }),
    {
        self.flags = Flags { has_cursed_necklace: true, ..self.flags };
        self.is_curse_necklace = true;
    }

    /// The short display view.
    pub fn summary(&self) -> (r: PlayerSummary)
        ensures
            r.name@ == self.name@,
            r.level as int == spec_level_by_exp(self.exp as int),
            r.hp == self.hp && r.mp == self.mp && r.gold == self.gold && r.experience == self.exp,
    {
        PlayerSummary {
            name: self.name.clone(),
            level: self.level(),
            hp: self.hp,
            mp: self.mp,
            gold: self.gold,
            experience: self.exp,
        }
    }

    /// The full strength panel.
    pub fn strength_status(&self) -> (r: StrengthStatus)
        ensures
            r.level as int == spec_level_by_exp(self.exp as int),
            r.strength == spec_player_status(*self).strength,
            r.agility == spec_player_status(*self).agility,
            r.max_hp == spec_player_status(*self).max_hp,
            r.max_mp == spec_player_status(*self).max_mp,
            r.attack_power as int == spec_attack_power(*self),
            r.defense_power as int == spec_defense_power(*self),
    {
        let status = match self.status() {
            Some(s) => s,
            None => crate::status::default_status(),
        };
        let weapon = self.get_weapon();
        let armor = self.get_armor();
        let shield = self.get_shield();
        StrengthStatus {
            level: self.level(),
            strength: status.strength,
            agility: status.agility,
            max_hp: status.max_hp,
            max_mp: status.max_mp,
            attack_power: self.attack_power(),
            defense_power: self.defense_power(),
            weapon: String::from_str(weapon.name),
            armor: String::from_str(armor.name),
            shield: String::from_str(shield.name),
        }
    }

    /// The player's normal strike against a defense for a given draw.
    pub fn normal_damage_with(&self, monster_defense: u8, draw: u8) -> (r: u8)
        ensures
            r as int == spec_player_normal_damage(
                spec_attack_power(*self),
                monster_defense as int,
                draw as int,
            ),
            r <= 127,
    {
        let attack = self.attack_power() as u32;
        let effective_defense = (monster_defense / 2) as u32;
        let base = if attack >= effective_defense {
            attack - effective_defense
        } else {
            0
        };
        proof {
            assert((draw as int) * ((base as int) + 1) <= 255 * 256 && 0 <= (draw as int) * ((
            base as int) + 1) && ((draw as int) * ((base as int) + 1) / 256 + (base as int)) / 4
                <= 127) by (nonlinear_arith)
                requires
                    0 <= draw as int <= 255,
                    0 <= base as int <= 255,
            ;
        }
        let damage = ((draw as u32) * (base + 1) / 256 + base) / 4;
        damage as u8
    }

    /// The player's normal strike with a fresh draw.
    pub fn normal_damage(&self, monster: &crate::monster::Monster) -> (r: u8)
        ensures
            r <= 127,
            exists|d: int|
                0 <= d <= 255 && r as int == spec_player_normal_damage(
                    spec_attack_power(*self),
                    monster.stats.defense as int,
                    d,
                ),
    {
        let draw = random_value(255);
        let r = self.normal_damage_with(monster.stats.defense, draw);
        proof {
            assert(0 <= draw as int <= 255 && r as int == spec_player_normal_damage(
                spec_attack_power(*self),
                monster.stats.defense as int,
                draw as int,
            ));
        }
        r
    }

    /// The player's critical strike for a given draw.
    pub fn critical_damage_with(&self, draw: u8) -> (r: u8)
        ensures
            r as int == spec_critical_damage(spec_attack_power(*self), draw as int),
            spec_attack_power(*self) - spec_attack_power(*self) / 2 <= r as int
                <= spec_attack_power(*self),
    {
        let attack = self.attack_power() as u32;
        proof {
            assert(0 <= ((attack as int) / 2) * (draw as int) && ((attack as int) / 2) * (
            draw as int) / 256 <= (attack as int) / 2) by (nonlinear_arith)
                requires
                    0 <= draw as int <= 255,
                    0 <= attack as int <= 255,
            ;
        }
        let damage = attack - (attack / 2) * (draw as u32) / 256;
        damage as u8
    }

    /// The player's critical strike with a fresh draw: never under half
    /// the attack power.
    pub fn critical_damage(&self) -> (r: u8)
        ensures
            spec_attack_power(*self) - spec_attack_power(*self) / 2 <= r as int
                <= spec_attack_power(*self),
    {
        let draw = random_value(255);
        self.critical_damage_with(draw)
    }

    /// Raises every belonging and stat to its ceiling.
    pub fn maximize(&mut self)
        ensures
            final(self).name == old(self).name,
            final(self).exp == 65535 && final(self).gold == 65535,
            final(self).weapon == 7 && final(self).armor == 7 && final(self).shield == 3,
            final(self).herbs == 6 && final(self).keys == 6,
            final(self).flags == (Flags {
                has_dragon_scale: true,
                has_warrior_ring: true,
                has_cursed_necklace: true,
                defeated_dragon: true,
                defeated_golem: true,
            }),
            final(self).hp == spec_player_status(*final(self)).max_hp,
            final(self).mp == spec_player_status(*final(self)).max_mp,
            final(self).items@ =~= seq![4u8, 6u8, 7u8, 8u8, 10u8, 12u8, 13u8, 14u8],
    {
        self.exp = 65535;
        self.gold = 65535;
        self.weapon = 7;
        self.armor = 7;
        self.shield = 3;
        self.items = [4, 6, 7, 8, 10, 12, 13, 14];
        self.herbs = 6;
        self.keys = 6;
        self.flags = Flags {
            has_dragon_scale: true,
            has_warrior_ring: true,
            has_cursed_necklace: true,
            defeated_dragon: true,
            defeated_golem: true,
        };
        self.hp_maximize();
        self.mp_maximize();
    }
}

impl PlayerArgs {
    /// Player overrides taken field for field from a save record.
    pub fn from_save_data(save: &SaveData) -> (r: PlayerArgs)
        ensures
            r.name matches Some(n) && n@ == save.name@,
            r.exp == Some(save.experience),
            r.gold == Some(save.gold),
            r.weapon == Some(save.weapon),
            r.armor == Some(save.armor),
            r.shield == Some(save.shield),
            r.items matches Some(it) && it@ == save.items@,
            r.herbs == Some(save.herbs),
            r.keys == Some(save.keys),
            r.flags == Some(
                (Flags {
                    has_dragon_scale: save.has_dragon_scale,
                    has_warrior_ring: save.has_warrior_ring,
                    has_cursed_necklace: save.has_cursed_necklace,
                    defeated_dragon: save.defeated_dragon,
                    defeated_golem: save.defeated_golem,
                }),
            ),
            r.level is None,
    {
        PlayerArgs {
            name: Some(save.name.clone()),
            level: None,
            exp: Some(save.experience),
            gold: Some(save.gold),
            weapon: Some(save.weapon),
            armor: Some(save.armor),
            shield: Some(save.shield),
            items: Some(save.items),
            herbs: Some(save.herbs),
            keys: Some(save.keys),
            flags: Some(
                Flags {
                    has_dragon_scale: save.has_dragon_scale,
                    has_warrior_ring: save.has_warrior_ring,
                    has_cursed_necklace: save.has_cursed_necklace,
                    defeated_dragon: save.defeated_dragon,
                    defeated_golem: save.defeated_golem,
                },
            ),
        }
    }
}

impl Player {
    /// A player rebuilt from a save record.
    pub fn from_save_data(save: &SaveData) -> (r: Player)
        ensures
            r.name@ == spec_name_normalize(save.name@),
            r.exp >= save.experience,
            r.gold == save.gold && r.weapon == save.weapon && r.armor == save.armor && r.shield
                == save.shield,
            r.items@ == save.items@,
            r.herbs == save.herbs && r.keys == save.keys,
    {
        Player::new_with(PlayerArgs::from_save_data(save))
    }

    /// A player rebuilt from a password; fails exactly when the password
    /// is not twenty characters of the password alphabet.
    pub fn from_password_string(s: &str) -> (r: Result<Player, String>)
        ensures
            r is Ok <==> s@.len() == 20 && (forall|i: int|
                0 <= i < 20 ==> crate::text::password_seq().contains(#[trigger] s@[i])),
    {
        match decode_from_password_string(s) {
            Ok(save) => Ok(Player::from_save_data(&save)),
            Err(e) => Err(e),
        }
    }

    /// The password that carries the player's current state; each of its
    /// twenty characters is pinned by the written record.
    pub fn to_password_string(&self) -> (r: Result<String, String>)
        ensures
            r is Ok,
            r matches Ok(p) ==> p@.len() == 20 && exists|sd: SaveData|
                sd.name@ == spec_name_normalize(self.name@) && sd.experience == self.exp
                    && sd.gold == self.gold && sd.weapon == self.weapon && sd.armor == self.armor
                    && sd.shield == self.shield && sd.items@ == self.items@ && sd.herbs
                    == self.herbs && sd.keys == self.keys && sd.has_dragon_scale
                    == self.flags.has_dragon_scale && sd.has_warrior_ring
                    == self.flags.has_warrior_ring && sd.has_cursed_necklace
                    == self.flags.has_cursed_necklace && sd.defeated_dragon
                    == self.flags.defeated_dragon && sd.defeated_golem
                    == self.flags.defeated_golem && sd.pattern == 0 && (forall|j: int|
                    0 <= j < 20 ==> #[trigger] p@[j] == spec_password_char(sd, j)),
    {
        let save = SaveData::new_with(
            SaveDataArgs {
                name: Some(self.name.clone()),
                experience: Some(self.exp),
                gold: Some(self.gold),
                weapon: Some(self.weapon),
                armor: Some(self.armor),
                shield: Some(self.shield),
                items: Some(self.items),
                herbs: Some(self.herbs),
                keys: Some(self.keys),
                has_dragon_scale: Some(self.flags.has_dragon_scale),
                has_warrior_ring: Some(self.flags.has_warrior_ring),
                has_cursed_necklace: Some(self.flags.has_cursed_necklace),
                defeated_dragon: Some(self.flags.defeated_dragon),
                defeated_golem: Some(self.flags.defeated_golem),
                pattern: None,
            },
        );
        match save.to_password_string() {
            Ok(p) => Ok(p),
            Err(e) => Err(e),
        }
    }
}

/// Every derived maximum of hit points is at least thirteen: the raw
/// table rows never fall under fifteen, and the growth correction keeps
/// at least nine tenths of that.
pub proof fn lemma_player_max_hp_floor(p: Player)
    ensures
        spec_player_status(p).max_hp >= 13,
{
    lemma_level_by_exp_range(p.exp as int);
    let lv = spec_level_by_exp(p.exp as int);
    assert(forall|i: int|
        0 <= i < 30 ==> (#[trigger] spec_status_table()[i]).max_hp >= 15);
    let base = spec_status_table()[lv - 1];
    let abc = spec_calculate_abc(spec_growth_name_total(p.name@));
    assert(abc.a <= 3);
    assert(spec_apply_modifier(base.max_hp as int, abc.b == 0, abc.a as int) >= 13);
}

/// The herb and key head of the item menu.
pub open spec fn spec_menu_head(p: Player) -> Seq<UnifiedItem> {
    let herbs: Seq<UnifiedItem> = if p.herbs > 0 {
        seq![
            (UnifiedItem { id: 101, name: "やくそう", count: p.herbs, kind: ItemKind::Herb }),
        ]
    } else {
        Seq::empty()
    };
    let keys: Seq<UnifiedItem> = if p.keys > 0 {
        seq![(UnifiedItem { id: 102, name: "かぎ", count: p.keys, kind: ItemKind::Key })]
    } else {
        Seq::empty()
    };
    herbs + keys
}

/// The equipment entries the item slots contribute, in slot order: every
/// in-range slot whose row names a real item.
pub open spec fn spec_equipment_entries(items: Seq<u8>) -> Seq<UnifiedItem>
    decreases items.len(),
{
    if items.len() == 0 {
        Seq::empty()
    } else {
        let rest = spec_equipment_entries(items.drop_last());
        let id = items.last();
        if 0 <= id < spec_item_master().len() && spec_item_master()[id as int].name@ != "なし"@ {
            rest.push(
                (UnifiedItem {
                    id,
                    name: spec_item_master()[id as int].name,
                    count: 1,
                    kind: ItemKind::Equipment,
                }),
            )
        } else {
            rest
        }
    }
}

/// The whole item menu a player shows.
pub open spec fn spec_unified_items(p: Player) -> Seq<UnifiedItem> {
    spec_menu_head(p) + spec_equipment_entries(p.items@)
}

/// Two filters with pointwise-equal predicates keep the same elements.
proof fn lemma_filter_equiv(
    s: Seq<SpellInfo>,
    p1: spec_fn(SpellInfo) -> bool,
    p2: spec_fn(SpellInfo) -> bool,
)
    requires
        forall|x: SpellInfo| #[trigger] p1(x) == p2(x),
    ensures
        s.filter(p1) == s.filter(p2),
    decreases s.len(),
{
    reveal(Seq::filter);
    if s.len() > 0 {
        lemma_filter_equiv(s.drop_last(), p1, p2);
    }
}

} // verus!
