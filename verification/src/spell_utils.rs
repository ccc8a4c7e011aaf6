use vstd::prelude::*;

verus! {

use crate::monster_data::ActionType;
use crate::random_utils::generate_in_range;
use crate::spell::{spec_spell_info_list, spell_info_list, Spell, SpellInfo};
use crate::string_utils::str_eq;

/// The spell rows a level has unlocked, in table order.
pub fn spells_learned_by_level(level: u8) -> (v: Vec<SpellInfo>)
    ensures
        v@ == spec_spell_info_list().filter(|info: SpellInfo| info.learn_level <= level),
{
    let table = spell_info_list();
    let mut v: Vec<SpellInfo> = Vec::new();
    proof {
        reveal(Seq::filter);
        assert(spec_spell_info_list().take(0) =~= Seq::<SpellInfo>::empty());
    }
    let mut i: usize = 0;
    while i < table.len()
        invariant
            table@ == spec_spell_info_list(),
            i <= 10,
            v@ == spec_spell_info_list().take(i as int).filter(
                |info: SpellInfo| info.learn_level <= level,
            ),
        decreases table@.len() - i,
    {
        proof {
            reveal(Seq::filter);
            assert(spec_spell_info_list().take(i + 1).drop_last() =~= spec_spell_info_list().take(
                i as int,
            ));
        }
        if table[i].learn_level <= level {
            v.push(table[i]);
        }
        i = i + 1;
    }
    proof {
        reveal(Seq::filter);
        assert(spec_spell_info_list().take(10) =~= spec_spell_info_list());
    }
    v
}

/// The table row of a spell.
pub fn get_spell_info(spell: Spell) -> (r: Option<SpellInfo>)
    ensures
        match r {
            Option::Some(info) => info.spell == spell && spec_spell_info_list().contains(info),
            Option::None => forall|j: int|
                0 <= j < 10 ==> (#[trigger] spec_spell_info_list()[j]).spell != spell,
        },
{
    let table = spell_info_list();
    let mut i: usize = 0;
    while i < table.len()
        invariant
            table@ == spec_spell_info_list(),
            i <= 10,
            forall|j: int| 0 <= j < i ==> (#[trigger] spec_spell_info_list()[j]).spell != spell,
        decreases table@.len() - i,
    {
        if table[i].spell == spell {
            proof {
                assert(spec_spell_info_list().contains(spec_spell_info_list()[i as int]));
            }
            return Some(table[i]);
        }
        i = i + 1;
    }
    None
}

/// The spell a display name denotes, if any.
pub open spec fn spec_spell_from_name(s: Seq<char>) -> Option<Spell> {
    if s == "ホイミ"@ { Some(Spell::Hoimi) }
    else if s == "ギラ"@ { Some(Spell::Gira) }
    else if s == "ラリホー"@ { Some(Spell::Rarirho) }
    else if s == "レミーラ"@ { Some(Spell::Remira) }
    else if s == "マホトーン"@ { Some(Spell::Mahoton) }
    else if s == "リレミト"@ { Some(Spell::Riremito) }
    else if s == "ルーラ"@ { Some(Spell::Rura) }
    else if s == "トヘロス"@ { Some(Spell::Toheros) }
    else if s == "ベホイミ"@ { Some(Spell::Behoimi) }
    else if s == "ベギラマ"@ { Some(Spell::Begirama) }
    else { None }
}

/// The spell a display name denotes, if any.
pub fn spell_from_name(name: &str) -> (r: Option<Spell>)
    ensures
        r == spec_spell_from_name(name@),
{
    if str_eq(name, "ホイミ") { Some(Spell::Hoimi) }
    else if str_eq(name, "ギラ") { Some(Spell::Gira) }
    else if str_eq(name, "ラリホー") { Some(Spell::Rarirho) }
    else if str_eq(name, "レミーラ") { Some(Spell::Remira) }
    else if str_eq(name, "マホトーン") { Some(Spell::Mahoton) }
    else if str_eq(name, "リレミト") { Some(Spell::Riremito) }
    else if str_eq(name, "ルーラ") { Some(Spell::Rura) }
    else if str_eq(name, "トヘロス") { Some(Spell::Toheros) }
    else if str_eq(name, "ベホイミ") { Some(Spell::Behoimi) }
    else if str_eq(name, "ベギラマ") { Some(Spell::Begirama) }
    else { None }
}

/// The table row behind a display name, if the name denotes a spell.
pub fn get_spell_info_by_name(name: &str) -> (r: Option<SpellInfo>)
    ensures
        spec_spell_from_name(name@) is None ==> r is None,
        r matches Some(info) ==> Some(info.spell) == spec_spell_from_name(name@)
            && spec_spell_info_list().contains(info),
{
    match spell_from_name(name) {
        Some(spell) => get_spell_info(spell),
        None => None,
    }
}

/// The magnitude of a spell the player casts: a fresh bounded draw for
/// the spells that act in battle, zero for any other.
pub fn player_spell_effect(spell: Spell) -> (r: u8)
    ensures
        spell == Spell::Hoimi ==> 10 <= r <= 17,
        spell == Spell::Gira ==> 5 <= r <= 12,
        spell == Spell::Behoimi ==> 85 <= r <= 100,
        spell == Spell::Begirama ==> 58 <= r <= 65,
        !(spell == Spell::Hoimi || spell == Spell::Gira || spell == Spell::Behoimi || spell
            == Spell::Begirama) ==> r == 0,
{
    match spell {
        Spell::Hoimi => generate_in_range(10, 17),
        Spell::Gira => generate_in_range(5, 12),
        Spell::Behoimi => generate_in_range(85, 100),
        Spell::Begirama => generate_in_range(58, 65),
        _ => 0,
    }
}

/// Whether a special's name is the weak flame breath.
pub open spec fn spec_is_weak_flame(s: Seq<char>) -> bool {
    s == "ほのお(弱)"@
}

/// Whether a special's name is the strong flame breath.
pub open spec fn spec_is_strong_flame(s: Seq<char>) -> bool {
    s == "ほのお(強)"@
}

/// The magnitude of a monster move: a fresh bounded draw for each spell
/// or breath the battle knows, zero for any other.
pub fn monster_action_effect(action: &ActionType) -> (r: u8)
    ensures
        *action == ActionType::Spell(Spell::Hoimi) ==> 20 <= r <= 27,
        *action == ActionType::Spell(Spell::Behoimi) ==> 85 <= r <= 100,
        *action == ActionType::Spell(Spell::Gira) ==> 3 <= r <= 10,
        *action == ActionType::Spell(Spell::Begirama) ==> 30 <= r <= 45,
        (*action matches ActionType::Spell(sp) && sp != Spell::Hoimi && sp != Spell::Behoimi && sp
            != Spell::Gira && sp != Spell::Begirama) ==> r == 0,
        (*action matches ActionType::Special(name) && spec_is_weak_flame(name@)) ==> 16 <= r <= 23,
        (*action matches ActionType::Special(name) && spec_is_strong_flame(name@)) ==> 65 <= r
            <= 72,
        (*action matches ActionType::Special(name) && !spec_is_weak_flame(name@)
            && !spec_is_strong_flame(name@)) ==> r == 0,
{
    match action {
        ActionType::Spell(spell) => {
            let sp = *spell;
            if sp == Spell::Hoimi {
                generate_in_range(20, 27)
            } else if sp == Spell::Behoimi {
                generate_in_range(85, 100)
            } else if sp == Spell::Gira {
                generate_in_range(3, 10)
            } else if sp == Spell::Begirama {
                generate_in_range(30, 45)
            } else {
                0
            }
        },
        ActionType::Special(name) => {
            proof {
                reveal_strlit("ほのお(弱)");
                reveal_strlit("ほのお(強)");
                assert(("ほのお(弱)"@)[4] == '弱');
                assert(("ほのお(強)"@)[4] == '強');
                assert("ほのお(弱)"@ != "ほのお(強)"@);
            }
            if str_eq(name, "ほのお(弱)") {
                generate_in_range(16, 23)
            } else if str_eq(name, "ほのお(強)") {
                generate_in_range(65, 72)
            } else {
                0
            }
        },
    }
}

} // verus!
