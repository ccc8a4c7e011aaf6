use vstd::prelude::*;

verus! {

use crate::digits::{push_char, spec_dec, u16_to_string};
use crate::growth_type::GrowthModifiers;
use crate::status::{default_status, Status};
use crate::status_table::{spec_status_table, status_table};
use vstd::string::StringExecFns;

/// A stat after the name-based growth correction: kept as it is, or cut
/// to nine tenths with the bonus added.
pub open spec fn spec_apply_modifier(base: int, keep_base: bool, a: int) -> int {
    if keep_base {
        base
    } else {
        base * 9 / 10 + a
    }
}

/// A whole growth row after the name-based correction: the growth pattern
/// decides which stats keep their base value.
pub open spec fn spec_apply_abc(st: Status, abc: GrowthModifiers) -> Status {
    Status {
        level: st.level,
        strength: spec_apply_modifier(st.strength as int, abc.c == 1, abc.a as int) as u8,
        agility: spec_apply_modifier(st.agility as int, abc.b == 1, abc.a as int) as u8,
        max_hp: spec_apply_modifier(st.max_hp as int, abc.b == 0, abc.a as int) as u8,
        max_mp: spec_apply_modifier(st.max_mp as int, abc.c == 0, abc.a as int) as u8,
        required_exp: st.required_exp,
        spell: st.spell,
    }
}

fn apply_modifier(base: u8, keep_base: bool, a: u16) -> (r: u8)
    requires
        a <= 3,
    ensures
        r as int == spec_apply_modifier(base as int, keep_base, a as int),
{
    if keep_base {
        base
    } else {
        (((base as u16) * 9 / 10) + a) as u8
    }
}

impl Status {
    /// The row with the growth correction applied.
    pub fn apply_abc_modifiers(&self, abc: &GrowthModifiers) -> (r: Status)
        requires
            abc.a <= 3,
        ensures
            r == spec_apply_abc(*self, *abc),
    {
        Status {
            level: self.level,
            strength: apply_modifier(self.strength, abc.c == 1, abc.a),
            agility: apply_modifier(self.agility, abc.b == 1, abc.a),
            max_hp: apply_modifier(self.max_hp, abc.b == 0, abc.a),
            max_mp: apply_modifier(self.max_mp, abc.c == 0, abc.a),
            required_exp: self.required_exp,
            spell: self.spell,
        }
    }

    /// The row written out line by line for display.
    pub fn pretty_string(&self) -> (r: String)
        ensures
            r@ == "LV: "@ + spec_dec(self.level as int) + "\nちから: "@ + spec_dec(
                self.strength as int,
            ) + "\nはやさ: "@ + spec_dec(self.agility as int) + "\n最大HP: "@ + spec_dec(
                self.max_hp as int,
            ) + "\n最大MP: "@ + spec_dec(self.max_mp as int) + "\n必要EXP: "@ + spec_dec(
                self.required_exp as int,
            ) + "\n呪文: "@ + (match self.spell {
                Option::Some(sp) => sp@,
                Option::None => "なし"@,
            }),
    {
        let mut r = String::from_str("LV: ");
        r.append(u16_to_string(self.level as u16).as_str());
        r.append("\nちから: ");
        r.append(u16_to_string(self.strength as u16).as_str());
        r.append("\nはやさ: ");
        r.append(u16_to_string(self.agility as u16).as_str());
        r.append("\n最大HP: ");
        r.append(u16_to_string(self.max_hp as u16).as_str());
        r.append("\n最大MP: ");
        r.append(u16_to_string(self.max_mp as u16).as_str());
        r.append("\n必要EXP: ");
        r.append(u16_to_string(self.required_exp).as_str());
        r.append("\n呪文: ");
        match self.spell {
            Some(sp) => { r.append(sp); },
            None => { r.append("なし"); },
        }
        r
    }
}

/// The growth row of a level; nothing for levels outside `1..=30`.
pub fn get_status_by_level(level: u8) -> (r: Option<Status>)
    ensures
        1 <= level <= 30 ==> r == Some(spec_status_table()[level - 1]),
        !(1 <= level <= 30) ==> r is None,
{
    if 1 <= level && level <= 30 {
        let table = status_table();
        let mut taken = table;
        let row = taken.remove((level - 1) as usize);
        Some(row)
    } else {
        None
    }
}

/// All thirty growth rows.
pub fn get_status_list() -> (v: Vec<Status>)
    ensures
        v@ == spec_status_table(),
{
    status_table()
}

/// The level an experience total reaches, scanning the table from level
/// `lv` downward.
pub open spec fn spec_level_from(e: int, lv: int) -> int
    decreases lv,
{
    if lv <= 1 {
        1
    } else if spec_status_table()[lv - 1].required_exp <= e {
        lv
    } else {
        spec_level_from(e, lv - 1)
    }
}

/// The level an experience total reaches: the highest level whose
/// threshold is met; the first level always is.
pub open spec fn spec_level_by_exp(e: int) -> int {
    spec_level_from(e, 30)
}

/// A downward table scan lands between level one and its start.
pub proof fn lemma_level_from_range(e: int, lv: int)
    requires
        1 <= lv <= 30,
    ensures
        1 <= spec_level_from(e, lv) <= lv,
    decreases lv,
{
    if lv > 1 && !(spec_status_table()[lv - 1].required_exp <= e) {
        lemma_level_from_range(e, lv - 1);
    }
}

/// Every level the experience scan can yield lies in the table.
pub proof fn lemma_level_by_exp_range(e: int)
    ensures
        1 <= spec_level_by_exp(e) <= 30,
{
    lemma_level_from_range(e, 30);
}

/// The level an experience total reaches.
pub fn get_level_by_exp(exp: u16) -> (r: u8)
    ensures
        r as int == spec_level_by_exp(exp as int),
        1 <= r <= 30,
        spec_status_table()[r - 1].required_exp <= exp,
{
    let table = status_table();
    let mut i: usize = 30;
    while i > 1
        invariant
            1 <= i <= 30,
            table@ == spec_status_table(),
            spec_level_by_exp(exp as int) == spec_level_from(exp as int, i as int),
        decreases i,
    {
        if exp >= table[i - 1].required_exp {
            proof {
                assert(table@[i - 1].level as int == i as int);
            }
            return table[i - 1].level;
        }
        i = i - 1;
    }
    table[0].level
}

/// The higher of the level's own threshold and the given experience; the
/// threshold alone when no experience is given. Levels outside the table
/// contribute a zero threshold.
pub fn resolve_experience(level: u8, exp: Option<u16>) -> (r: u16)
    ensures
        ({
            let base: int = if 1 <= level <= 30 {
                spec_status_table()[level - 1].required_exp as int
            } else {
                0
            };
            r as int == (match exp {
                Option::Some(e) => if e as int >= base { e as int } else { base },
                Option::None => base,
            })
        }),
{
    let base = match get_status_by_level(level) {
        Some(st) => st.required_exp,
        None => default_status().required_exp,
    };
    match exp {
        Some(e) => if e >= base { e } else { base },
        None => base,
    }
}

} // verus!
