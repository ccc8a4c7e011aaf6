use vstd::prelude::*;

verus! {

use crate::status::{default_status, Status};
use crate::status_table::{spec_status_table, status_table};
use crate::status_utils::{spec_apply_abc, get_status_by_level};
use crate::string_utils::{lemma_name_normalize_wf, name_normalize, spec_name_normalize};
use crate::text::{kana_index_of, kana_position, kana_seq};

/// The growth pattern a name total selects: a bonus and two switches.
#[derive(Debug, Clone, PartialEq, Eq, Structural)]
pub struct GrowthModifiers {
    pub a: u16,
    pub b: u16,
    pub c: u16,
}

/// The growth value of one normalized-name character: the voicing marks
/// count as fixed small values, every other character as its table
/// position modulo sixteen.
pub open spec fn spec_growth_char_value(c: char) -> int {
    if c == '゛' {
        3
    } else if c == '゜' {
        4
    } else if kana_seq().contains(c) {
        kana_index_of(c) % 16
    } else {
        0
    }
}

/// The growth values of a character sequence added up.
pub open spec fn spec_growth_sum(s: Seq<char>) -> int
    decreases s.len(),
{
    if s.len() == 0 {
        0
    } else {
        spec_growth_sum(s.drop_last()) + spec_growth_char_value(s.last())
    }
}

/// The name total that steers growth: the normalized name's character
/// values added up, modulo sixteen.
pub open spec fn spec_growth_name_total(s: Seq<char>) -> int {
    spec_growth_sum(spec_name_normalize(s)) % 16
}

/// The growth pattern a total selects.
pub open spec fn spec_calculate_abc(total: int) -> GrowthModifiers {
    GrowthModifiers {
        a: ((total / 4) % 4) as u16,
        b: ((total / 2) % 2) as u16,
        c: (total % 2) as u16,
    }
}

fn growth_char_value(c: char) -> (r: u8)
    ensures
        r as int == spec_growth_char_value(c),
        r <= 15,
{
    if c == '゛' {
        3
    } else if c == '゜' {
        4
    } else {
        match kana_position(c) {
            Some(i) => i % 16,
            None => 0,
        }
    }
}

/// The name total of a raw name: normalize it, add up the character
/// values, keep the result modulo sixteen.
pub fn calculate_growth_name_total(name: &str) -> (r: u16)
    ensures
        r as int == spec_growth_name_total(name@),
        r <= 15,
{
    let normalized = name_normalize(name);
    let ghost norm = normalized@;
    let n = normalized.as_str().unicode_len();
    let mut sum: u16 = 0;
    let mut i: usize = 0;
    while i < n
        invariant
            n == norm.len(),
            norm == spec_name_normalize(name@),
            normalized@ == norm,
            i <= n,
            sum as int == spec_growth_sum(norm.take(i as int)),
            sum <= 15 * i,
            n <= 4,
        decreases n - i,
    {
        let c = normalized.as_str().get_char(i);
        proof {
            assert(norm.take(i + 1).drop_last() =~= norm.take(i as int));
            assert(norm.take(i + 1).last() == norm[i as int]);
        }
        sum = sum + (growth_char_value(c) as u16);
        i = i + 1;
    }
    proof {
        assert(norm.take(n as int) =~= norm);
        lemma_name_normalize_wf(name@);
    }
    sum % 16
}

/// The growth pattern of a total.
pub fn calculate_abc(total: u16) -> (r: GrowthModifiers)
    ensures
        r == spec_calculate_abc(total as int),
        r.a <= 3 && r.b <= 1 && r.c <= 1,
{
    GrowthModifiers { a: (total / 4) % 4, b: (total / 2) % 2, c: total % 2 }
}

/// All thirty growth rows with a name's correction applied.
pub fn get_adjusted_status_list(name: &str) -> (v: Vec<Status>)
    ensures
        v@.len() == 30,
        forall|i: int|
            0 <= i < 30 ==> #[trigger] v@[i] == spec_apply_abc(
                spec_status_table()[i],
                spec_calculate_abc(spec_growth_name_total(name@)),
            ),
{
    let abc = calculate_abc(calculate_growth_name_total(name));
    let table = status_table();
    let mut v: Vec<Status> = Vec::new();
    let mut i: usize = 0;
    while i < table.len()
        invariant
            table@ == spec_status_table(),
            abc == spec_calculate_abc(spec_growth_name_total(name@)),
            abc.a <= 3,
            i <= 30,
            v@.len() == i,
            forall|j: int|
                0 <= j < i ==> #[trigger] v@[j] == spec_apply_abc(spec_status_table()[j], abc),
        decreases table@.len() - i,
    {
        v.push(table[i].apply_abc_modifiers(&abc));
        i = i + 1;
    }
    v
}

/// The growth row of a level with a name's correction applied; levels
/// outside the table correct the all-zero row.
pub fn get_adjusted_status_by_name_lv(name: &str, lv: u8) -> (r: Status)
    ensures
        ({
            let base = if 1 <= lv <= 30 {
                spec_status_table()[lv - 1]
            } else {
                (Status {
                    level: 1,
                    strength: 0,
                    agility: 0,
                    max_hp: 0,
                    max_mp: 0,
                    required_exp: 0,
                    spell: None,
                })
            };
            r == spec_apply_abc(base, spec_calculate_abc(spec_growth_name_total(name@)))
        }),
{
    let abc = calculate_abc(calculate_growth_name_total(name));
    let base = match get_status_by_level(lv) {
        Some(st) => st,
        None => default_status(),
    };
    base.apply_abc_modifiers(&abc)
}

} // verus!
