use rand::RngExt;
use vstd::prelude::*;

verus! {

/// Draws one value uniformly from `0..=n`.
///
/// Relies on `rand::RngExt::random_range` over the inclusive range
/// `0..=n`: the range is never empty and the result never exceeds its
/// upper bound. Nothing more is assumed of the draw.
#[verifier::external_body]
pub fn random_value(n: u8) -> (r: u8)
    ensures
        r <= n,
{
    let mut rng = rand::rng();
    rng.random_range(0..=n)
}

/// The draw threshold a success chance maps to: the chance, given in
/// hundredths of a percent, scaled onto the 256 possible draws and
/// rounded to the nearest.
pub open spec fn spec_percent_threshold(hundredths: int) -> int {
    (hundredths * 256 + 5000) / 10000
}

/// Whether one draw passes a percentage check.
pub open spec fn spec_percent_success(hundredths: int, draw: int) -> bool {
    if hundredths <= 0 {
        false
    } else if hundredths >= 10000 {
        true
    } else {
        draw < spec_percent_threshold(hundredths)
    }
}

/// Whether one draw passes a one-in-`denominator` check.
pub open spec fn spec_ratio_success(denominator: int, draw: int) -> bool {
    if denominator == 0 {
        true
    } else {
        draw < 256int / denominator
    }
}

/// The bounded value one draw maps to: `min` plus the draw scaled over
/// the width of the range; exactly `min` when the range is empty.
pub open spec fn spec_generate_in_range(min: int, max: int, draw: int) -> int {
    if min >= max {
        min
    } else {
        min + draw * (max - min) / 256
    }
}

/// Decides a percentage check for a given draw.
pub fn percent_success_with(percent_hundredths: u16, draw: u8) -> (r: bool)
    ensures
        r == spec_percent_success(percent_hundredths as int, draw as int),
{
    if percent_hundredths == 0 {
        return false;
    }
    if percent_hundredths >= 10000 {
        return true;
    }
    let threshold = ((percent_hundredths as u32) * 256 + 5000) / 10000;
    (draw as u32) < threshold
}

/// Rolls a percentage check, the chance given in hundredths of a percent.
/// A zero chance never succeeds and a full chance always does; in between
/// the outcome follows the drawn value.
pub fn random_success_by_percent(percent_hundredths: u16) -> (r: bool)
    ensures
        percent_hundredths == 0 ==> !r,
        percent_hundredths >= 10000 ==> r,
{
    let draw = random_value(255);
    percent_success_with(percent_hundredths, draw)
}

/// Decides a one-in-`denominator` check for a given draw.
pub fn ratio_success_with(denominator: u16, draw: u8) -> (r: bool)
    ensures
        r == spec_ratio_success(denominator as int, draw as int),
{
    if denominator == 0 {
        return true;
    }
    (draw as u16) < 256 / denominator
}

/// Rolls a one-in-`denominator` check. A zero denominator always
/// succeeds; one past 256 never can.
pub fn random_success_by_ratio(denominator: u16) -> (r: bool)
    ensures
        denominator == 0 ==> r,
        denominator > 256 ==> !r,
{
    let draw = random_value(255);
    proof {
        if denominator > 256 {
            assert(256int / (denominator as int) == 0) by (nonlinear_arith)
                requires
                    denominator > 256,
            ;
        }
    }
    ratio_success_with(denominator, draw)
}

/// Maps a given draw into `min..=max`; exactly `min` when `min >= max`.
pub fn generate_in_range_with(min: u8, max: u8, draw: u8) -> (r: u8)
    ensures
        r as int == spec_generate_in_range(min as int, max as int, draw as int),
        min <= max ==> min <= r <= max,
        min >= max ==> r == min,
{
    if min >= max {
        return min;
    }
    let range = (max - min) as u32;
    proof {
        assert(0 <= (draw as int) * ((max as int) - (min as int)) <= 255 * 255 && (draw as int) * ((
        max as int) - (min as int)) / 256 <= (max as int) - (min as int)) by (nonlinear_arith)
            requires
                0 <= draw as int <= 255,
                0 < (max as int) - (min as int) <= 255,
        ;
    }
    let value = (min as u32) + (draw as u32) * range / 256;
    value as u8
}

/// Draws a bounded value in `min..=max`; exactly `min` when `min >= max`.
pub fn generate_in_range(min: u8, max: u8) -> (r: u8)
    ensures
        min <= max ==> min <= r <= max,
        min >= max ==> r == min,
{
    let draw = random_value(255);
    generate_in_range_with(min, max, draw)
}

/// The bound on the opposing escape draw, a constant per monster index
/// band.
pub open spec fn spec_escape_rand_max(index: int) -> int {
    if 0 <= index <= 19 {
        63
    } else if 20 <= index <= 29 {
        94
    } else if 30 <= index <= 34 {
        127
    } else if 35 <= index <= 39 {
        255
    } else {
        63
    }
}

/// The escape-band constant of a monster index.
pub fn get_escape_rand_max_by_monster_index(index: usize) -> (r: u8)
    ensures
        r as int == spec_escape_rand_max(index as int),
{
    if index <= 19 {
        63
    } else if index <= 29 {
        94
    } else if index <= 34 {
        127
    } else if index <= 39 {
        255
    } else {
        63
    }
}

/// Whether an escape attempt with the two given draws gets away: the
/// fleeing side's agility scaled by its draw must reach the opposing
/// defense scaled by the opposing draw.
pub open spec fn spec_escape_success(agility: int, defense: int, d1: int, d2: int) -> bool {
    agility * d1 >= defense * d2
}

/// Decides an escape attempt for two given draws.
pub fn escape_success_with(player_agility: u16, monster_defense: u16, d1: u8, d2: u8) -> (r: bool)
    ensures
        r == spec_escape_success(player_agility as int, monster_defense as int, d1 as int, d2 as int),
{
    proof {
        assert(0 <= (player_agility as int) * (d1 as int) <= 65535 * 255 && 0 <= (
        monster_defense as int) * (d2 as int) <= 65535 * 255) by (nonlinear_arith)
            requires
                0 <= player_agility as int <= 65535,
                0 <= monster_defense as int <= 65535,
                0 <= d1 as int <= 255,
                0 <= d2 as int <= 255,
        ;
    }
    (player_agility as u32) * (d1 as u32) >= (monster_defense as u32) * (d2 as u32)
}

/// Rolls an escape attempt: one free draw for the fleeing side, one draw
/// bounded by the monster's escape band for the opposing side. The
/// outcome is the escape inequality at two such draws; a zero opposing
/// defense always gets away.
pub fn check_escape_success(player_agility: u16, monster_defense: u16, monster_rand_max: u8) -> (r:
    bool)
    ensures
        exists|d1: int, d2: int|
            #![trigger spec_escape_success(player_agility as int, monster_defense as int, d1, d2)]
            0 <= d1 <= 255 && 0 <= d2 <= monster_rand_max as int && r == spec_escape_success(
                player_agility as int,
                monster_defense as int,
                d1,
                d2,
            ),
        monster_defense == 0 ==> r,
{
    let d1 = random_value(255);
    let d2 = random_value(monster_rand_max);
    let r = escape_success_with(player_agility, monster_defense, d1, d2);
    proof {
        assert(0 <= d1 as int <= 255 && 0 <= d2 as int <= monster_rand_max as int && r
            == spec_escape_success(
            player_agility as int,
            monster_defense as int,
            d1 as int,
            d2 as int,
        ));
        assert((player_agility as int) * (d1 as int) >= 0) by (nonlinear_arith)
            requires
                player_agility as int >= 0,
                d1 as int >= 0,
        ;
        if monster_defense == 0 {
            assert((monster_defense as int) * (d2 as int) == 0) by (nonlinear_arith)
                requires
                    monster_defense as int == 0,
            ;
        }
    }
    r
}

} // verus!
