use vstd::prelude::*;

verus! {

use crate::spell::{Spell, SpellResistance};

/// The static stats of one monster kind.
#[derive(Debug, Clone, Copy, PartialEq, Eq)]
pub struct MonsterStats {
    pub name: &'static str,
    pub hp: u8,
    pub attack: u8,
    pub defense: u8,
    pub exp: u8,
    pub gold: u8,
}

/// What one monster move is: a real spell, or an innate special named in
/// the data.
#[derive(Debug, Clone, Copy, PartialEq, Eq)]
pub enum ActionType {
    Spell(Spell),
    Special(&'static str),
}

/// One candidate move of a monster with its activation rate in percent.
#[derive(Debug, Clone, Copy, PartialEq, Eq)]
pub struct MonsterAction {
    pub ab_type: &'static str,
    pub action: ActionType,
    pub rate: u8,
}

/// The behaviour profile of one monster kind. The evasion rate is stored
/// in hundredths of a percent.
#[derive(Debug, Clone, PartialEq, Eq)]
pub struct MonsterBehavior {
    pub index: usize,
    pub resist: SpellResistance,
    pub evade_rate_hundredths: u16,
    pub actions: Vec<MonsterAction>,
}

/// The forty-row monster stat table.
pub open spec fn spec_monster_master() -> Seq<MonsterStats> {
    seq![
        MonsterStats { name: "スライム", hp: 3, attack: 5, defense: 3, exp: 1, gold: 2 },
        MonsterStats { name: "スライムベス", hp: 4, attack: 7, defense: 3, exp: 1, gold: 2 },
        MonsterStats { name: "ドラキー", hp: 6, attack: 9, defense: 6, exp: 2, gold: 2 },
        MonsterStats { name: "ゴースト", hp: 7, attack: 11, defense: 8, exp: 3, gold: 4 },
        MonsterStats { name: "まほうつかい", hp: 13, attack: 11, defense: 12, exp: 4, gold: 11 },
        MonsterStats { name: "メイジドラキー", hp: 15, attack: 14, defense: 14, exp: 5, gold: 11 },
        MonsterStats { name: "おおさそり", hp: 20, attack: 18, defense: 16, exp: 6, gold: 15 },
        MonsterStats { name: "がいこつ", hp: 30, attack: 28, defense: 22, exp: 11, gold: 29 },
        MonsterStats { name: "メーダ", hp: 22, attack: 20, defense: 18, exp: 7, gold: 15 },
        MonsterStats { name: "メトロゴースト", hp: 23, attack: 18, defense: 20, exp: 8, gold: 17 },
        MonsterStats { name: "ドロル", hp: 25, attack: 24, defense: 24, exp: 10, gold: 24 },
        MonsterStats { name: "ドラキーマ", hp: 20, attack: 22, defense: 26, exp: 11, gold: 19 },
        MonsterStats { name: "まどうし", hp: 30, attack: 28, defense: 22, exp: 13, gold: 34 },
        MonsterStats { name: "てつのさそり", hp: 22, attack: 36, defense: 42, exp: 14, gold: 39 },
        MonsterStats { name: "リカント", hp: 34, attack: 40, defense: 30, exp: 16, gold: 49 },
        MonsterStats { name: "しりょう", hp: 36, attack: 44, defense: 34, exp: 17, gold: 59 },
        MonsterStats { name: "リカントマムル", hp: 38, attack: 50, defense: 36, exp: 20, gold: 79 },
        MonsterStats { name: "キメラ", hp: 42, attack: 56, defense: 48, exp: 24, gold: 99 },
        MonsterStats { name: "ゴールドマン", hp: 50, attack: 48, defense: 40, exp: 6, gold: 199 },
        MonsterStats { name: "ヘルゴースト", hp: 36, attack: 40, defense: 38, exp: 18, gold: 69 },
        MonsterStats { name: "メーダロード", hp: 35, attack: 47, defense: 40, exp: 20, gold: 84 },
        MonsterStats { name: "ドロルメイジ", hp: 38, attack: 52, defense: 50, exp: 22, gold: 89 },
        MonsterStats { name: "しりょうのきし", hp: 46, attack: 68, defense: 56, exp: 28, gold: 119 },
        MonsterStats { name: "しのさそり", hp: 35, attack: 60, defense: 90, exp: 26, gold: 109 },
        MonsterStats { name: "よろいのきし", hp: 55, attack: 76, defense: 78, exp: 33, gold: 129 },
        MonsterStats { name: "かげのきし", hp: 50, attack: 79, defense: 64, exp: 37, gold: 149 },
        MonsterStats { name: "メイジキメラ", hp: 58, attack: 78, defense: 68, exp: 34, gold: 139 },
        MonsterStats { name: "メタルスライム", hp: 4, attack: 10, defense: 255, exp: 115, gold: 5 },
        MonsterStats { name: "キラーリカント", hp: 60, attack: 86, defense: 70, exp: 40, gold: 154 },
        MonsterStats { name: "スターキメラ", hp: 65, attack: 86, defense: 80, exp: 43, gold: 159 },
        MonsterStats { name: "ドラゴン", hp: 65, attack: 88, defense: 74, exp: 45, gold: 159 },
        MonsterStats { name: "だいまどう", hp: 65, attack: 80, defense: 70, exp: 50, gold: 164 },
        MonsterStats { name: "ゴーレム", hp: 70, attack: 120, defense: 60, exp: 5, gold: 9 },
        MonsterStats { name: "あくまのきし", hp: 70, attack: 94, defense: 82, exp: 54, gold: 164 },
        MonsterStats { name: "キースドラゴン", hp: 70, attack: 98, defense: 84, exp: 60, gold: 149 },
        MonsterStats { name: "ストーンマン", hp: 160, attack: 100, defense: 40, exp: 65, gold: 139 },
        MonsterStats { name: "しにがみのきし", hp: 90, attack: 105, defense: 86, exp: 70, gold: 139 },
        MonsterStats { name: "ダースドラゴン", hp: 100, attack: 120, defense: 90, exp: 100, gold: 139 },
        MonsterStats { name: "りゅうおう", hp: 100, attack: 90, defense: 75, exp: 0, gold: 0 },
        MonsterStats { name: "りゅうおう", hp: 130, attack: 140, defense: 200, exp: 0, gold: 0 },
    ]
}

pub fn monster_master() -> (v: Vec<MonsterStats>)
    ensures
        v@ == spec_monster_master(),
{
    let v: Vec<MonsterStats> = vec![
        MonsterStats { name: "スライム", hp: 3, attack: 5, defense: 3, exp: 1, gold: 2 },
        MonsterStats { name: "スライムベス", hp: 4, attack: 7, defense: 3, exp: 1, gold: 2 },
        MonsterStats { name: "ドラキー", hp: 6, attack: 9, defense: 6, exp: 2, gold: 2 },
        MonsterStats { name: "ゴースト", hp: 7, attack: 11, defense: 8, exp: 3, gold: 4 },
        MonsterStats { name: "まほうつかい", hp: 13, attack: 11, defense: 12, exp: 4, gold: 11 },
        MonsterStats { name: "メイジドラキー", hp: 15, attack: 14, defense: 14, exp: 5, gold: 11 },
        MonsterStats { name: "おおさそり", hp: 20, attack: 18, defense: 16, exp: 6, gold: 15 },
        MonsterStats { name: "がいこつ", hp: 30, attack: 28, defense: 22, exp: 11, gold: 29 },
        MonsterStats { name: "メーダ", hp: 22, attack: 20, defense: 18, exp: 7, gold: 15 },
        MonsterStats { name: "メトロゴースト", hp: 23, attack: 18, defense: 20, exp: 8, gold: 17 },
        MonsterStats { name: "ドロル", hp: 25, attack: 24, defense: 24, exp: 10, gold: 24 },
        MonsterStats { name: "ドラキーマ", hp: 20, attack: 22, defense: 26, exp: 11, gold: 19 },
        MonsterStats { name: "まどうし", hp: 30, attack: 28, defense: 22, exp: 13, gold: 34 },
        MonsterStats { name: "てつのさそり", hp: 22, attack: 36, defense: 42, exp: 14, gold: 39 },
        MonsterStats { name: "リカント", hp: 34, attack: 40, defense: 30, exp: 16, gold: 49 },
        MonsterStats { name: "しりょう", hp: 36, attack: 44, defense: 34, exp: 17, gold: 59 },
        MonsterStats { name: "リカントマムル", hp: 38, attack: 50, defense: 36, exp: 20, gold: 79 },
        MonsterStats { name: "キメラ", hp: 42, attack: 56, defense: 48, exp: 24, gold: 99 },
        MonsterStats { name: "ゴールドマン", hp: 50, attack: 48, defense: 40, exp: 6, gold: 199 },
        MonsterStats { name: "ヘルゴースト", hp: 36, attack: 40, defense: 38, exp: 18, gold: 69 },
        MonsterStats { name: "メーダロード", hp: 35, attack: 47, defense: 40, exp: 20, gold: 84 },
        MonsterStats { name: "ドロルメイジ", hp: 38, attack: 52, defense: 50, exp: 22, gold: 89 },
        MonsterStats { name: "しりょうのきし", hp: 46, attack: 68, defense: 56, exp: 28, gold: 119 },
        MonsterStats { name: "しのさそり", hp: 35, attack: 60, defense: 90, exp: 26, gold: 109 },
        MonsterStats { name: "よろいのきし", hp: 55, attack: 76, defense: 78, exp: 33, gold: 129 },
        MonsterStats { name: "かげのきし", hp: 50, attack: 79, defense: 64, exp: 37, gold: 149 },
        MonsterStats { name: "メイジキメラ", hp: 58, attack: 78, defense: 68, exp: 34, gold: 139 },
        MonsterStats { name: "メタルスライム", hp: 4, attack: 10, defense: 255, exp: 115, gold: 5 },
        MonsterStats { name: "キラーリカント", hp: 60, attack: 86, defense: 70, exp: 40, gold: 154 },
        MonsterStats { name: "スターキメラ", hp: 65, attack: 86, defense: 80, exp: 43, gold: 159 },
        MonsterStats { name: "ドラゴン", hp: 65, attack: 88, defense: 74, exp: 45, gold: 159 },
        MonsterStats { name: "だいまどう", hp: 65, attack: 80, defense: 70, exp: 50, gold: 164 },
        MonsterStats { name: "ゴーレム", hp: 70, attack: 120, defense: 60, exp: 5, gold: 9 },
        MonsterStats { name: "あくまのきし", hp: 70, attack: 94, defense: 82, exp: 54, gold: 164 },
        MonsterStats { name: "キースドラゴン", hp: 70, attack: 98, defense: 84, exp: 60, gold: 149 },
        MonsterStats { name: "ストーンマン", hp: 160, attack: 100, defense: 40, exp: 65, gold: 139 },
        MonsterStats { name: "しにがみのきし", hp: 90, attack: 105, defense: 86, exp: 70, gold: 139 },
        MonsterStats { name: "ダースドラゴン", hp: 100, attack: 120, defense: 90, exp: 100, gold: 139 },
        MonsterStats { name: "りゅうおう", hp: 100, attack: 90, defense: 75, exp: 0, gold: 0 },
        MonsterStats { name: "りゅうおう", hp: 130, attack: 140, defense: 200, exp: 0, gold: 0 },
    ];
    assert(v@ =~= spec_monster_master());
    v
}

/// The resistance profile of the behaviour row at `i`.
pub open spec fn spec_behavior_resist(i: int) -> SpellResistance {
    if i == 0 { SpellResistance { gira: 0, rariho: 0, mahoton: 94 } }
    else if i == 1 { SpellResistance { gira: 0, rariho: 0, mahoton: 94 } }
    else if i == 2 { SpellResistance { gira: 0, rariho: 0, mahoton: 94 } }
    else if i == 3 { SpellResistance { gira: 0, rariho: 0, mahoton: 94 } }
    else if i == 4 { SpellResistance { gira: 0, rariho: 0, mahoton: 0 } }
    else if i == 5 { SpellResistance { gira: 0, rariho: 0, mahoton: 0 } }
    else if i == 6 { SpellResistance { gira: 0, rariho: 0, mahoton: 94 } }
    else if i == 7 { SpellResistance { gira: 0, rariho: 0, mahoton: 94 } }
    else if i == 8 { SpellResistance { gira: 0, rariho: 0, mahoton: 94 } }
    else if i == 9 { SpellResistance { gira: 0, rariho: 0, mahoton: 0 } }
    else if i == 10 { SpellResistance { gira: 0, rariho: 0, mahoton: 88 } }
    else if i == 11 { SpellResistance { gira: 0, rariho: 12, mahoton: 0 } }
    else if i == 12 { SpellResistance { gira: 0, rariho: 19, mahoton: 6 } }
    else if i == 13 { SpellResistance { gira: 0, rariho: 0, mahoton: 94 } }
    else if i == 14 { SpellResistance { gira: 0, rariho: 6, mahoton: 94 } }
    else if i == 15 { SpellResistance { gira: 0, rariho: 44, mahoton: 0 } }
    else if i == 16 { SpellResistance { gira: 0, rariho: 25, mahoton: 44 } }
    else if i == 17 { SpellResistance { gira: 0, rariho: 25, mahoton: 94 } }
    else if i == 18 { SpellResistance { gira: 0, rariho: 81, mahoton: 94 } }
    else if i == 19 { SpellResistance { gira: 0, rariho: 19, mahoton: 6 } }
    else if i == 20 { SpellResistance { gira: 0, rariho: 94, mahoton: 0 } }
    else if i == 21 { SpellResistance { gira: 0, rariho: 12, mahoton: 12 } }
    else if i == 22 { SpellResistance { gira: 19, rariho: 31, mahoton: 0 } }
    else if i == 23 { SpellResistance { gira: 0, rariho: 44, mahoton: 94 } }
    else if i == 24 { SpellResistance { gira: 0, rariho: 38, mahoton: 44 } }
    else if i == 25 { SpellResistance { gira: 94, rariho: 94, mahoton: 94 } }
    else if i == 26 { SpellResistance { gira: 0, rariho: 12, mahoton: 0 } }
    else if i == 27 { SpellResistance { gira: 94, rariho: 94, mahoton: 94 } }
    else if i == 28 { SpellResistance { gira: 0, rariho: 44, mahoton: 94 } }
    else if i == 29 { SpellResistance { gira: 6, rariho: 50, mahoton: 0 } }
    else if i == 30 { SpellResistance { gira: 12, rariho: 44, mahoton: 94 } }
    else if i == 31 { SpellResistance { gira: 94, rariho: 94, mahoton: 44 } }
    else if i == 32 { SpellResistance { gira: 94, rariho: 94, mahoton: 94 } }
    else if i == 33 { SpellResistance { gira: 6, rariho: 94, mahoton: 19 } }
    else if i == 34 { SpellResistance { gira: 44, rariho: 94, mahoton: 94 } }
    else if i == 35 { SpellResistance { gira: 44, rariho: 12, mahoton: 94 } }
    else if i == 36 { SpellResistance { gira: 6, rariho: 94, mahoton: 44 } }
    else if i == 37 { SpellResistance { gira: 94, rariho: 94, mahoton: 44 } }
    else if i == 38 { SpellResistance { gira: 94, rariho: 94, mahoton: 94 } }
    else if i == 39 { SpellResistance { gira: 94, rariho: 94, mahoton: 94 } }
    else { SpellResistance { gira: 0, rariho: 0, mahoton: 0 } }
}

/// The evasion rate, in hundredths of a percent, of the behaviour row at
/// `i`.
pub open spec fn spec_behavior_evade(i: int) -> u16 {
    if i == 0 { 160 }
    else if i == 1 { 160 }
    else if i == 2 { 160 }
    else if i == 3 { 620 }
    else if i == 4 { 160 }
    else if i == 5 { 160 }
    else if i == 6 { 160 }
    else if i == 7 { 620 }
    else if i == 8 { 310 }
    else if i == 9 { 940 }
    else if i == 10 { 310 }
    else if i == 11 { 940 }
    else if i == 12 { 310 }
    else if i == 13 { 310 }
    else if i == 14 { 310 }
    else if i == 15 { 620 }
    else if i == 16 { 310 }
    else if i == 17 { 310 }
    else if i == 18 { 160 }
    else if i == 19 { 620 }
    else if i == 20 { 620 }
    else if i == 21 { 160 }
    else if i == 22 { 620 }
    else if i == 23 { 310 }
    else if i == 24 { 160 }
    else if i == 25 { 2340 }
    else if i == 26 { 310 }
    else if i == 27 { 160 }
    else if i == 28 { 1090 }
    else if i == 29 { 310 }
    else if i == 30 { 310 }
    else if i == 31 { 310 }
    else if i == 32 { 0 }
    else if i == 33 { 160 }
    else if i == 34 { 310 }
    else if i == 35 { 160 }
    else if i == 36 { 310 }
    else if i == 37 { 310 }
    else if i == 38 { 0 }
    else if i == 39 { 0 }
    else { 0 }
}

/// The move list of the behaviour row at `i`, in declaration order.
pub open spec fn spec_behavior_actions(i: int) -> Seq<MonsterAction> {
    if i == 0 { Seq::empty() }
    else if i == 1 { Seq::empty() }
    else if i == 2 { Seq::empty() }
    else if i == 3 { Seq::empty() }
    else if i == 4 { seq![(MonsterAction { ab_type: "B", action: ActionType::Spell(Spell::Gira), rate: 50 })] }
    else if i == 5 { seq![(MonsterAction { ab_type: "B", action: ActionType::Spell(Spell::Gira), rate: 50 })] }
    else if i == 6 { Seq::empty() }
    else if i == 7 { Seq::empty() }
    else if i == 8 { Seq::empty() }
    else if i == 9 { seq![(MonsterAction { ab_type: "B", action: ActionType::Spell(Spell::Gira), rate: 75 })] }
    else if i == 10 { Seq::empty() }
    else if i == 11 { seq![(MonsterAction { ab_type: "A", action: ActionType::Spell(Spell::Hoimi), rate: 25 }), (MonsterAction { ab_type: "B", action: ActionType::Spell(Spell::Gira), rate: 50 })] }
    else if i == 12 { seq![(MonsterAction { ab_type: "A", action: ActionType::Spell(Spell::Rarirho), rate: 25 }), (MonsterAction { ab_type: "B", action: ActionType::Spell(Spell::Gira), rate: 50 })] }
    else if i == 13 { Seq::empty() }
    else if i == 14 { Seq::empty() }
    else if i == 15 { seq![(MonsterAction { ab_type: "A", action: ActionType::Spell(Spell::Hoimi), rate: 25 })] }
    else if i == 16 { seq![(MonsterAction { ab_type: "A", action: ActionType::Spell(Spell::Mahoton), rate: 50 })] }
    else if i == 17 { Seq::empty() }
    else if i == 18 { Seq::empty() }
    else if i == 19 { seq![(MonsterAction { ab_type: "A", action: ActionType::Spell(Spell::Rarirho), rate: 25 }), (MonsterAction { ab_type: "B", action: ActionType::Spell(Spell::Gira), rate: 75 })] }
    else if i == 20 { seq![(MonsterAction { ab_type: "A", action: ActionType::Spell(Spell::Hoimi), rate: 75 }), (MonsterAction { ab_type: "B", action: ActionType::Spell(Spell::Gira), rate: 25 })] }
    else if i == 21 { seq![(MonsterAction { ab_type: "A", action: ActionType::Spell(Spell::Mahoton), rate: 50 })] }
    else if i == 22 { seq![(MonsterAction { ab_type: "A", action: ActionType::Spell(Spell::Hoimi), rate: 75 })] }
    else if i == 23 { Seq::empty() }
    else if i == 24 { seq![(MonsterAction { ab_type: "A", action: ActionType::Spell(Spell::Mahoton), rate: 50 })] }
    else if i == 25 { Seq::empty() }
    else if i == 26 { seq![(MonsterAction { ab_type: "A", action: ActionType::Spell(Spell::Rarirho), rate: 50 })] }
    else if i == 27 { seq![(MonsterAction { ab_type: "B", action: ActionType::Spell(Spell::Gira), rate: 75 })] }
    else if i == 28 { Seq::empty() }
    else if i == 29 { seq![(MonsterAction { ab_type: "A", action: ActionType::Spell(Spell::Behoimi), rate: 75 }), (MonsterAction { ab_type: "B", action: ActionType::Special("ほのお(弱)"), rate: 25 })] }
    else if i == 30 { seq![(MonsterAction { ab_type: "B", action: ActionType::Special("ほのお(弱)"), rate: 25 })] }
    else if i == 31 { seq![(MonsterAction { ab_type: "B", action: ActionType::Spell(Spell::Begirama), rate: 50 })] }
    else if i == 32 { Seq::empty() }
    else if i == 33 { seq![(MonsterAction { ab_type: "A", action: ActionType::Spell(Spell::Rarirho), rate: 25 })] }
    else if i == 34 { seq![(MonsterAction { ab_type: "B", action: ActionType::Special("ほのお(弱)"), rate: 25 })] }
    else if i == 35 { Seq::empty() }
    else if i == 36 { seq![(MonsterAction { ab_type: "A", action: ActionType::Spell(Spell::Behoimi), rate: 75 }), (MonsterAction { ab_type: "B", action: ActionType::Spell(Spell::Begirama), rate: 25 })] }
    else if i == 37 { seq![(MonsterAction { ab_type: "A", action: ActionType::Spell(Spell::Rarirho), rate: 25 }), (MonsterAction { ab_type: "B", action: ActionType::Special("ほのお(弱)"), rate: 25 })] }
    else if i == 38 { seq![(MonsterAction { ab_type: "A", action: ActionType::Spell(Spell::Mahoton), rate: 25 }), (MonsterAction { ab_type: "B", action: ActionType::Spell(Spell::Begirama), rate: 75 })] }
    else if i == 39 { seq![(MonsterAction { ab_type: "B", action: ActionType::Special("ほのお(強)"), rate: 50 })] }
    else { Seq::empty() }
}

/// The forty-row monster behaviour table: row `i` carries index `i` and
/// exactly the fields the three row functions give.
#[verifier::rlimit(100)]
#[verifier::spinoff_prover]
pub fn monster_behaviors() -> (v: Vec<MonsterBehavior>)
    ensures
        v@.len() == 40,
        forall|i: int|
            0 <= i < 40 ==> (#[trigger] v@[i]).index == i && v@[i].resist == spec_behavior_resist(i)
                && v@[i].evade_rate_hundredths == spec_behavior_evade(i) && v@[i].actions@
                == spec_behavior_actions(i),
{
    let mut v: Vec<MonsterBehavior> = Vec::new();
    v.push(MonsterBehavior { index: 0, resist: SpellResistance { gira: 0, rariho: 0, mahoton: 94 }, evade_rate_hundredths: 160, actions: Vec::new() });
    proof {
        assert(v@[0].resist == spec_behavior_resist(0));
        assert(v@[0].evade_rate_hundredths == spec_behavior_evade(0));
        assert(v@[0].actions@ =~= spec_behavior_actions(0));
    }
    v.push(MonsterBehavior { index: 1, resist: SpellResistance { gira: 0, rariho: 0, mahoton: 94 }, evade_rate_hundredths: 160, actions: Vec::new() });
    proof {
        assert(v@[1].resist == spec_behavior_resist(1));
        assert(v@[1].evade_rate_hundredths == spec_behavior_evade(1));
        assert(v@[1].actions@ =~= spec_behavior_actions(1));
    }
    v.push(MonsterBehavior { index: 2, resist: SpellResistance { gira: 0, rariho: 0, mahoton: 94 }, evade_rate_hundredths: 160, actions: Vec::new() });
    proof {
        assert(v@[2].resist == spec_behavior_resist(2));
        assert(v@[2].evade_rate_hundredths == spec_behavior_evade(2));
        assert(v@[2].actions@ =~= spec_behavior_actions(2));
    }
    v.push(MonsterBehavior { index: 3, resist: SpellResistance { gira: 0, rariho: 0, mahoton: 94 }, evade_rate_hundredths: 620, actions: Vec::new() });
    proof {
        assert(v@[3].resist == spec_behavior_resist(3));
        assert(v@[3].evade_rate_hundredths == spec_behavior_evade(3));
        assert(v@[3].actions@ =~= spec_behavior_actions(3));
    }
    v.push(MonsterBehavior { index: 4, resist: SpellResistance { gira: 0, rariho: 0, mahoton: 0 }, evade_rate_hundredths: 160, actions: vec![MonsterAction { ab_type: "B", action: ActionType::Spell(Spell::Gira), rate: 50 }] });
    proof {
        assert(v@[4].resist == spec_behavior_resist(4));
        assert(v@[4].evade_rate_hundredths == spec_behavior_evade(4));
        assert(v@[4].actions@ =~= spec_behavior_actions(4));
    }
    v.push(MonsterBehavior { index: 5, resist: SpellResistance { gira: 0, rariho: 0, mahoton: 0 }, evade_rate_hundredths: 160, actions: vec![MonsterAction { ab_type: "B", action: ActionType::Spell(Spell::Gira), rate: 50 }] });
    proof {
        assert(v@[5].resist == spec_behavior_resist(5));
        assert(v@[5].evade_rate_hundredths == spec_behavior_evade(5));
        assert(v@[5].actions@ =~= spec_behavior_actions(5));
    }
    v.push(MonsterBehavior { index: 6, resist: SpellResistance { gira: 0, rariho: 0, mahoton: 94 }, evade_rate_hundredths: 160, actions: Vec::new() });
    proof {
        assert(v@[6].resist == spec_behavior_resist(6));
        assert(v@[6].evade_rate_hundredths == spec_behavior_evade(6));
        assert(v@[6].actions@ =~= spec_behavior_actions(6));
    }
    v.push(MonsterBehavior { index: 7, resist: SpellResistance { gira: 0, rariho: 0, mahoton: 94 }, evade_rate_hundredths: 620, actions: Vec::new() });
    proof {
        assert(v@[7].resist == spec_behavior_resist(7));
        assert(v@[7].evade_rate_hundredths == spec_behavior_evade(7));
        assert(v@[7].actions@ =~= spec_behavior_actions(7));
    }
    v.push(MonsterBehavior { index: 8, resist: SpellResistance { gira: 0, rariho: 0, mahoton: 94 }, evade_rate_hundredths: 310, actions: Vec::new() });
    proof {
        assert(v@[8].resist == spec_behavior_resist(8));
        assert(v@[8].evade_rate_hundredths == spec_behavior_evade(8));
        assert(v@[8].actions@ =~= spec_behavior_actions(8));
    }
    v.push(MonsterBehavior { index: 9, resist: SpellResistance { gira: 0, rariho: 0, mahoton: 0 }, evade_rate_hundredths: 940, actions: vec![MonsterAction { ab_type: "B", action: ActionType::Spell(Spell::Gira), rate: 75 }] });
    proof {
        assert(v@[9].resist == spec_behavior_resist(9));
        assert(v@[9].evade_rate_hundredths == spec_behavior_evade(9));
        assert(v@[9].actions@ =~= spec_behavior_actions(9));
    }
    v.push(MonsterBehavior { index: 10, resist: SpellResistance { gira: 0, rariho: 0, mahoton: 88 }, evade_rate_hundredths: 310, actions: Vec::new() });
    proof {
        assert(v@[10].resist == spec_behavior_resist(10));
        assert(v@[10].evade_rate_hundredths == spec_behavior_evade(10));
        assert(v@[10].actions@ =~= spec_behavior_actions(10));
    }
    v.push(MonsterBehavior { index: 11, resist: SpellResistance { gira: 0, rariho: 12, mahoton: 0 }, evade_rate_hundredths: 940, actions: vec![MonsterAction { ab_type: "A", action: ActionType::Spell(Spell::Hoimi), rate: 25 }, MonsterAction { ab_type: "B", action: ActionType::Spell(Spell::Gira), rate: 50 }] });
    proof {
        assert(v@[11].resist == spec_behavior_resist(11));
        assert(v@[11].evade_rate_hundredths == spec_behavior_evade(11));
        assert(v@[11].actions@ =~= spec_behavior_actions(11));
    }
    v.push(MonsterBehavior { index: 12, resist: SpellResistance { gira: 0, rariho: 19, mahoton: 6 }, evade_rate_hundredths: 310, actions: vec![MonsterAction { ab_type: "A", action: ActionType::Spell(Spell::Rarirho), rate: 25 }, MonsterAction { ab_type: "B", action: ActionType::Spell(Spell::Gira), rate: 50 }] });
    proof {
        assert(v@[12].resist == spec_behavior_resist(12));
        assert(v@[12].evade_rate_hundredths == spec_behavior_evade(12));
        assert(v@[12].actions@ =~= spec_behavior_actions(12));
    }
    v.push(MonsterBehavior { index: 13, resist: SpellResistance { gira: 0, rariho: 0, mahoton: 94 }, evade_rate_hundredths: 310, actions: Vec::new() });
    proof {
        assert(v@[13].resist == spec_behavior_resist(13));
        assert(v@[13].evade_rate_hundredths == spec_behavior_evade(13));
        assert(v@[13].actions@ =~= spec_behavior_actions(13));
    }
    v.push(MonsterBehavior { index: 14, resist: SpellResistance { gira: 0, rariho: 6, mahoton: 94 }, evade_rate_hundredths: 310, actions: Vec::new() });
    proof {
        assert(v@[14].resist == spec_behavior_resist(14));
        assert(v@[14].evade_rate_hundredths == spec_behavior_evade(14));
        assert(v@[14].actions@ =~= spec_behavior_actions(14));
    }
    v.push(MonsterBehavior { index: 15, resist: SpellResistance { gira: 0, rariho: 44, mahoton: 0 }, evade_rate_hundredths: 620, actions: vec![MonsterAction { ab_type: "A", action: ActionType::Spell(Spell::Hoimi), rate: 25 }] });
    proof {
        assert(v@[15].resist == spec_behavior_resist(15));
        assert(v@[15].evade_rate_hundredths == spec_behavior_evade(15));
        assert(v@[15].actions@ =~= spec_behavior_actions(15));
    }
    v.push(MonsterBehavior { index: 16, resist: SpellResistance { gira: 0, rariho: 25, mahoton: 44 }, evade_rate_hundredths: 310, actions: vec![MonsterAction { ab_type: "A", action: ActionType::Spell(Spell::Mahoton), rate: 50 }] });
    proof {
        assert(v@[16].resist == spec_behavior_resist(16));
        assert(v@[16].evade_rate_hundredths == spec_behavior_evade(16));
        assert(v@[16].actions@ =~= spec_behavior_actions(16));
    }
    v.push(MonsterBehavior { index: 17, resist: SpellResistance { gira: 0, rariho: 25, mahoton: 94 }, evade_rate_hundredths: 310, actions: Vec::new() });
    proof {
        assert(v@[17].resist == spec_behavior_resist(17));
        assert(v@[17].evade_rate_hundredths == spec_behavior_evade(17));
        assert(v@[17].actions@ =~= spec_behavior_actions(17));
    }
    v.push(MonsterBehavior { index: 18, resist: SpellResistance { gira: 0, rariho: 81, mahoton: 94 }, evade_rate_hundredths: 160, actions: Vec::new() });
    proof {
        assert(v@[18].resist == spec_behavior_resist(18));
        assert(v@[18].evade_rate_hundredths == spec_behavior_evade(18));
        assert(v@[18].actions@ =~= spec_behavior_actions(18));
    }
    v.push(MonsterBehavior { index: 19, resist: SpellResistance { gira: 0, rariho: 19, mahoton: 6 }, evade_rate_hundredths: 620, actions: vec![MonsterAction { ab_type: "A", action: ActionType::Spell(Spell::Rarirho), rate: 25 }, MonsterAction { ab_type: "B", action: ActionType::Spell(Spell::Gira), rate: 75 }] });
    proof {
        assert(v@[19].resist == spec_behavior_resist(19));
        assert(v@[19].evade_rate_hundredths == spec_behavior_evade(19));
        assert(v@[19].actions@ =~= spec_behavior_actions(19));
    }
    v.push(MonsterBehavior { index: 20, resist: SpellResistance { gira: 0, rariho: 94, mahoton: 0 }, evade_rate_hundredths: 620, actions: vec![MonsterAction { ab_type: "A", action: ActionType::Spell(Spell::Hoimi), rate: 75 }, MonsterAction { ab_type: "B", action: ActionType::Spell(Spell::Gira), rate: 25 }] });
    proof {
        assert(v@[20].resist == spec_behavior_resist(20));
        assert(v@[20].evade_rate_hundredths == spec_behavior_evade(20));
        assert(v@[20].actions@ =~= spec_behavior_actions(20));
    }
    v.push(MonsterBehavior { index: 21, resist: SpellResistance { gira: 0, rariho: 12, mahoton: 12 }, evade_rate_hundredths: 160, actions: vec![MonsterAction { ab_type: "A", action: ActionType::Spell(Spell::Mahoton), rate: 50 }] });
    proof {
        assert(v@[21].resist == spec_behavior_resist(21));
        assert(v@[21].evade_rate_hundredths == spec_behavior_evade(21));
        assert(v@[21].actions@ =~= spec_behavior_actions(21));
    }
    v.push(MonsterBehavior { index: 22, resist: SpellResistance { gira: 19, rariho: 31, mahoton: 0 }, evade_rate_hundredths: 620, actions: vec![MonsterAction { ab_type: "A", action: ActionType::Spell(Spell::Hoimi), rate: 75 }] });
    proof {
        assert(v@[22].resist == spec_behavior_resist(22));
        assert(v@[22].evade_rate_hundredths == spec_behavior_evade(22));
        assert(v@[22].actions@ =~= spec_behavior_actions(22));
    }
    v.push(MonsterBehavior { index: 23, resist: SpellResistance { gira: 0, rariho: 44, mahoton: 94 }, evade_rate_hundredths: 310, actions: Vec::new() });
    proof {
        assert(v@[23].resist == spec_behavior_resist(23));
        assert(v@[23].evade_rate_hundredths == spec_behavior_evade(23));
        assert(v@[23].actions@ =~= spec_behavior_actions(23));
    }
    v.push(MonsterBehavior { index: 24, resist: SpellResistance { gira: 0, rariho: 38, mahoton: 44 }, evade_rate_hundredths: 160, actions: vec![MonsterAction { ab_type: "A", action: ActionType::Spell(Spell::Mahoton), rate: 50 }] });
    proof {
        assert(v@[24].resist == spec_behavior_resist(24));
        assert(v@[24].evade_rate_hundredths == spec_behavior_evade(24));
        assert(v@[24].actions@ =~= spec_behavior_actions(24));
    }
    v.push(MonsterBehavior { index: 25, resist: SpellResistance { gira: 94, rariho: 94, mahoton: 94 }, evade_rate_hundredths: 2340, actions: Vec::new() });
    proof {
        assert(v@[25].resist == spec_behavior_resist(25));
        assert(v@[25].evade_rate_hundredths == spec_behavior_evade(25));
        assert(v@[25].actions@ =~= spec_behavior_actions(25));
    }
    v.push(MonsterBehavior { index: 26, resist: SpellResistance { gira: 0, rariho: 12, mahoton: 0 }, evade_rate_hundredths: 310, actions: vec![MonsterAction { ab_type: "A", action: ActionType::Spell(Spell::Rarirho), rate: 50 }] });
    proof {
        assert(v@[26].resist == spec_behavior_resist(26));
        assert(v@[26].evade_rate_hundredths == spec_behavior_evade(26));
        assert(v@[26].actions@ =~= spec_behavior_actions(26));
    }
    v.push(MonsterBehavior { index: 27, resist: SpellResistance { gira: 94, rariho: 94, mahoton: 94 }, evade_rate_hundredths: 160, actions: vec![MonsterAction { ab_type: "B", action: ActionType::Spell(Spell::Gira), rate: 75 }] });
    proof {
        assert(v@[27].resist == spec_behavior_resist(27));
        assert(v@[27].evade_rate_hundredths == spec_behavior_evade(27));
        assert(v@[27].actions@ =~= spec_behavior_actions(27));
    }
    v.push(MonsterBehavior { index: 28, resist: SpellResistance { gira: 0, rariho: 44, mahoton: 94 }, evade_rate_hundredths: 1090, actions: Vec::new() });
    proof {
        assert(v@[28].resist == spec_behavior_resist(28));
        assert(v@[28].evade_rate_hundredths == spec_behavior_evade(28));
        assert(v@[28].actions@ =~= spec_behavior_actions(28));
    }
    v.push(MonsterBehavior { index: 29, resist: SpellResistance { gira: 6, rariho: 50, mahoton: 0 }, evade_rate_hundredths: 310, actions: vec![MonsterAction { ab_type: "A", action: ActionType::Spell(Spell::Behoimi), rate: 75 }, MonsterAction { ab_type: "B", action: ActionType::Special("ほのお(弱)"), rate: 25 }] });
    proof {
        assert(v@[29].resist == spec_behavior_resist(29));
        assert(v@[29].evade_rate_hundredths == spec_behavior_evade(29));
        assert(v@[29].actions@ =~= spec_behavior_actions(29));
    }
    v.push(MonsterBehavior { index: 30, resist: SpellResistance { gira: 12, rariho: 44, mahoton: 94 }, evade_rate_hundredths: 310, actions: vec![MonsterAction { ab_type: "B", action: ActionType::Special("ほのお(弱)"), rate: 25 }] });
    proof {
        assert(v@[30].resist == spec_behavior_resist(30));
        assert(v@[30].evade_rate_hundredths == spec_behavior_evade(30));
        assert(v@[30].actions@ =~= spec_behavior_actions(30));
    }
    v.push(MonsterBehavior { index: 31, resist: SpellResistance { gira: 94, rariho: 94, mahoton: 44 }, evade_rate_hundredths: 310, actions: vec![MonsterAction { ab_type: "B", action: ActionType::Spell(Spell::Begirama), rate: 50 }] });
    proof {
        assert(v@[31].resist == spec_behavior_resist(31));
        assert(v@[31].evade_rate_hundredths == spec_behavior_evade(31));
        assert(v@[31].actions@ =~= spec_behavior_actions(31));
    }
    v.push(MonsterBehavior { index: 32, resist: SpellResistance { gira: 94, rariho: 94, mahoton: 94 }, evade_rate_hundredths: 0, actions: Vec::new() });
    proof {
        assert(v@[32].resist == spec_behavior_resist(32));
        assert(v@[32].evade_rate_hundredths == spec_behavior_evade(32));
        assert(v@[32].actions@ =~= spec_behavior_actions(32));
    }
    v.push(MonsterBehavior { index: 33, resist: SpellResistance { gira: 6, rariho: 94, mahoton: 19 }, evade_rate_hundredths: 160, actions: vec![MonsterAction { ab_type: "A", action: ActionType::Spell(Spell::Rarirho), rate: 25 }] });
    proof {
        assert(v@[33].resist == spec_behavior_resist(33));
        assert(v@[33].evade_rate_hundredths == spec_behavior_evade(33));
        assert(v@[33].actions@ =~= spec_behavior_actions(33));
    }
    v.push(MonsterBehavior { index: 34, resist: SpellResistance { gira: 44, rariho: 94, mahoton: 94 }, evade_rate_hundredths: 310, actions: vec![MonsterAction { ab_type: "B", action: ActionType::Special("ほのお(弱)"), rate: 25 }] });
    proof {
        assert(v@[34].resist == spec_behavior_resist(34));
        assert(v@[34].evade_rate_hundredths == spec_behavior_evade(34));
        assert(v@[34].actions@ =~= spec_behavior_actions(34));
    }
    v.push(MonsterBehavior { index: 35, resist: SpellResistance { gira: 44, rariho: 12, mahoton: 94 }, evade_rate_hundredths: 160, actions: Vec::new() });
    proof {
        assert(v@[35].resist == spec_behavior_resist(35));
        assert(v@[35].evade_rate_hundredths == spec_behavior_evade(35));
        assert(v@[35].actions@ =~= spec_behavior_actions(35));
    }
    v.push(MonsterBehavior { index: 36, resist: SpellResistance { gira: 6, rariho: 94, mahoton: 44 }, evade_rate_hundredths: 310, actions: vec![MonsterAction { ab_type: "A", action: ActionType::Spell(Spell::Behoimi), rate: 75 }, MonsterAction { ab_type: "B", action: ActionType::Spell(Spell::Begirama), rate: 25 }] });
    proof {
        assert(v@[36].resist == spec_behavior_resist(36));
        assert(v@[36].evade_rate_hundredths == spec_behavior_evade(36));
        assert(v@[36].actions@ =~= spec_behavior_actions(36));
    }
    v.push(MonsterBehavior { index: 37, resist: SpellResistance { gira: 94, rariho: 94, mahoton: 44 }, evade_rate_hundredths: 310, actions: vec![MonsterAction { ab_type: "A", action: ActionType::Spell(Spell::Rarirho), rate: 25 }, MonsterAction { ab_type: "B", action: ActionType::Special("ほのお(弱)"), rate: 25 }] });
    proof {
        assert(v@[37].resist == spec_behavior_resist(37));
        assert(v@[37].evade_rate_hundredths == spec_behavior_evade(37));
        assert(v@[37].actions@ =~= spec_behavior_actions(37));
    }
    v.push(MonsterBehavior { index: 38, resist: SpellResistance { gira: 94, rariho: 94, mahoton: 94 }, evade_rate_hundredths: 0, actions: vec![MonsterAction { ab_type: "A", action: ActionType::Spell(Spell::Mahoton), rate: 25 }, MonsterAction { ab_type: "B", action: ActionType::Spell(Spell::Begirama), rate: 75 }] });
    proof {
        assert(v@[38].resist == spec_behavior_resist(38));
        assert(v@[38].evade_rate_hundredths == spec_behavior_evade(38));
        assert(v@[38].actions@ =~= spec_behavior_actions(38));
    }
    v.push(MonsterBehavior { index: 39, resist: SpellResistance { gira: 94, rariho: 94, mahoton: 94 }, evade_rate_hundredths: 0, actions: vec![MonsterAction { ab_type: "B", action: ActionType::Special("ほのお(強)"), rate: 50 }] });
    proof {
        assert(v@[39].resist == spec_behavior_resist(39));
        assert(v@[39].evade_rate_hundredths == spec_behavior_evade(39));
        assert(v@[39].actions@ =~= spec_behavior_actions(39));
    }
    v
}

} // verus!
