use vstd::prelude::*;

verus! {

use crate::string_utils::{lemma_name_normalize_wf, name_normalize, spec_name_normalize};
use crate::text::{default_name, kana_seq, wf_name};
use vstd::string::StringExecFns;

/// One full save record: everything a password carries.
#[derive(Debug)]
pub struct SaveData {
    pub name: String,
    pub experience: u16,
    pub gold: u16,
    pub weapon: u8,
    pub armor: u8,
    pub shield: u8,
    pub items: [u8; 8],
    pub herbs: u8,
    pub keys: u8,
    pub has_dragon_scale: bool,
    pub has_warrior_ring: bool,
    pub has_cursed_necklace: bool,
    pub defeated_dragon: bool,
    pub defeated_golem: bool,
    pub pattern: u8,
}

impl SaveData {
    /// The record is fit for encoding: its name is four table characters.
    pub open spec fn wf(self) -> bool {
        wf_name(self.name@)
    }
}

impl Default for SaveData {
    fn default() -> (r: SaveData)
        ensures
            r.name@ == "ゆうてい"@,
            r.experience == 0 && r.gold == 0,
            r.weapon == 0 && r.armor == 0 && r.shield == 0,
            r.items@ =~= Seq::new(8, |i: int| 0u8),
            r.herbs == 0 && r.keys == 0,
            !r.has_dragon_scale && !r.has_warrior_ring && !r.has_cursed_necklace,
            !r.defeated_dragon && !r.defeated_golem,
            r.pattern == 0,
            r.wf(),
    {
        proof {
            reveal_strlit("ゆうてい");
            assert(kana_seq()[46] == 'ゆ');
            assert(kana_seq()[12] == 'う');
            assert(kana_seq()[28] == 'て');
            assert(kana_seq()[11] == 'い');
        }
        let r = SaveData {
            name: String::from_str(default_name()),
            experience: 0,
            gold: 0,
            weapon: 0,
            armor: 0,
            shield: 0,
            items: [0; 8],
            herbs: 0,
            keys: 0,
            has_dragon_scale: false,
            has_warrior_ring: false,
            has_cursed_necklace: false,
            defeated_dragon: false,
            defeated_golem: false,
            pattern: 0,
        };
        proof {
            assert(r.name@ == "ゆうてい"@);
            assert(forall|i: int| 0 <= i < 4 ==> kana_seq().contains(#[trigger] r.name@[i]));
        }
        r
    }
}

/// Optional overrides for building a save record; whatever is absent takes
/// its default.
#[derive(Default)]
pub struct SaveDataArgs {
    pub name: Option<String>,
    pub experience: Option<u16>,
    pub gold: Option<u16>,
    pub weapon: Option<u8>,
    pub armor: Option<u8>,
    pub shield: Option<u8>,
    pub items: Option<[u8; 8]>,
    pub herbs: Option<u8>,
    pub keys: Option<u8>,
    pub has_dragon_scale: Option<bool>,
    pub has_warrior_ring: Option<bool>,
    pub has_cursed_necklace: Option<bool>,
    pub defeated_dragon: Option<bool>,
    pub defeated_golem: Option<bool>,
    pub pattern: Option<u8>,
}

impl SaveData {
    pub fn new() -> (r: SaveData)
        ensures
            r.name@ == "ゆうてい"@,
            r.experience == 0 && r.gold == 0,
            r.weapon == 0 && r.armor == 0 && r.shield == 0,
            r.items@ =~= Seq::new(8, |i: int| 0u8),
            r.herbs == 0 && r.keys == 0,
            !r.has_dragon_scale && !r.has_warrior_ring && !r.has_cursed_necklace,
            !r.defeated_dragon && !r.defeated_golem,
            r.pattern == 0,
            r.wf(),
    {
        SaveData::default()
    }

    /// Builds a record from the given overrides; the name is normalized to
    /// four table characters.
    pub fn new_with(args: SaveDataArgs) -> (r: SaveData)
        ensures
            (match args.name {
                Option::Some(n) => r.name@ == spec_name_normalize(n@),
                Option::None => r.name@ == spec_name_normalize("ゆうてい"@),
            }),
            r.wf(),
            r.experience == (if args.experience is Some { args.experience->0 } else { 0 }),
            r.gold == (if args.gold is Some { args.gold->0 } else { 0 }),
            r.weapon == (if args.weapon is Some { args.weapon->0 } else { 0 }),
            r.armor == (if args.armor is Some { args.armor->0 } else { 0 }),
            r.shield == (if args.shield is Some { args.shield->0 } else { 0 }),
            r.items@ == (if args.items is Some { args.items->0@ } else { Seq::new(8, |i: int| 0u8) }),
            r.herbs == (if args.herbs is Some { args.herbs->0 } else { 0 }),
            r.keys == (if args.keys is Some { args.keys->0 } else { 0 }),
            r.has_dragon_scale == (args.has_dragon_scale is Some && args.has_dragon_scale->0),
            r.has_warrior_ring == (args.has_warrior_ring is Some && args.has_warrior_ring->0),
            r.has_cursed_necklace == (args.has_cursed_necklace is Some
                && args.has_cursed_necklace->0),
            r.defeated_dragon == (args.defeated_dragon is Some && args.defeated_dragon->0),
            r.defeated_golem == (args.defeated_golem is Some && args.defeated_golem->0),
            r.pattern == (if args.pattern is Some { args.pattern->0 } else { 0 }),
    {
        let raw_name = match args.name {
            Some(n) => n,
            None => String::from_str(default_name()),
        };
        let name = name_normalize(raw_name.as_str());
        proof {
            lemma_name_normalize_wf(raw_name@);
        }
        let items = match args.items {
            Some(a) => a,
            None => [0; 8],
        };
        proof {
            if args.items is None {
                assert(items@ =~= Seq::new(8, |i: int| 0u8));
            }
        }
        SaveData {
            name,
            experience: match args.experience { Some(v) => v, None => 0 },
            gold: match args.gold { Some(v) => v, None => 0 },
            weapon: match args.weapon { Some(v) => v, None => 0 },
            armor: match args.armor { Some(v) => v, None => 0 },
            shield: match args.shield { Some(v) => v, None => 0 },
            items,
            herbs: match args.herbs { Some(v) => v, None => 0 },
            keys: match args.keys { Some(v) => v, None => 0 },
            has_dragon_scale: match args.has_dragon_scale { Some(v) => v, None => false },
            has_warrior_ring: match args.has_warrior_ring { Some(v) => v, None => false },
            has_cursed_necklace: match args.has_cursed_necklace { Some(v) => v, None => false },
            defeated_dragon: match args.defeated_dragon { Some(v) => v, None => false },
            defeated_golem: match args.defeated_golem { Some(v) => v, None => false },
            pattern: match args.pattern { Some(v) => v, None => 0 },
        }
    }
}

} // verus!
