use vstd::prelude::*;

use std::collections::HashMap;

verus! {

use crate::monster::Monster;
use crate::monster_data::{monster_master, spec_monster_master, MonsterAction};
use crate::random_utils::random_success_by_percent;
use crate::string_utils::str_eq;

/// One monster of every kind, freshly spawned in table order.
pub fn create_all_monsters() -> (v: Vec<Monster>)
    ensures
        v@.len() == 40,
        forall|i: int| 0 <= i < 40 ==> (#[trigger] v@[i]).stats == spec_monster_master()[i],
{
    let mut v: Vec<Monster> = Vec::new();
    let mut i: usize = 0;
    while i < 40
        invariant
            i <= 40,
            v@.len() == i,
            forall|j: int| 0 <= j < i ==> (#[trigger] v@[j]).stats == spec_monster_master()[j],
        decreases 40 - i,
    {
        v.push(Monster::new(i));
        i = i + 1;
    }
    v
}

/// Every monster name keyed to its table index, as a plain list in table
/// order.
pub fn monster_name_index_pairs() -> (v: Vec<(&'static str, usize)>)
    ensures
        v@.len() == 40,
        forall|i: int|
            0 <= i < 40 ==> (#[trigger] v@[i]).0@ == spec_monster_master()[i].name@ && v@[i].1
                == i,
{
    let master = monster_master();
    let mut v: Vec<(&'static str, usize)> = Vec::new();
    let mut i: usize = 0;
    while i < master.len()
        invariant
            master@ == spec_monster_master(),
            i <= 40,
            v@.len() == i,
            forall|j: int|
                0 <= j < i ==> (#[trigger] v@[j]).0@ == spec_monster_master()[j].name@ && v@[j].1
                    == j,
        decreases master@.len() - i,
    {
        v.push((master[i].name, i));
        i = i + 1;
    }
    v
}

/// The same pairs poured into a hash map, for callers that want keyed
/// lookup. Only the pouring is trusted: the verified pair list is built
/// first, and `get_monster_by_name` is the verified lookup.
///
/// Relies on `HashMap::insert` alone; Verus has no key model for string
/// keys, so nothing is claimed of the map.
#[verifier::external_body]
pub fn build_monster_name_index_map() -> HashMap<&'static str, usize> {
    let pairs = monster_name_index_pairs();
    pairs.into_iter().collect()
}

/// The monster a name denotes, freshly spawned; nothing when no table
/// row carries the name.
pub fn get_monster_by_name(name: &str) -> (r: Option<Monster>)
    ensures
        r matches Some(m) ==> exists|i: int|
            0 <= i < 40 && (#[trigger] spec_monster_master()[i]).name@ == name@ && m.stats
                == spec_monster_master()[i],
        r is None ==> forall|i: int|
            0 <= i < 40 ==> (#[trigger] spec_monster_master()[i]).name@ != name@,
{
    let master = monster_master();
    let mut i: usize = 0;
    while i < master.len()
        invariant
            master@ == spec_monster_master(),
            i <= 40,
            forall|j: int| 0 <= j < i ==> (#[trigger] spec_monster_master()[j]).name@ != name@,
        decreases master@.len() - i,
    {
        if str_eq(master[i].name, name) {
            return Some(Monster::new(i));
        }
        i = i + 1;
    }
    None
}

/// All monster names, in table order.
pub fn list_monster_names() -> (v: Vec<&'static str>)
    ensures
        v@.len() == 40,
        forall|i: int| 0 <= i < 40 ==> (#[trigger] v@[i])@ == spec_monster_master()[i].name@,
{
    let master = monster_master();
    let mut v: Vec<&'static str> = Vec::new();
    let mut i: usize = 0;
    while i < master.len()
        invariant
            master@ == spec_monster_master(),
            i <= 40,
            v@.len() == i,
            forall|j: int| 0 <= j < i ==> (#[trigger] v@[j])@ == spec_monster_master()[j].name@,
        decreases master@.len() - i,
    {
        v.push(master[i].name);
        i = i + 1;
    }
    v
}

/// Scans the candidate moves in order and rolls each one's activation
/// rate; the first success wins. The winner is a candidate with a
/// positive rate before which no full-rate candidate stands — a zero
/// rate never succeeds and a full rate never fails — so all-zero rates
/// yield no winner and a full-rate candidate guarantees one.
pub fn choose_action(candidates: &Vec<MonsterAction>) -> (r: Option<MonsterAction>)
    ensures
        r matches Some(a) ==> exists|i: int|
            0 <= i < candidates@.len() && #[trigger] candidates@[i] == a && a.rate > 0 && (forall|
                j: int,
            | 0 <= j < i ==> (#[trigger] candidates@[j]).rate < 100),
        r matches Some(a) ==> candidates@.contains(a),
        (exists|i: int| 0 <= i < candidates@.len() && (#[trigger] candidates@[i]).rate >= 100)
            ==> r is Some,
        (forall|i: int| 0 <= i < candidates@.len() ==> (#[trigger] candidates@[i]).rate == 0)
            ==> r is None,
{
    let mut i: usize = 0;
    while i < candidates.len()
        invariant
            i <= candidates@.len(),
            forall|j: int| 0 <= j < i ==> (#[trigger] candidates@[j]).rate < 100,
        decreases candidates@.len() - i,
    {
        let rate = candidates[i].rate;
        if random_success_by_percent((rate as u16) * 100) {
            proof {
                assert(candidates@.contains(candidates@[i as int]));
                assert(candidates@[i as int].rate > 0);
            }
            return Some(candidates[i]);
        }
        proof {
            if candidates@[i as int].rate >= 100 {
                assert(false);
            }
        }
        i = i + 1;
    }
    None
}

} // verus!
