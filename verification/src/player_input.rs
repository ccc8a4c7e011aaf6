use vstd::prelude::*;

verus! {

use crate::battle_types::PlayerAction;

/// The player's side of the table: a source of menu numbers and battle
/// commands. An interactive source keeps asking until the player gives a
/// valid answer; a queued source answers at once with a default.
pub trait PlayerInput {
    /// A number in `0..=max`.
    fn get_player_input(&mut self, max: usize) -> (r: usize)
        ensures
            r <= max,
    ;

    /// One battle command.
    fn get_player_action(&mut self) -> PlayerAction;
}

} // verus!
