use vstd::prelude::*;

verus! {

use crate::battle_types::PlayerAction;
use crate::player_input::PlayerInput;

/// A queue-fed input source: numbers and commands are pushed in ahead of
/// time and handed out in order, with a safe default when the queue runs
/// dry.
pub struct WebInput {
    pub input_queue: Vec<usize>,
    pub action_queue: Vec<PlayerAction>,
}

impl WebInput {
    pub fn new() -> (r: WebInput)
        ensures
            r.input_queue@.len() == 0,
            r.action_queue@.len() == 0,
    {
        WebInput { input_queue: Vec::new(), action_queue: Vec::new() }
    }

    /// Queues one menu number.
    pub fn push_input(&mut self, value: usize)
        ensures
            final(self).input_queue@ == old(self).input_queue@.push(value),
            final(self).action_queue == old(self).action_queue,
    {
        self.input_queue.push(value);
    }

    /// Queues one battle command.
    pub fn push_action(&mut self, action: PlayerAction)
        ensures
            final(self).action_queue@ == old(self).action_queue@.push(action),
            final(self).input_queue == old(self).input_queue,
    {
        self.action_queue.push(action);
    }

    /// Whether a menu number is waiting.
    pub fn has_pending_input(&self) -> (r: bool)
        ensures
            r == (self.input_queue@.len() > 0),
    {
        self.input_queue.len() > 0
    }

    /// Whether a battle command is waiting.
    pub fn has_pending_action(&self) -> (r: bool)
        ensures
            r == (self.action_queue@.len() > 0),
    {
        self.action_queue.len() > 0
    }

    /// Empties both queues.
    pub fn clear(&mut self)
        ensures
            final(self).input_queue@.len() == 0,
            final(self).action_queue@.len() == 0,
    {
        self.input_queue.clear();
        self.action_queue.clear();
    }
}

impl PlayerInput for WebInput {
    /// The next queued number, held under `max`; zero when the queue is
    /// empty.
    fn get_player_input(&mut self, max: usize) -> (r: usize) {
        if self.input_queue.len() == 0 {
            return 0;
        }
        let v = self.input_queue.remove(0);
        if v <= max {
            v
        } else {
            max
        }
    }

    /// The next queued command; a plain attack when the queue is empty.
    fn get_player_action(&mut self) -> (r: PlayerAction) {
        if self.action_queue.len() == 0 {
            return PlayerAction::Attack;
        }
        self.action_queue.remove(0)
    }
}

} // verus!
