use vstd::prelude::*;
use crate::text::{inverse_characters, reverse_characters, swap_case_all};

verus! {

/// The semaphore of the set on which the workers wait for their turn.
pub const WORKER_TURN: u16 = 0;

/// The semaphore of the set on which the main thread waits for a worker to finish.
pub const MAIN_TURN: u16 = 1;

/// What the worker threads share with the main thread: the table of chars and the
/// System V semaphore set that orders their turns.
pub struct ThreadArgument {
    pub characters: Vec<char>,
    pub set_id: i32,
}

impl ThreadArgument {
    /// The reversing thread's turn, between its wait and its post: the table is reversed.
    pub fn reverse_characters(&mut self)
        requires
            old(self).characters.len() > 0,
        ensures
            final(self).characters@ == old(self).characters@.reverse(),
            final(self).set_id == old(self).set_id,
    {
        reverse_characters(&mut self.characters);
    }

    /// The case-flipping thread's turn, between its wait and its post: every letter changes
    /// case.
    pub fn inverse_characters(&mut self)
        ensures
            final(self).characters@ == swap_case_all(old(self).characters@),
            final(self).set_id == old(self).set_id,
    {
        inverse_characters(&mut self.characters);
    }
}

} // verus!
