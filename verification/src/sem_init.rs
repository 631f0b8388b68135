use vstd::prelude::*;
use crate::text::{inverse_characters, reverse_characters, swap_case_all};

verus! {

/// Declares `libc::sem_t` (an unnamed POSIX semaphore) to Verus as an opaque type, so that a
/// semaphore can be held in a field; nothing is claimed of what it holds.
#[verifier::external_type_specification]
#[verifier::external_body]
pub struct ExSemaphore(libc::sem_t);

/// What the worker threads share with the main thread: the table of chars, the semaphore
/// on which the workers wait for their turn, and the one on which the main thread waits
/// for a worker to finish.
pub struct ThreadArgument {
    pub characters: Vec<char>,
    pub sub_semaphore: libc::sem_t,
    pub main_semaphore: libc::sem_t,
}

impl ThreadArgument {
    /// The reversing thread's turn, between its wait and its post: the table is reversed.
    pub fn reverse_characters(&mut self)
        requires
            old(self).characters.len() > 0,
        ensures
            final(self).characters@ == old(self).characters@.reverse(),
            final(self).sub_semaphore == old(self).sub_semaphore,
            final(self).main_semaphore == old(self).main_semaphore,
    {
        reverse_characters(&mut self.characters);
    }

    /// The case-flipping thread's turn, between its wait and its post: every letter changes
    /// case.
    pub fn inverse_characters(&mut self)
        ensures
            final(self).characters@ == swap_case_all(old(self).characters@),
            final(self).sub_semaphore == old(self).sub_semaphore,
            final(self).main_semaphore == old(self).main_semaphore,
    {
        inverse_characters(&mut self.characters);
    }
}

} // verus!
