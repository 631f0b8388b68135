use vstd::prelude::*;
use std::time::Duration;
use crate::text::{inverse_characters, reverse_characters, swap_case_all};

verus! {

/// Declares `libc::pthread_mutex_t` to Verus as an opaque type, so that a mutex can be held
/// in a field; nothing is claimed of what it holds, and nothing here reads it.
#[verifier::external_type_specification]
#[verifier::external_body]
pub struct ExPthreadMutex(libc::pthread_mutex_t);

/// What the reversing and the case-flipping threads share: the table of chars, the mutex
/// that guards it, and how long each thread sleeps after its turn.
pub struct ThreadArgument {
    pub characters: Vec<char>,
    pub mutex: libc::pthread_mutex_t,
    pub duration: Duration,
}

impl ThreadArgument {
    /// The reversing thread's turn, while it holds the mutex: the table is reversed.
    pub fn reverse_characters(&mut self)
        requires
            old(self).characters.len() > 0,
        ensures
            final(self).characters@ == old(self).characters@.reverse(),
            final(self).mutex == old(self).mutex,
            final(self).duration == old(self).duration,
    {
        reverse_characters(&mut self.characters);
    }

    /// The case-flipping thread's turn, while it holds the mutex: every letter changes case.
    pub fn inverse_characters(&mut self)
        ensures
            final(self).characters@ == swap_case_all(old(self).characters@),
            final(self).mutex == old(self).mutex,
            final(self).duration == old(self).duration,
    {
        inverse_characters(&mut self.characters);
    }
}

} // verus!
