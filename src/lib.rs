//! An ordered list with staged edits: positional inserts and deletes go to a
//! working copy, and a batch is either committed into a saved copy as a whole
//! or rolled back to the last saved state.

pub mod chain;
pub mod staged;
pub mod laws;
