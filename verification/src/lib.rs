//! A counter held in process memory behind a mutual-exclusion lock, together
//! with the two commands that a front-end may invoke on it.

pub mod counter;
pub mod history;
pub mod lock;
pub mod state;
