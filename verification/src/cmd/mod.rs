//! What the commands decide and what they say, apart from the reading and
//! the printing.

pub mod inspect;
pub mod probe;
pub mod report;
