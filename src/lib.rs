//! Finds, in a batch of Sealevel transactions, those that call the mailbox program on a given
//! message-record account with a given kind of instruction.

mod external;
pub mod model;
pub mod flatten;
pub mod filters;
pub mod search;
pub mod laws;
