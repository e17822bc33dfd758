//! The event-loop core of a serf: the worker process that applies the
//! events a supervising king sends it to an Arvo kernel, commits the
//! resulting state to a persistent arena and answers the king.
pub mod dispatch;
pub mod fault;
pub mod laws;
pub mod noun;
pub mod serf;
pub mod snapshot;
pub mod trace;
