//! Concurrent search-and-arbitration engine for a two-player,
//! perfect-information board game.
//!
//! The library is the verified core: the board representation passed
//! between threads, the worker lifecycle as a state machine, the
//! coordinator's arbitration of the workers' published candidates, and
//! the session that drives the game forward one ply at a time. Thread
//! plumbing (spawning, channels, shared cells, deadlines) is left to the
//! embedding program, which performs the actions this core prescribes
//! and feeds the events back in.

pub mod board;
pub mod game;
pub mod coordinator;
pub mod worker;
pub mod session;
