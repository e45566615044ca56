//! A pluggable engine for multi-step, multi-player game sessions.
//!
//! The crate is organised around three pieces: a capability contract that
//! every game implements ([`game_traits::GameEngine`]), a session state
//! manager that drives the validate/apply/check-termination/payout pipeline
//! against opaque per-game state payloads ([`game_traits::GameStateManager`]),
//! and a wagering subsystem that tracks stakes and computes payouts once a
//! session ends ([`wagering`]).  A reference two-player simultaneous-choice
//! game ([`games::rock_paper_scissors`]) shows that the abstraction is
//! sufficient.
//!
//! The core is purely in-memory and synchronous.  Network transport,
//! signing, and settlement are external collaborators: they hand the core
//! plain values (identifiers, byte payloads, clock readings) and read the
//! finished session state back.

pub mod errors;
pub mod game_channel;
pub mod game_traits;
pub mod games;
pub mod wagering;
