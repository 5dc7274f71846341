//! Decision logic of a neighbourhood bot for the residents of a housing
//! complex: membership trust tiers, self-reported locations, neighbour
//! discovery, back-filling of forwarded post references, and the greeting
//! conversation run on `/start`.
//!
//! The functions here work on the rows of the bot's tables held in memory;
//! reading and writing the database and talking to the messaging service is
//! left to the caller.
pub mod records;
pub mod classify;
pub mod locations;
pub mod neighbors;
pub mod forwarding;
pub mod text;
pub mod greeting;
