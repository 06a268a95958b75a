//! The core of a leaderboard of demons, the hardest levels of a game, and of the
//! records that players have made on them.
//!
//! Whatever reaches the store passes through this library first. It holds the
//! rules by which a write is let through: who may ask for it ([`permissions`],
//! [`context`]), whether the thing has changed since the one who asks has seen it
//! ([`middleware::cond`]), and whether what is asked for stands up, such as a
//! submitted record ([`actor::database::submission`]) or a patch ([`patch`]).
//!
//! The library does not talk to the store itself. A command is a dialogue
//! ([`actor::database`]): it says what it wants to know or to have done, is handed
//! what came of that, and decides how to go on. How a command goes on is a
//! function of where it stands and of what it was answered, and this function is
//! what the library describes and proves things of.

pub mod actor;
pub mod config;
pub mod context;
pub mod error;
pub mod middleware;
pub mod model;
pub mod pagination;
pub mod patch;
pub mod permissions;
