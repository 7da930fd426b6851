//! Rules of a small island action game: terrain mesh layout, inventory and
//! item cooldowns, attack planning and character locomotion decisions.
//!
//! Every quantity is an integer or an exact ratio of integers, so that each
//! rule is stated and proved exactly.

pub mod combat;
pub mod error;
pub mod inventory;
pub mod item;
pub mod locomotion;
pub mod object;
pub mod ratio;
pub mod scenarios;
pub mod terrain;
