//! Status-bar blocklets: the rules behind a battery block, a memory game and a
//! weather block, with their behaviour stated in contracts.

pub mod battery;
pub mod block;
pub mod simon;
pub mod text;
pub mod weather;
