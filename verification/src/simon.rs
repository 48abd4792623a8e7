//! The memory game: a menu of settings, then rounds in which the player
//! repeats a growing sequence of colours.

pub mod game;
pub mod i3blocks;
pub mod menu;

pub use crate::simon::game::{Color, Configuration, Progress, Simon, SimonItem, Turns};
pub use crate::simon::i3blocks::{I3BlocksOutput, I3ClickEvent};
pub use crate::simon::menu::{ButtonItem, Menu, MenuAction, MenuItem, SelectItem, SelectItemOption};
