//! Large block-character digits for a terminal clock, and the display
//! settings that drive them.

pub mod table;
pub mod clock;
pub mod config;
pub mod events;
pub mod layout;
pub mod number;
pub mod shared;
pub mod text;
