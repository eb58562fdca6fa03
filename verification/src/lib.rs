//! Snake on a fixed grid: the rules of the game, the layout of its screens
//! and the list of shapes that make up a frame.
//!
//! The crate holds no window, no font and no clock. A front end polls its
//! events, hands each one over as an [`input::Input`], asks the [`game::Game`]
//! for its next tick and paints what [`scene`] and [`layout`] describe.

pub mod area;
pub mod config;
pub mod direction;
pub mod game;
pub mod input;
pub mod layout;
pub mod random;
pub mod scene;
pub mod screen;
pub mod text;
