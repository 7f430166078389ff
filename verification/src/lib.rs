//! Simulation core of a side-scrolling sleigh game.
//!
//! Every quantity is a fixed-point integer. Instants and durations are whole
//! milliseconds, accelerations are pixels per second squared, velocities are
//! thousandths of a pixel per second, and positions and sizes are millionths
//! of a pixel. Animation frames are thousandths of a frame and frame speeds are
//! whole frames per second. With these units one step of the integration
//! multiplies a rate by the elapsed milliseconds without any rounding.
//! Sums and products that leave the range of their type stop at its ends.
//!
//! The library neither reads the clock nor draws nor plays anything. Every
//! function that lets time pass takes the instant `now`; the functions named
//! `draw` give the sprites to be drawn, and the functions that tick give
//! the sounds to be played.
pub mod asset;
pub mod data;
pub mod font;
pub mod game;
pub mod gift;
pub mod level;
pub mod npc;
pub mod options;
pub mod random;
pub mod sleigh;
pub mod star;
pub mod ui;
pub mod units;
