//! World model and coordinate geometry for a grid-based city builder.
//!
//! - `board`: the heightfield, the structure registry and its occupancy index.
//! - `terrain`: raising and lowering vertices under the slope rule.
//! - `structure`: the structure catalog and orientations.
//! - `projection`: the isometric map between world and screen, in fixed point.
//! - `viewport`: panning around the focal point, and hit testing of pointer pixels.
//! - `game`, `systems`, `action`, `controller`: the session state, the state
//!   change for each player action, and the routing of input events to actions.
//! - `menu`, `sidebar`, `screen`, `glyph`, `palette`: interface layout and
//!   lookup tables that the drawing code reads.

pub mod board;
pub mod structure;
pub mod terrain;
pub mod projection;
pub mod menu;
pub mod action;
pub mod game;
pub mod viewport;
pub mod glyph;
pub mod sidebar;
pub mod screen;
pub mod systems;
pub mod controller;
pub mod palette;
