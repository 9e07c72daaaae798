//! A verified core for a touchscreen dialer keypad.
//!
//! The library models the twelve-key phone keypad as plain data: each
//! [`key::Key`] names a symbol, a `Button` pairs a key with its depression
//! state, and a `Keypad` owns the twelve buttons in canonical phone order.
//! Layout is pure integer geometry: the keypad subdivides a target
//! rectangle into a 3 x 4 grid of button cells and emits a display list of
//! drawing commands. Painting those commands onto a real display, and
//! polling the input events that drive the state, are left to the
//! embedding program.

pub mod button;
pub mod color;
pub mod config;
pub mod draw;
pub mod events;
pub mod geometry;
pub mod key;
pub mod keypad;
pub mod view_id_gen;
pub mod viewable;
