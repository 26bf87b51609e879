//! Plays a point-and-click game with a gamepad: turns gamepad state changes
//! into keyboard and mouse commands.
//!
//! The engine is deterministic and does no input or output of its own. The
//! host polls the gamepad, hands each event to [`controller::input::GamepadManager`],
//! asks [`controller::action_manager::ActionManager`] once per frame for the
//! commands of that frame, and carries them out in order.
//!
//! Analog quantities are integers throughout. An activation level, an axis
//! sample, a threshold or a deadzone is a *level*: zero is the rest position
//! and a larger level is a stronger pull; the engine only ever compares
//! levels. Positions and sizes on the screen are whole pixels. Where the
//! cursor is to go on a circle around the character, the engine names the
//! circle and the stick that gives the angle, and leaves the trigonometry to
//! the host.

pub mod binding;
pub mod controller;
pub mod game_window_tracker;
pub mod icon;
pub mod keys;
pub mod pad;
pub mod settings;
pub mod text;
