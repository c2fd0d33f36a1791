//! Control logic for a single player-steered craft in a 2D arena: a reusable
//! cooldown, the mapping from held controls to steering factors, and the
//! fire control that decides, once per rendered frame, which projectiles are
//! retired and whether a new one is launched.
//!
//! All times are whole nanoseconds held in `u64`.

pub mod controls;
pub mod cooldown;
pub mod fire;
