//! Historical shapes of a stored timer, each with its promotion to the
//! current shape. A stored record is read as the newest shape that fits.
pub mod display_options;
pub mod pre_start_behaviour;
pub mod segment;
pub mod sound;
pub mod timer;
pub mod timer_metadata;
