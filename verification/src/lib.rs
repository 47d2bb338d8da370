//! A small generative pond: frogs that open and close their mouths while
//! sinking to a rest line, flies that jitter around, and ferns that grow,
//! mature and eventually die.  The world advances in discrete ticks and is
//! rendered as a list of drawing commands.
//!
//! Every quantity is held in fixed-point integers (see [`units`]) so that
//! each update rule is exact.  A host front end owns the window, the random
//! source and the trigonometry: it feeds randomness and milli-scaled
//! cosine/sine values in as plain arguments and interprets the drawing
//! commands that come back.

pub mod circle_math;
pub mod config;
pub mod draw;
pub mod fern;
pub mod fly;
pub mod frog;
pub mod point;
pub mod units;
pub mod world;
