//! Animated text avatar: a timed animation state machine, a procedural waveform
//! visualization, and a compositor that centers text blocks in a panel.

pub mod animation;
pub mod compositor;
pub mod rng;
pub mod text;
pub mod typewriter;
pub mod wave;
