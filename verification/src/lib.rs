//! Judgement core of a scrolling rhythm game: fixed-point timestamps in two
//! time domains, the scroll transform, and the per-lane judgement state machine.

pub mod game;
pub mod map;
pub mod object;
pub mod scroll;
pub mod timing;
