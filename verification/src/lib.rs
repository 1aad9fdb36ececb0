//! Tower Stacker: the game's rules, state machines and text, verified with Verus.
pub mod text;
pub mod levels;
pub mod handles;
pub mod flow;
pub mod score_bar;
pub mod sequence;
pub mod canvas;
pub mod editor;
pub mod wav;
pub mod noise;
pub mod play;
