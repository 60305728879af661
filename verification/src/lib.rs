//! Core logic of a terminal-styled portfolio page.
//!
//! The page shows a banner, a tab bar, tabbed content panels and a link
//! panel over a decorative cellular-automaton background.  This crate holds
//! the verified parts: the view state driven by key input, the responsive
//! scroll-ceiling policy, the layout arithmetic that places the panels, the
//! composition of content records into styled lines, and the timing of the
//! text-reveal animation.  Drawing to the screen is left to the host
//! program around the crate.

pub mod anim;
pub mod background;
pub mod compose;
pub mod content;
pub mod layout;
pub mod policy;
pub mod state;
