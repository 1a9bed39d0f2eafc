//! The control core of a desktop agent that records an operator's screen
//! interactions and later replays a perceive-decide-act loop: the session
//! mode, the capture scheduler, the action language and the loop's decisions.

pub mod text;
pub mod pattern;
pub mod action;
pub mod recording;
pub mod session;
pub mod task_loop;
pub mod frame;
pub mod history;
pub mod skills;
pub mod processing;
