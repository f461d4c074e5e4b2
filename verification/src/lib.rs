//! Supervision logic for a media player that is watched over a message bus:
//! advertisement tracks are recognised by their identifier and skipped by
//! restarting the player.

pub mod classifier;
pub mod error;
pub mod lifecycle;
pub mod notification;
pub mod output;
pub mod prober;
pub mod prompt;
pub mod remote;
pub mod run;
pub mod supervisor;
pub mod text;
