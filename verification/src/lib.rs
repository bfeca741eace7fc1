//! The rules of a music player: how sound fades, queues and changes track,
//! which output it plays on, and what the window shows and does.

pub mod control;
pub mod device;
pub mod envelope;
pub mod fade;
pub mod links;
pub mod memory;
pub mod mini;
pub mod motion;
pub mod queue;
pub mod sink;
pub mod skeleton;
pub mod spark;
pub mod stream;
pub mod vibrancy;
