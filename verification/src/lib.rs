//! Verified core of a community bounty bot: permissions, bounty records,
//! submission parsing, message rendering and command decisions.

pub mod text;
pub mod permissions;
pub mod bounty_id;
pub mod bounty;
pub mod submission;
pub mod timestamp;
pub mod render;
pub mod lifecycle;
pub mod commands;
pub mod arguments;
pub mod guild;
pub mod laws;
