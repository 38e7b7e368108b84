//! Flattening of Markdown into plain text with style, syntax and region
//! annotations.

pub mod balance;
pub mod event;
pub mod highlight;
pub mod laws;
pub mod layout;
pub mod link;
pub mod model;
pub mod output;
pub mod skills;
pub mod text;
pub mod transform;
