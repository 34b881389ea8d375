//! Run reports: the trajectory and CI outcome aggregated, and rendered as HTML.

pub mod collector;
pub mod html;
pub mod template;
