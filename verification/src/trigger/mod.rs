//! Task triggers: `@devnpc` mentions in comments, and the webhook that receives them.

pub mod parser;
pub mod webhook;
