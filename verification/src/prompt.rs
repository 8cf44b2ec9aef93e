//! What the prompts of the commit flow ask and suggest.

pub mod fast_forward;
pub mod push;
pub mod scope;
pub mod subject;
