//! Fitting a conversation into a token limit.
use crate::types::message::Message;
use vstd::prelude::*;

verus! {

/// Strategy for compacting conversation context to fit within token limits.
pub trait ContextStrategy {
    /// The messages that are kept, or what stands for them.
    fn compact(&self, messages: &[Message], token_limit: u64) -> (r: Vec<Message>);
}

} // verus!
