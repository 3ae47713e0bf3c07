//! What publishing an event produced.
use vstd::prelude::*;

verus! {

/// The subject an event went to and the bytes that were sent.
#[derive(Clone, Debug, PartialEq, Eq)]
pub struct PublishedEvent {
    pub subject: String,
    pub payload: Vec<u8>,
}

} // verus!
