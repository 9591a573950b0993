//! Progress reporting: the stages of an API operation and the messages
//! shown while it runs.

pub mod messages;

use vstd::prelude::*;

verus! {

/// The stages of an API operation, in order.
#[derive(Debug, Clone, Copy, PartialEq, Eq, Structural)]
pub enum ApiStage {
    Connecting,
    Searching,
    Parsing,
    Caching,
}

/// The position of a stage on a progress bar of four steps.
pub open spec fn stage_position(s: ApiStage) -> u64 {
    match s {
        ApiStage::Connecting => 0,
        ApiStage::Searching => 1,
        ApiStage::Parsing => 2,
        ApiStage::Caching => 3,
    }
}

impl ApiStage {
    /// The stage's position on a progress bar of four steps (0 to 3).
    pub fn position(&self) -> (res: u64)
        ensures
            res == stage_position(*self),
    {
        match self {
            ApiStage::Connecting => 0,
            ApiStage::Searching => 1,
            ApiStage::Parsing => 2,
            ApiStage::Caching => 3,
        }
    }
}

} // verus!
