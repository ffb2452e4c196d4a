use vstd::prelude::*;

pub mod config;
pub mod monitors;

verus! {

/// Messages the sampler accepts from the host event loop. The host fires
/// `Tick` once per refresh interval; the aggregator reacts to nothing else.
#[derive(Debug, Clone, Copy)]
pub enum Message {
    Tick,
}

} // verus!
