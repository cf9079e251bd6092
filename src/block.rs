use vstd::prelude::*;

verus! {

/// Seconds that the simulated chain advances with each block.
pub const BLOCK_SECONDS: u64 = 5;

/// Height and time of the simulated chain.
#[derive(Debug, Clone, Copy, PartialEq, Eq)]
pub struct BlockTime {
    pub height: u64,
    pub time_seconds: u64,
}

impl BlockTime {
    /// The chain after `amount` more blocks, each `BLOCK_SECONDS` long.
    pub fn wait_blocks(&self, amount: u64) -> (r: Self)
        requires
            self.height + amount <= u64::MAX,
            self.time_seconds + BLOCK_SECONDS * amount <= u64::MAX,
        ensures
            r.height == self.height + amount,
            r.time_seconds == self.time_seconds + BLOCK_SECONDS * amount,
    {
        BlockTime { height: self.height + amount, time_seconds: self.time_seconds + BLOCK_SECONDS * amount }
    }

    /// The chain after one more block.
    pub fn next_block(&self) -> (r: Self)
        requires
            self.height < u64::MAX,
            self.time_seconds + BLOCK_SECONDS <= u64::MAX,
        ensures
            r.height == self.height + 1,
            r.time_seconds == self.time_seconds + BLOCK_SECONDS,
    {
        self.wait_blocks(1)
    }
}

} // verus!
