//! The fence synchronizer: a monotonically increasing checkpoint counter that
//! orders submitted GPU work against the CPU thread.
//!
//! The protocol is fully synchronous: every signal is immediately waited on,
//! so after `signal_and_wait` returns, the fence's completed value has reached
//! the value that was signaled, and the counter has advanced by exactly one.

use vstd::prelude::*;

verus! {

/// A fence: the value that will be signaled next, and the value the GPU has
/// last been observed to complete.
pub struct Fence {
    /// The checkpoint value the next signal submits. Starts at 1 and only
    /// ever grows.
    pub value: u64,
    /// The completion counter last observed. Starts at 0; the wait blocks
    /// until it reaches the signaled value.
    pub completed: u64,
}

impl Fence {
    /// Every value already completed lies strictly below the next checkpoint.
    pub open spec fn inv(self) -> bool {
        self.completed < self.value
    }

    /// The state after one signal-and-wait round.
    pub open spec fn spec_signal_and_wait(self) -> Fence {
        Fence { value: (self.value + 1) as u64, completed: self.value }
    }

    /// The checkpoint value that one signal-and-wait round returns.
    pub open spec fn spec_next_checkpoint(self) -> u64 {
        (self.value + 1) as u64
    }

    pub fn new() -> (f: Fence)
        ensures
            f.value == 1,
            f.completed == 0,
            f.inv(),
    {
        Fence { value: 1, completed: 0 }
    }

    /// Submits a signal of the current checkpoint value, blocks until the
    /// completed value reaches it, and returns the next checkpoint for the
    /// caller to use.
    pub fn signal_and_wait(&mut self) -> (next: u64)
        requires
            old(self).inv(),
            old(self).value < u64::MAX,
        ensures
            final(self).completed == old(self).value,
            final(self).completed >= old(self).value,
            final(self).value == old(self).value + 1,
            next == old(self).value + 1,
            *final(self) == old(self).spec_signal_and_wait(),
            next == old(self).spec_next_checkpoint(),
            final(self).inv(),
    {
        self.completed = self.value;
        self.value = self.value + 1;
        self.value
    }
}

/// The fence state after `n` signal-and-wait rounds.
pub open spec fn spec_after_rounds(f: Fence, n: nat) -> Fence
    decreases n,
{
    if n == 0 {
        f
    } else {
        spec_after_rounds(f, (n - 1) as nat).spec_signal_and_wait()
    }
}

/// Law: over repeated signal-and-wait rounds the returned checkpoints are
/// strictly increasing by exactly one each round — round `k` (counting from
/// 1) returns `f.value + k` — and no round ends before the completed value
/// has reached the value that round signaled.
pub proof fn lemma_fence_checkpoints_strictly_increase(f: Fence, n: nat)
    requires
        f.inv(),
        f.value + n <= u64::MAX,
    ensures
        spec_after_rounds(f, n).value == f.value + n,
        spec_after_rounds(f, n).inv(),
        n > 0 ==> spec_after_rounds(f, (n - 1) as nat).spec_next_checkpoint() == f.value + n,
        n > 0 ==> spec_after_rounds(f, n).completed
            == spec_after_rounds(f, (n - 1) as nat).value,
    decreases n,
{
    if n > 0 {
        lemma_fence_checkpoints_strictly_increase(f, (n - 1) as nat);
    }
}

} // verus!
