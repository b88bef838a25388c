use vstd::prelude::*;
use crate::error::LoaderError;
use crate::firmware::{FirmwareCall, FirmwareReply};

verus! {

/// How many times the map is fetched into a buffer before the collector
/// gives up.
pub const MAX_FETCH_ATTEMPTS: u32 = 3;

/// Bytes added to the size that firmware asks for: the map may grow between
/// the query and the fetch.
pub const MAP_SAFETY_MARGIN: u64 = 2048;

/// Replies after which every collection has ended.
pub const COLLECTOR_STEP_BOUND: u32 = 7;

/// A snapshot of the firmware's memory map.
#[derive(Debug, Clone, Copy, PartialEq, Eq, Structural)]
pub struct MemoryMapInfo {
    /// Physical address of the buffer that holds the descriptors.
    pub buffer: u64,
    /// Bytes of the buffer that the map occupies.
    pub size: u64,
    pub descriptor_size: u64,
    pub descriptor_version: u32,
    /// Token that firmware invalidates on its next allocation or free.
    pub map_key: u64,
    /// Number of descriptors in the map.
    pub count: u64,
}

/// Where a collection stands. Each state but the last two waits for the
/// reply to one firmware call.
#[derive(Debug, Clone, Copy, PartialEq, Eq, Structural)]
pub enum CollectorState {
    /// The size query is under way.
    Probing,
    /// A buffer of `size` bytes is being allocated for fetch number `attempt`.
    Allocating { size: u64, attempt: u32 },
    /// Fetch number `attempt` into the buffer is under way.
    Fetching { buffer: u64, size: u64, attempt: u32 },
    /// The map was fetched.
    Done { map: MemoryMapInfo },
    /// The collection failed.
    Failed,
}

/// The buffer size to try after firmware asked for `required` bytes while
/// `size` were on offer: the larger of the two and the margin, where that
/// fits in 64 bits.
pub open spec fn spec_grown(size: u64, required: u64) -> Option<u64> {
    let base = if required > size {
        required
    } else {
        size
    };
    if base + MAP_SAFETY_MARGIN <= u64::MAX {
        Some((base + MAP_SAFETY_MARGIN) as u64)
    } else {
        None
    }
}

/// Descriptors in a map of `size` bytes.
pub open spec fn spec_count(size: u64, descriptor_size: u64) -> u64 {
    if descriptor_size == 0 {
        0
    } else {
        size / descriptor_size
    }
}

pub fn grown(size: u64, required: u64) -> (r: Option<u64>)
    ensures
        r == spec_grown(size, required),
{
    let base: u64 = if required > size {
        required
    } else {
        size
    };
    base.checked_add(MAP_SAFETY_MARGIN)
}

pub fn count(size: u64, descriptor_size: u64) -> (n: u64)
    ensures
        n == spec_count(size, descriptor_size),
{
    if descriptor_size == 0 {
        0
    } else {
        size / descriptor_size
    }
}

impl CollectorState {
    /// A collection that has not begun.
    pub open spec fn spec_start() -> CollectorState {
        CollectorState::Probing
    }

    pub open spec fn spec_is_terminal(self) -> bool {
        self is Done || self is Failed
    }

    /// The call whose reply the state waits for.
    pub open spec fn spec_call(self) -> FirmwareCall {
        match self {
            CollectorState::Probing => FirmwareCall::ProbeMapSize,
            CollectorState::Allocating { size, .. } => FirmwareCall::AllocatePool { size },
            CollectorState::Fetching { buffer, size, .. } => FirmwareCall::GetMemoryMap {
                buffer,
                size,
            },
            CollectorState::Done { .. } => FirmwareCall::Finished,
            CollectorState::Failed => FirmwareCall::Abort,
        }
    }

    /// The state after `reply`. A reply that does not answer the call under
    /// way fails the collection; a finished collection stays as it is.
    pub open spec fn spec_step(self, reply: FirmwareReply) -> CollectorState {
        match self {
            CollectorState::Probing => match reply {
                FirmwareReply::BufferTooSmall { required } => match spec_grown(0, required) {
                    Some(size) => CollectorState::Allocating { size, attempt: 1 },
                    None => CollectorState::Failed,
                },
                _ => CollectorState::Failed,
            },
            CollectorState::Allocating { size, attempt } => match reply {
                FirmwareReply::Allocated { address } => CollectorState::Fetching {
                    buffer: address,
                    size,
                    attempt,
                },
                _ => CollectorState::Failed,
            },
            CollectorState::Fetching { buffer, size, attempt } => match reply {
                FirmwareReply::MapFetched {
                    size: actual,
                    descriptor_size,
                    descriptor_version,
                    map_key,
                } => CollectorState::Done {
                    map: MemoryMapInfo {
                        buffer,
                        size: actual,
                        descriptor_size,
                        descriptor_version,
                        map_key,
                        count: spec_count(actual, descriptor_size),
                    },
                },
                FirmwareReply::BufferTooSmall { required } => if attempt < MAX_FETCH_ATTEMPTS {
                    match spec_grown(size, required) {
                        Some(larger) => CollectorState::Allocating {
                            size: larger,
                            attempt: (attempt + 1) as u32,
                        },
                        None => CollectorState::Failed,
                    }
                } else {
                    CollectorState::Failed
                },
                _ => CollectorState::Failed,
            },
            CollectorState::Done { map } => CollectorState::Done { map },
            CollectorState::Failed => CollectorState::Failed,
        }
    }

    /// The state after each of `replies` in turn.
    pub open spec fn spec_run(self, replies: Seq<FirmwareReply>) -> CollectorState
        decreases replies.len(),
    {
        if replies.len() == 0 {
            self
        } else {
            self.spec_run(replies.drop_last()).spec_step(replies.last())
        }
    }

    /// What the collection came to, once it has ended.
    pub open spec fn spec_outcome(self) -> Option<Result<MemoryMapInfo, LoaderError>> {
        match self {
            CollectorState::Done { map } => Some(Ok(map)),
            CollectorState::Failed => Some(Err(LoaderError::AllocationFailure)),
            _ => None,
        }
    }

    /// An upper bound on the replies that the collection can still take in.
    pub open spec fn remaining(self) -> nat {
        match self {
            CollectorState::Probing => 7,
            CollectorState::Allocating { attempt, .. } => if attempt < MAX_FETCH_ATTEMPTS {
                (2 * (MAX_FETCH_ATTEMPTS - attempt) + 2) as nat
            } else {
                2
            },
            CollectorState::Fetching { attempt, .. } => if attempt < MAX_FETCH_ATTEMPTS {
                (2 * (MAX_FETCH_ATTEMPTS - attempt) + 1) as nat
            } else {
                1
            },
            CollectorState::Done { .. } => 0,
            CollectorState::Failed => 0,
        }
    }

    /// Begins a collection: the size query comes first.
    pub fn start() -> (s: Self)
        ensures
            s == Self::spec_start(),
    {
        CollectorState::Probing
    }

    pub fn is_terminal(&self) -> (b: bool)
        ensures
            b == self.spec_is_terminal(),
    {
        match self {
            CollectorState::Done { .. } => true,
            CollectorState::Failed => true,
            _ => false,
        }
    }

    /// The firmware call to make now.
    pub fn call(&self) -> (c: FirmwareCall)
        ensures
            c == self.spec_call(),
    {
        match *self {
            CollectorState::Probing => FirmwareCall::ProbeMapSize,
            CollectorState::Allocating { size, .. } => FirmwareCall::AllocatePool { size },
            CollectorState::Fetching { buffer, size, .. } => FirmwareCall::GetMemoryMap {
                buffer,
                size,
            },
            CollectorState::Done { .. } => FirmwareCall::Finished,
            CollectorState::Failed => FirmwareCall::Abort,
        }
    }

    /// Takes in the reply to the call made last.
    pub fn step(self, reply: FirmwareReply) -> (next: Self)
        ensures
            next == self.spec_step(reply),
            !self.spec_is_terminal() ==> next.remaining() < self.remaining(),
            self.spec_is_terminal() ==> next == self,
    {
        match self {
            CollectorState::Probing => match reply {
                FirmwareReply::BufferTooSmall { required } => match grown(0, required) {
                    Some(size) => CollectorState::Allocating { size, attempt: 1 },
                    None => CollectorState::Failed,
                },
                _ => CollectorState::Failed,
            },
            CollectorState::Allocating { size, attempt } => match reply {
                FirmwareReply::Allocated { address } => CollectorState::Fetching {
                    buffer: address,
                    size,
                    attempt,
                },
                _ => CollectorState::Failed,
            },
            CollectorState::Fetching { buffer, size, attempt } => match reply {
                FirmwareReply::MapFetched {
                    size: actual,
                    descriptor_size,
                    descriptor_version,
                    map_key,
                } => CollectorState::Done {
                    map: MemoryMapInfo {
                        buffer,
                        size: actual,
                        descriptor_size,
                        descriptor_version,
                        map_key,
                        count: count(actual, descriptor_size),
                    },
                },
                FirmwareReply::BufferTooSmall { required } => if attempt < MAX_FETCH_ATTEMPTS {
                    match grown(size, required) {
                        Some(larger) => CollectorState::Allocating {
                            size: larger,
                            attempt: attempt + 1,
                        },
                        None => CollectorState::Failed,
                    }
                } else {
                    CollectorState::Failed
                },
                _ => CollectorState::Failed,
            },
            CollectorState::Done { map } => CollectorState::Done { map },
            CollectorState::Failed => CollectorState::Failed,
        }
    }

    /// Takes in each of `replies` in turn.
    pub fn run(self, replies: &Vec<FirmwareReply>) -> (end: Self)
        ensures
            end == self.spec_run(replies@),
    {
        let mut state = self;
        let mut k: usize = 0;
        while k < replies.len()
            invariant
                0 <= k <= replies.len(),
                state == self.spec_run(replies@.take(k as int)),
            decreases replies.len() - k,
        {
            proof {
                let next = replies@.take(k + 1);
                assert(next.drop_last() =~= replies@.take(k as int));
                assert(next.last() == replies@[k as int]);
            }
            state = state.step(replies[k]);
            k += 1;
        }
        assert(replies@.take(k as int) =~= replies@);
        state
    }

    /// What the collection came to: nothing while it is under way, the map
    /// once it is fetched, `AllocationFailure` once it has failed.
    pub fn outcome(&self) -> (r: Option<Result<MemoryMapInfo, LoaderError>>)
        ensures
            r == self.spec_outcome(),
            r is Some <==> self.spec_is_terminal(),
    {
        match *self {
            CollectorState::Done { map } => Some(Ok(map)),
            CollectorState::Failed => Some(Err(LoaderError::AllocationFailure)),
            _ => None,
        }
    }
}

/// Every reply brings an unfinished collection closer to its end, and leaves
/// a finished one as it is.
pub proof fn lemma_collector_progress(state: CollectorState, reply: FirmwareReply)
    ensures
        !state.spec_is_terminal() ==> state.spec_step(reply).remaining() < state.remaining(),
        state.spec_is_terminal() ==> state.spec_step(reply) == state,
{
}

/// After `replies` a collection has ended, or has as many fewer replies to go.
pub proof fn lemma_collector_run(state: CollectorState, replies: Seq<FirmwareReply>)
    ensures
        state.spec_run(replies).spec_is_terminal() || state.spec_run(replies).remaining()
            + replies.len() <= state.remaining(),
    decreases replies.len(),
{
    if replies.len() > 0 {
        lemma_collector_run(state, replies.drop_last());
        lemma_collector_progress(state.spec_run(replies.drop_last()), replies.last());
    }
}

/// The fetches of a collection that began at the start are numbered from one
/// to `MAX_FETCH_ATTEMPTS`: the map is fetched into a buffer no more often
/// than that.
pub proof fn lemma_fetch_attempts_bounded(replies: Seq<FirmwareReply>)
    ensures
        match CollectorState::spec_start().spec_run(replies) {
            CollectorState::Allocating { attempt, .. } => 1 <= attempt <= MAX_FETCH_ATTEMPTS,
            CollectorState::Fetching { attempt, .. } => 1 <= attempt <= MAX_FETCH_ATTEMPTS,
            _ => true,
        },
    decreases replies.len(),
{
    if replies.len() > 0 {
        lemma_fetch_attempts_bounded(replies.drop_last());
    }
}

/// A collection never goes on without bound: whatever firmware answers, it
/// has ended after `COLLECTOR_STEP_BOUND` replies, with a map or with
/// `AllocationFailure`, and has made no fetch beyond `MAX_FETCH_ATTEMPTS`.
pub proof fn lemma_collector_bounded(replies: Seq<FirmwareReply>)
    requires
        replies.len() >= COLLECTOR_STEP_BOUND,
    ensures
        CollectorState::spec_start().spec_run(replies).spec_is_terminal(),
        CollectorState::spec_start().spec_run(replies).spec_outcome() is Some,
        CollectorState::spec_start().spec_run(replies).spec_outcome().unwrap() is Err
            ==> CollectorState::spec_start().spec_run(replies).spec_outcome().unwrap()
            == Err::<MemoryMapInfo, LoaderError>(LoaderError::AllocationFailure),
{
    lemma_collector_run(CollectorState::spec_start(), replies);
}

} // verus!
