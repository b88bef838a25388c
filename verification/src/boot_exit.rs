use vstd::prelude::*;
use crate::error::LoaderError;
use crate::firmware::{FirmwareCall, FirmwareReply};
use crate::memory_map::{CollectorState, MemoryMapInfo};

verus! {

/// How many times the exit call is made before the sequencer gives up.
pub const MAX_EXIT_ATTEMPTS: u32 = 3;

/// Replies after which every exit sequence has ended.
pub const EXIT_STEP_BOUND: u32 = 27;

/// Where the exit from boot services stands.
#[derive(Debug, Clone, Copy, PartialEq, Eq, Structural)]
pub enum ExitState {
    /// A fresh memory map is being collected for exit attempt `attempt`.
    Idle { collector: CollectorState, attempt: u32 },
    /// The map is fetched and its key is current: the exit call is due, and
    /// nothing that may allocate may run before it.
    MapFetched { map: MemoryMapInfo, attempt: u32 },
    /// The exit call was made with the map's key, and firmware has answered.
    /// The sequence never rests here: the answer is settled in the same step.
    ExitAttempted { map: MemoryMapInfo, attempt: u32, accepted: bool },
    /// Boot services have ended; `map` is the map that the kernel gets, and
    /// `fetches` maps were collected on the way.
    Exited { map: MemoryMapInfo, fetches: u32 },
    /// The sequence failed; the machine is still in firmware mode.
    Failed { error: LoaderError },
}

impl ExitState {
    /// A sequence that has not begun: the first map fetch comes first.
    pub open spec fn spec_start() -> ExitState {
        ExitState::Idle { collector: CollectorState::spec_start(), attempt: 1 }
    }

    pub open spec fn spec_is_terminal(self) -> bool {
        self is Exited || self is Failed
    }

    /// The call whose reply the state waits for.
    pub open spec fn spec_call(self) -> FirmwareCall {
        match self {
            ExitState::Idle { collector, .. } => collector.spec_call(),
            ExitState::MapFetched { map, .. } => FirmwareCall::ExitBootServices {
                map_key: map.map_key,
            },
            ExitState::ExitAttempted { .. } => FirmwareCall::Finished,
            ExitState::Exited { .. } => FirmwareCall::Finished,
            ExitState::Failed { .. } => FirmwareCall::Abort,
        }
    }

    /// The state that follows an answered exit call: out of boot services
    /// where firmware accepted the key; back to a fresh fetch where it did
    /// not and an attempt is left; failed otherwise.
    pub open spec fn spec_settle(map: MemoryMapInfo, attempt: u32, accepted: bool) -> ExitState {
        if accepted {
            ExitState::Exited { map, fetches: attempt }
        } else if attempt < MAX_EXIT_ATTEMPTS {
            ExitState::Idle {
                collector: CollectorState::spec_start(),
                attempt: (attempt + 1) as u32,
            }
        } else {
            ExitState::Failed { error: LoaderError::ExitFailed }
        }
    }

    /// The state that the reply to the exit call leads to first: the attempt
    /// is made, with firmware's verdict. A reply that answers another call
    /// fails the sequence.
    pub open spec fn spec_attempted(map: MemoryMapInfo, attempt: u32, reply: FirmwareReply)
        -> ExitState {
        match reply {
            FirmwareReply::ExitAccepted => ExitState::ExitAttempted { map, attempt, accepted: true },
            FirmwareReply::ExitRejected => ExitState::ExitAttempted {
                map,
                attempt,
                accepted: false,
            },
            _ => ExitState::Failed { error: LoaderError::ExitFailed },
        }
    }

    /// The state in which the sequence comes to rest: an answered attempt is
    /// settled at once, any other state stays.
    pub open spec fn spec_resolved(self) -> ExitState {
        match self {
            ExitState::ExitAttempted { map, attempt, accepted } => Self::spec_settle(
                map,
                attempt,
                accepted,
            ),
            _ => self,
        }
    }

    /// The state that follows a step of the collection for `attempt`.
    pub open spec fn spec_collected(collector: CollectorState, attempt: u32) -> ExitState {
        match collector {
            CollectorState::Done { map } => ExitState::MapFetched { map, attempt },
            CollectorState::Failed => ExitState::Failed { error: LoaderError::AllocationFailure },
            _ => ExitState::Idle { collector, attempt },
        }
    }

    /// The state after `reply`. While a map is collected the reply goes to
    /// the collector. With the map fetched, the reply to the exit call
    /// decides; any other reply there fails the sequence.
    pub open spec fn spec_step(self, reply: FirmwareReply) -> ExitState {
        match self {
            ExitState::Idle { collector, attempt } => Self::spec_collected(
                collector.spec_step(reply),
                attempt,
            ),
            ExitState::MapFetched { map, attempt } => Self::spec_attempted(
                map,
                attempt,
                reply,
            ).spec_resolved(),
            ExitState::ExitAttempted { .. } => self.spec_resolved(),
            ExitState::Exited { map, fetches } => ExitState::Exited { map, fetches },
            ExitState::Failed { error } => ExitState::Failed { error },
        }
    }

    /// The state after each of `replies` in turn.
    pub open spec fn spec_run(self, replies: Seq<FirmwareReply>) -> ExitState
        decreases replies.len(),
    {
        if replies.len() == 0 {
            self
        } else {
            self.spec_run(replies.drop_last()).spec_step(replies.last())
        }
    }

    /// An upper bound on the replies that the sequence can still take in.
    pub open spec fn remaining(self) -> nat {
        match self {
            ExitState::Idle { collector, attempt } => if attempt < MAX_EXIT_ATTEMPTS {
                (collector.remaining() + 2 + 9 * (MAX_EXIT_ATTEMPTS - attempt)) as nat
            } else {
                collector.remaining() + 2
            },
            ExitState::MapFetched { attempt, .. } => if attempt < MAX_EXIT_ATTEMPTS {
                (1 + 9 * (MAX_EXIT_ATTEMPTS - attempt)) as nat
            } else {
                1
            },
            ExitState::ExitAttempted { attempt, .. } => if attempt < MAX_EXIT_ATTEMPTS {
                (1 + 9 * (MAX_EXIT_ATTEMPTS - attempt)) as nat
            } else {
                1
            },
            ExitState::Exited { .. } => 0,
            ExitState::Failed { .. } => 0,
        }
    }

    /// Begins the sequence.
    pub fn start() -> (s: Self)
        ensures
            s == Self::spec_start(),
    {
        ExitState::Idle { collector: CollectorState::start(), attempt: 1 }
    }

    pub fn is_terminal(&self) -> (b: bool)
        ensures
            b == self.spec_is_terminal(),
    {
        match self {
            ExitState::Exited { .. } => true,
            ExitState::Failed { .. } => true,
            _ => false,
        }
    }

    /// The firmware call to make now.
    pub fn call(&self) -> (c: FirmwareCall)
        ensures
            c == self.spec_call(),
    {
        match *self {
            ExitState::Idle { collector, .. } => collector.call(),
            ExitState::MapFetched { map, .. } => FirmwareCall::ExitBootServices {
                map_key: map.map_key,
            },
            ExitState::ExitAttempted { .. } => FirmwareCall::Finished,
            ExitState::Exited { .. } => FirmwareCall::Finished,
            ExitState::Failed { .. } => FirmwareCall::Abort,
        }
    }

    /// Decides what follows an answered exit call.
    pub fn settle(map: MemoryMapInfo, attempt: u32, accepted: bool) -> (next: Self)
        ensures
            next == Self::spec_settle(map, attempt, accepted),
    {
        if accepted {
            ExitState::Exited { map, fetches: attempt }
        } else if attempt < MAX_EXIT_ATTEMPTS {
            ExitState::Idle { collector: CollectorState::start(), attempt: attempt + 1 }
        } else {
            ExitState::Failed { error: LoaderError::ExitFailed }
        }
    }

    /// Notes firmware's answer to the exit call.
    pub fn attempted(map: MemoryMapInfo, attempt: u32, reply: FirmwareReply) -> (next: Self)
        ensures
            next == Self::spec_attempted(map, attempt, reply),
    {
        match reply {
            FirmwareReply::ExitAccepted => ExitState::ExitAttempted { map, attempt, accepted: true },
            FirmwareReply::ExitRejected => ExitState::ExitAttempted {
                map,
                attempt,
                accepted: false,
            },
            _ => ExitState::Failed { error: LoaderError::ExitFailed },
        }
    }

    /// Settles an answered attempt; leaves any other state as it is.
    pub fn resolved(self) -> (next: Self)
        ensures
            next == self.spec_resolved(),
    {
        match self {
            ExitState::ExitAttempted { map, attempt, accepted } => Self::settle(
                map,
                attempt,
                accepted,
            ),
            other => other,
        }
    }

    /// Takes in the reply to the call made last.
    pub fn step(self, reply: FirmwareReply) -> (next: Self)
        ensures
            next == self.spec_step(reply),
            !self.spec_is_terminal() ==> next.remaining() < self.remaining(),
            self.spec_is_terminal() ==> next == self,
    {
        match self {
            ExitState::Idle { collector, attempt } => {
                match collector.step(reply) {
                    CollectorState::Done { map } => ExitState::MapFetched { map, attempt },
                    CollectorState::Failed => ExitState::Failed {
                        error: LoaderError::AllocationFailure,
                    },
                    other => ExitState::Idle { collector: other, attempt },
                }
            },
            ExitState::MapFetched { map, attempt } => Self::attempted(map, attempt, reply).resolved(),
            ExitState::ExitAttempted { .. } => self.resolved(),
            ExitState::Exited { map, fetches } => ExitState::Exited { map, fetches },
            ExitState::Failed { error } => ExitState::Failed { error },
        }
    }

    /// Takes in each of `replies` in turn.
    pub fn run(self, replies: &Vec<FirmwareReply>) -> (end: Self)
        ensures
            end == self.spec_run(replies@),
    {
        let mut state = self;
        let mut k: usize = 0;
        while k < replies.len()
            invariant
                0 <= k <= replies.len(),
                state == self.spec_run(replies@.take(k as int)),
            decreases replies.len() - k,
        {
            proof {
                let next = replies@.take(k + 1);
                assert(next.drop_last() =~= replies@.take(k as int));
                assert(next.last() == replies@[k as int]);
            }
            state = state.step(replies[k]);
            k += 1;
        }
        assert(replies@.take(k as int) =~= replies@);
        state
    }
}

/// Every reply brings an unfinished sequence closer to its end, and leaves a
/// finished one as it is.
pub proof fn lemma_exit_progress(state: ExitState, reply: FirmwareReply)
    ensures
        !state.spec_is_terminal() ==> state.spec_step(reply).remaining() < state.remaining(),
        state.spec_is_terminal() ==> state.spec_step(reply) == state,
{
}

/// After `replies` a sequence has ended, or has as many fewer replies to go.
pub proof fn lemma_exit_run(state: ExitState, replies: Seq<FirmwareReply>)
    ensures
        state.spec_run(replies).spec_is_terminal() || state.spec_run(replies).remaining()
            + replies.len() <= state.remaining(),
    decreases replies.len(),
{
    if replies.len() > 0 {
        lemma_exit_run(state, replies.drop_last());
        lemma_exit_progress(state.spec_run(replies.drop_last()), replies.last());
    }
}

/// The exit sequence never goes on without bound: whatever firmware answers,
/// it has ended after `EXIT_STEP_BOUND` replies.
pub proof fn lemma_exit_bounded(replies: Seq<FirmwareReply>)
    requires
        replies.len() >= EXIT_STEP_BOUND,
    ensures
        ExitState::spec_start().spec_run(replies).spec_is_terminal(),
{
    lemma_exit_run(ExitState::spec_start(), replies);
}

/// The attempts of a sequence that began at the start are numbered from one
/// to `MAX_EXIT_ATTEMPTS`, so the exit call is made no more often than that,
/// and the sequence never rests between the exit call and its settlement.
pub proof fn lemma_exit_attempts_bounded(replies: Seq<FirmwareReply>)
    ensures
        match ExitState::spec_start().spec_run(replies) {
            ExitState::Idle { attempt, .. } => 1 <= attempt <= MAX_EXIT_ATTEMPTS,
            ExitState::MapFetched { attempt, .. } => 1 <= attempt <= MAX_EXIT_ATTEMPTS,
            ExitState::ExitAttempted { .. } => false,
            ExitState::Exited { fetches, .. } => 1 <= fetches <= MAX_EXIT_ATTEMPTS,
            ExitState::Failed { .. } => true,
        },
    decreases replies.len(),
{
    if replies.len() > 0 {
        lemma_exit_attempts_bounded(replies.drop_last());
    }
}

/// A sequence leaves boot services only with the key of the map fetched
/// last: the step into `Exited` starts where that map's key is current, and
/// keeps the map.
pub proof fn lemma_exit_uses_fresh_map(state: ExitState, reply: FirmwareReply)
    requires
        !(state is Exited),
        !(state is ExitAttempted),
        state.spec_step(reply) is Exited,
    ensures
        state is MapFetched,
        reply is ExitAccepted,
        state.spec_call() == (FirmwareCall::ExitBootServices {
            map_key: state.spec_step(reply)->Exited_map.map_key,
        }),
        state.spec_step(reply)->Exited_map == state->MapFetched_map,
        state.spec_step(reply)->Exited_fetches == state->MapFetched_attempt,
{
}

/// Where firmware rejects the key of the first map and accepts that of the
/// second, the sequence ends out of boot services after two fetches, with the
/// second map.
pub proof fn lemma_second_attempt_exits(first: MemoryMapInfo, second: MemoryMapInfo)
    ensures
        ({
            let rejected = (ExitState::MapFetched { map: first, attempt: 1 }).spec_step(
                FirmwareReply::ExitRejected,
            );
            let refetched = ExitState::spec_collected(
                CollectorState::Done { map: second },
                rejected->Idle_attempt,
            );
            &&& rejected == ExitState::Idle { collector: CollectorState::spec_start(), attempt: 2 }
            &&& refetched.spec_step(FirmwareReply::ExitAccepted) == ExitState::Exited {
                map: second,
                fetches: 2,
            }
        }),
{
}

} // verus!
