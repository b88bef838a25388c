use vstd::prelude::*;
use crate::boot_exit::ExitState;
use crate::error::LoaderError;
use crate::firmware::{FirmwareCall, FirmwareReply};
use crate::handoff::{spec_copy_magic, verify_copy, AxiomHandoff, HANDOFF_SIZE};

verus! {

/// Replies after which every assembly has ended.
pub const ASSEMBLY_STEP_BOUND: u32 = 29;

/// Where the last part of the assembly stands: the block's final region is
/// allocated first, then boot services are left, and only then is the block
/// complete and ready to be copied.
#[derive(Debug, Clone, Copy, PartialEq, Eq)]
pub enum AssemblerState {
    /// The region that will hold the block's copy is being allocated.
    AllocatingBlock { block: AxiomHandoff },
    /// The exit from boot services is under way.
    Exiting { block: AxiomHandoff, region: u64, exit: ExitState },
    /// Boot services have ended. `block` holds the map whose key firmware
    /// accepted and is to be copied to the region at `region` without any
    /// further firmware call.
    Ready { block: AxiomHandoff, region: u64 },
    /// The assembly failed; the kernel is not started.
    Failed { error: LoaderError },
}

impl AssemblerState {
    /// The assembly of `block`, before its region is allocated.
    pub open spec fn spec_begin(block: AxiomHandoff) -> AssemblerState {
        AssemblerState::AllocatingBlock { block }
    }

    pub open spec fn spec_is_terminal(self) -> bool {
        self is Ready || self is Failed
    }

    /// The block that the assembly works on, unless it has failed.
    pub open spec fn spec_block(self) -> Option<AxiomHandoff> {
        match self {
            AssemblerState::AllocatingBlock { block } => Some(block),
            AssemblerState::Exiting { block, .. } => Some(block),
            AssemblerState::Ready { block, .. } => Some(block),
            AssemblerState::Failed { .. } => None,
        }
    }

    /// The call whose reply the state waits for.
    pub open spec fn spec_call(self) -> FirmwareCall {
        match self {
            AssemblerState::AllocatingBlock { .. } => FirmwareCall::AllocatePool { size: 160 },
            AssemblerState::Exiting { exit, .. } => exit.spec_call(),
            AssemblerState::Ready { .. } => FirmwareCall::Finished,
            AssemblerState::Failed { .. } => FirmwareCall::Abort,
        }
    }

    /// The state that follows a step of the exit sequence: with boot
    /// services left, the block takes the map fetched last.
    pub open spec fn spec_exiting(block: AxiomHandoff, region: u64, exit: ExitState)
        -> AssemblerState {
        match exit {
            ExitState::Exited { map, .. } => AssemblerState::Ready {
                block: block.with_memory_map(map),
                region,
            },
            ExitState::Failed { error } => AssemblerState::Failed { error },
            _ => AssemblerState::Exiting { block, region, exit },
        }
    }

    /// The state after `reply`.
    pub open spec fn spec_step(self, reply: FirmwareReply) -> AssemblerState {
        match self {
            AssemblerState::AllocatingBlock { block } => match reply {
                FirmwareReply::Allocated { address } => AssemblerState::Exiting {
                    block,
                    region: address,
                    exit: ExitState::spec_start(),
                },
                _ => AssemblerState::Failed { error: LoaderError::AllocationFailure },
            },
            AssemblerState::Exiting { block, region, exit } => Self::spec_exiting(
                block,
                region,
                exit.spec_step(reply),
            ),
            AssemblerState::Ready { .. } => self,
            AssemblerState::Failed { .. } => self,
        }
    }

    /// The state after each of `replies` in turn.
    pub open spec fn spec_run(self, replies: Seq<FirmwareReply>) -> AssemblerState
        decreases replies.len(),
    {
        if replies.len() == 0 {
            self
        } else {
            self.spec_run(replies.drop_last()).spec_step(replies.last())
        }
    }

    /// An upper bound on the replies that the assembly can still take in.
    pub open spec fn remaining(self) -> nat {
        match self {
            AssemblerState::AllocatingBlock { .. } => 29,
            AssemblerState::Exiting { exit, .. } => exit.remaining() + 1,
            AssemblerState::Ready { .. } => 0,
            AssemblerState::Failed { .. } => 0,
        }
    }

    /// What the assembly hands to the kernel, given the bytes found in the
    /// region after the copy: the region's address, where the assembly is
    /// ready and the copy starts with the magic value.
    pub open spec fn spec_finish(self, copy: Seq<u8>) -> Result<u64, LoaderError> {
        match self {
            AssemblerState::Ready { region, .. } => if spec_copy_magic(copy) == Some(
                0x4158494F4D4F53int,
            ) {
                Ok(region)
            } else {
                Err(LoaderError::MagicMismatch)
            },
            AssemblerState::Failed { error } => Err(error),
            _ => Err(LoaderError::ExitFailed),
        }
    }

    /// Begins the last part of the assembly of `block`.
    pub fn begin(block: AxiomHandoff) -> (s: Self)
        ensures
            s == Self::spec_begin(block),
    {
        AssemblerState::AllocatingBlock { block }
    }

    pub fn is_terminal(&self) -> (b: bool)
        ensures
            b == self.spec_is_terminal(),
    {
        match self {
            AssemblerState::Ready { .. } => true,
            AssemblerState::Failed { .. } => true,
            _ => false,
        }
    }

    /// The firmware call to make now.
    pub fn call(&self) -> (c: FirmwareCall)
        ensures
            c == self.spec_call(),
    {
        match self {
            AssemblerState::AllocatingBlock { .. } => FirmwareCall::AllocatePool {
                size: HANDOFF_SIZE as u64,
            },
            AssemblerState::Exiting { exit, .. } => exit.call(),
            AssemblerState::Ready { .. } => FirmwareCall::Finished,
            AssemblerState::Failed { .. } => FirmwareCall::Abort,
        }
    }

    /// Takes in the reply to the call made last.
    pub fn step(self, reply: FirmwareReply) -> (next: Self)
        ensures
            next == self.spec_step(reply),
            !self.spec_is_terminal() ==> next.remaining() < self.remaining(),
            self.spec_is_terminal() ==> next == self,
    {
        match self {
            AssemblerState::AllocatingBlock { block } => match reply {
                FirmwareReply::Allocated { address } => AssemblerState::Exiting {
                    block,
                    region: address,
                    exit: ExitState::start(),
                },
                _ => AssemblerState::Failed { error: LoaderError::AllocationFailure },
            },
            AssemblerState::Exiting { block, region, exit } => {
                match exit.step(reply) {
                    ExitState::Exited { map, .. } => {
                        let mut complete = block;
                        complete.record_memory_map(&map);
                        AssemblerState::Ready { block: complete, region }
                    },
                    ExitState::Failed { error } => AssemblerState::Failed { error },
                    other => AssemblerState::Exiting { block, region, exit: other },
                }
            },
            AssemblerState::Ready { block, region } => AssemblerState::Ready { block, region },
            AssemblerState::Failed { error } => AssemblerState::Failed { error },
        }
    }

    /// Takes in each of `replies` in turn.
    pub fn run(self, replies: &Vec<FirmwareReply>) -> (end: Self)
        ensures
            end == self.spec_run(replies@),
    {
        let mut state = self;
        let mut k: usize = 0;
        while k < replies.len()
            invariant
                0 <= k <= replies.len(),
                state == self.spec_run(replies@.take(k as int)),
            decreases replies.len() - k,
        {
            proof {
                let next = replies@.take(k + 1);
                assert(next.drop_last() =~= replies@.take(k as int));
                assert(next.last() == replies@[k as int]);
            }
            state = state.step(replies[k]);
            k += 1;
        }
        assert(replies@.take(k as int) =~= replies@);
        state
    }

    /// Checks the copy and gives the address to hand to the kernel.
    pub fn finish(&self, copy: &[u8]) -> (r: Result<u64, LoaderError>)
        ensures
            r == self.spec_finish(copy@),
    {
        match self {
            AssemblerState::Ready { region, .. } => match verify_copy(copy) {
                Ok(()) => Ok(*region),
                Err(e) => Err(e),
            },
            AssemblerState::Failed { error } => Err(*error),
            _ => Err(LoaderError::ExitFailed),
        }
    }
}

/// The assembly touches neither the magic value nor the version: a block
/// that carried them at the start carries them in every later state.
pub proof fn lemma_assembler_keeps_stamp(state: AssemblerState, reply: FirmwareReply)
    requires
        state.spec_block() is Some,
        state.spec_block().unwrap().is_stamped(),
    ensures
        state.spec_step(reply).spec_block() is Some ==> state.spec_step(
            reply,
        ).spec_block().unwrap().is_stamped(),
{
}

/// Every reply brings an unfinished assembly closer to its end, and leaves a
/// finished one as it is.
pub proof fn lemma_assembler_progress(state: AssemblerState, reply: FirmwareReply)
    ensures
        !state.spec_is_terminal() ==> state.spec_step(reply).remaining() < state.remaining(),
        state.spec_is_terminal() ==> state.spec_step(reply) == state,
{
}

/// After `replies` an assembly has ended, or has as many fewer replies to go.
pub proof fn lemma_assembler_run(state: AssemblerState, replies: Seq<FirmwareReply>)
    ensures
        state.spec_run(replies).spec_is_terminal() || state.spec_run(replies).remaining()
            + replies.len() <= state.remaining(),
    decreases replies.len(),
{
    if replies.len() > 0 {
        lemma_assembler_run(state, replies.drop_last());
        lemma_assembler_progress(state.spec_run(replies.drop_last()), replies.last());
    }
}

/// The assembly never goes on without bound: whatever firmware answers, it
/// has ended after `ASSEMBLY_STEP_BOUND` replies, and a block that carried
/// the magic value and the version at the start carries them at the end.
pub proof fn lemma_assembler_bounded(block: AxiomHandoff, replies: Seq<FirmwareReply>)
    requires
        replies.len() >= ASSEMBLY_STEP_BOUND,
    ensures
        AssemblerState::spec_begin(block).spec_run(replies).spec_is_terminal(),
{
    lemma_assembler_run(AssemblerState::spec_begin(block), replies);
}

/// Whatever firmware answers, a block that carried the magic value and the
/// version at the start carries them wherever the assembly has not failed.
pub proof fn lemma_run_keeps_stamp(block: AxiomHandoff, replies: Seq<FirmwareReply>)
    requires
        block.is_stamped(),
    ensures
        AssemblerState::spec_begin(block).spec_run(replies).spec_block() is Some
            ==> AssemblerState::spec_begin(block).spec_run(replies).spec_block().unwrap().is_stamped(),
    decreases replies.len(),
{
    if replies.len() > 0 {
        lemma_run_keeps_stamp(block, replies.drop_last());
        let before = AssemblerState::spec_begin(block).spec_run(replies.drop_last());
        if before.spec_block() is Some {
            lemma_assembler_keeps_stamp(before, replies.last());
        }
    }
}

/// Once the block's region is allocated the assembly asks for no allocation
/// but those that precede a map fetch: with a fetched map at hand, the one
/// call it asks for is the exit with that map's key.
pub proof fn lemma_no_call_between_fetch_and_exit(state: AssemblerState)
    requires
        state is Exiting,
        state->Exiting_exit is MapFetched,
    ensures
        state.spec_call() == (FirmwareCall::ExitBootServices {
            map_key: state->Exiting_exit->MapFetched_map.map_key,
        }),
{
}

/// The copy of a ready block, made byte for byte, passes the check exactly
/// when the block carries the magic value, and the kernel then gets the
/// region's address.
pub proof fn lemma_faithful_copy_finishes(block: AxiomHandoff, region: u64)
    ensures
        block.magic == 0x4158494F4D4F53 ==> (AssemblerState::Ready { block, region }).spec_finish(
            block.spec_bytes(),
        ) == Ok::<u64, LoaderError>(region),
        block.magic != 0x4158494F4D4F53 ==> (AssemblerState::Ready { block, region }).spec_finish(
            block.spec_bytes(),
        ) == Err::<u64, LoaderError>(LoaderError::MagicMismatch),
{
    crate::handoff::lemma_copy_keeps_magic(block);
}

} // verus!
