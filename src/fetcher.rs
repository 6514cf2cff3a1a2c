//! Decisions of the single-chain fetcher.
//!
//! The fetcher backfills the last `BACKFILL_COUNT` blocks below the head
//! it sees first, then polls the head every `POLL_INTERVAL_MS` and fetches
//! each block above the last head it saw. The network calls, the sleeps
//! and the channel are performed by the caller: it carries out each
//! [`FetchAction`] and reports the outcome as a [`FetchEvent`].

use vstd::prelude::*;

use crate::chain::ChainIdentity;
use crate::decode::{block_to_payload, is_payload_of};
use crate::model::BlockPayload;
use crate::rpc::RpcBlock;

verus! {

/// Number of blocks fetched, up to and including the head, before polling.
pub const BACKFILL_COUNT: u64 = 20;

/// Pause between two polls of the head height, in milliseconds.
pub const POLL_INTERVAL_MS: u64 = 2000;

/// Where the fetcher stands.
#[derive(Clone, Copy, Debug, PartialEq, Eq, Structural)]
pub enum FetchPhase {
    /// Waiting for the first head height.
    Starting,
    /// Waiting for block `next`; blocks up to `last` follow.
    Fetching { next: u64, last: u64 },
    /// Block `next` was handed to the output; blocks up to `last` follow.
    Delivering { next: u64, last: u64 },
    /// Waiting out the poll interval; the last head seen is `last_seen`.
    Sleeping { last_seen: u64 },
    /// Waiting for the head height of a poll.
    Polling { last_seen: u64 },
    /// Done: the head was unavailable at start, or the output is closed.
    Stopped,
}

/// What the caller should do next.
#[derive(Clone, Debug, PartialEq, Eq)]
pub enum FetchAction {
    /// Ask the node for its current head height.
    QueryHead,
    /// Ask the node for a block with its full transactions.
    FetchBlock(u64),
    /// Hand a payload to the output.
    Deliver(BlockPayload),
    /// Wait this many milliseconds.
    Sleep(u64),
    /// End the fetcher.
    Stop,
}

/// The outcome of the last action.
#[derive(Clone, Debug)]
pub enum FetchEvent {
    /// The head height, or `None` when the query failed.
    Head(Option<u64>),
    /// The block, or `None` when it was not found or the fetch failed.
    Block(Option<RpcBlock>),
    /// Whether the output took the payload (`false`: nobody receives any more).
    Delivered(bool),
    /// The wait is over.
    Woke,
}

/// First block of the backfill window below head `latest`:
/// `max(0, latest - BACKFILL_COUNT + 1)`.
pub open spec fn backfill_start(latest: u64) -> u64 {
    if latest >= BACKFILL_COUNT - 1 {
        (latest - (BACKFILL_COUNT - 1)) as u64
    } else {
        0
    }
}

/// What follows once block `next` of a run ending at `last` is dealt with.
pub open spec fn after_block(next: u64, last: u64) -> (FetchPhase, FetchAction) {
    if next < last {
        (
            FetchPhase::Fetching { next: (next + 1) as u64, last },
            FetchAction::FetchBlock((next + 1) as u64),
        )
    } else {
        (FetchPhase::Sleeping { last_seen: last }, FetchAction::Sleep(POLL_INTERVAL_MS))
    }
}

/// What follows a poll that found head `tip` after `last_seen`: every block
/// above `last_seen` up to `tip`, and `tip` becomes the last head seen.
pub open spec fn after_poll(last_seen: u64, tip: u64) -> (FetchPhase, FetchAction) {
    if last_seen < tip {
        (
            FetchPhase::Fetching { next: (last_seen + 1) as u64, last: tip },
            FetchAction::FetchBlock((last_seen + 1) as u64),
        )
    } else {
        (FetchPhase::Sleeping { last_seen: tip }, FetchAction::Sleep(POLL_INTERVAL_MS))
    }
}

/// The transition of the fetcher, except for the payload of a delivered
/// block (see `EvmFetcher::step`).
pub open spec fn next_phase(phase: FetchPhase, event: FetchEvent) -> (FetchPhase, FetchAction) {
    match (phase, event) {
        (FetchPhase::Starting, FetchEvent::Head(Some(latest))) => (
            FetchPhase::Fetching { next: backfill_start(latest), last: latest },
            FetchAction::FetchBlock(backfill_start(latest)),
        ),
        (FetchPhase::Fetching { next, last }, FetchEvent::Block(None)) => after_block(next, last),
        (FetchPhase::Delivering { next, last }, FetchEvent::Delivered(true)) => after_block(
            next,
            last,
        ),
        (FetchPhase::Sleeping { last_seen }, FetchEvent::Woke) => (
            FetchPhase::Polling { last_seen },
            FetchAction::QueryHead,
        ),
        (FetchPhase::Polling { last_seen }, FetchEvent::Head(Some(tip))) => after_poll(
            last_seen,
            tip,
        ),
        (FetchPhase::Polling { last_seen }, FetchEvent::Head(None)) => (
            FetchPhase::Sleeping { last_seen },
            FetchAction::Sleep(POLL_INTERVAL_MS),
        ),
        _ => (FetchPhase::Stopped, FetchAction::Stop),
    }
}

/// Whether `event` brings the block that `phase` waits for.
pub open spec fn brings_block(phase: FetchPhase, event: FetchEvent) -> bool {
    &&& phase is Fetching
    &&& event matches FetchEvent::Block(Some(_))
}

/// Whether `event` brings the awaited block and the block becomes a payload.
pub open spec fn delivers(phase: FetchPhase, event: FetchEvent) -> bool {
    &&& phase is Fetching
    &&& event matches FetchEvent::Block(Some(block))
    &&& block.transactions@.len() <= u32::MAX
}

/// The block awaited in `phase` is skipped.
pub open spec fn skip_block(phase: FetchPhase) -> (FetchPhase, FetchAction) {
    match phase {
        FetchPhase::Fetching { next, last } => after_block(next, last),
        _ => (FetchPhase::Stopped, FetchAction::Stop),
    }
}

/// `g` and `r` are the fetcher and the action that follow `f` on `event`.
pub open spec fn stepped(f: EvmFetcher, event: FetchEvent, g: EvmFetcher, r: FetchAction) -> bool {
    &&& g.chain == f.chain
    &&& delivers(f.phase, event) ==> {
        &&& f.phase matches FetchPhase::Fetching { next, last }
        &&& g.phase == (FetchPhase::Delivering { next, last })
        &&& r matches FetchAction::Deliver(p)
        &&& event matches FetchEvent::Block(Some(block))
        &&& is_payload_of(p, f.chain, block)
        &&& p.wf()
    }
    &&& brings_block(f.phase, event) && !delivers(f.phase, event) ==> (g.phase, r) == skip_block(
        f.phase,
    )
    &&& !brings_block(f.phase, event) ==> (g.phase, r) == next_phase(f.phase, event)
}

/// A run of blocks never ends before it starts.
pub open spec fn phase_wf(phase: FetchPhase) -> bool {
    match phase {
        FetchPhase::Fetching { next, last } => next <= last,
        FetchPhase::Delivering { next, last } => next <= last,
        _ => true,
    }
}

/// The last block requested, or counted as requested: after a poll, the
/// head it saw. `None` before the first head height and after stopping.
pub open spec fn last_requested(phase: FetchPhase) -> Option<u64> {
    match phase {
        FetchPhase::Fetching { next, .. } => Some(next),
        FetchPhase::Delivering { next, .. } => Some(next),
        FetchPhase::Sleeping { last_seen } => Some(last_seen),
        FetchPhase::Polling { last_seen } => Some(last_seen),
        _ => None,
    }
}

/// A poll reports a head below the last one seen.
pub open spec fn head_regresses(phase: FetchPhase, event: FetchEvent) -> bool {
    &&& phase matches FetchPhase::Polling { last_seen }
    &&& event matches FetchEvent::Head(Some(tip))
    &&& tip < last_seen
}

/// The backfill window ends at the head and holds `BACKFILL_COUNT` blocks,
/// or every block from genesis when the chain is shorter.
pub proof fn lemma_backfill_window(latest: u64)
    ensures
        backfill_start(latest) <= latest,
        latest - backfill_start(latest) + 1 == if latest + 1 < BACKFILL_COUNT {
            latest + 1
        } else {
            BACKFILL_COUNT as int
        },
{
}

/// Every step keeps the runs of blocks well formed.
pub proof fn lemma_step_keeps_phase_wf(f: EvmFetcher, event: FetchEvent, g: EvmFetcher, r: FetchAction)
    requires
        stepped(f, event, g, r),
        phase_wf(f.phase),
    ensures
        phase_wf(g.phase),
{
}

/// Block requests come in order: the first one opens the backfill window
/// below the first head, and every later one names the block right after the
/// last one requested. So within one chain no block is skipped or asked for
/// twice while the head does not move back.
pub proof fn lemma_requests_consecutive(f: EvmFetcher, event: FetchEvent, g: EvmFetcher, n: u64)
    requires
        stepped(f, event, g, FetchAction::FetchBlock(n)),
    ensures
        last_requested(g.phase) == Some(n),
        f.phase is Starting ==> {
            &&& event matches FetchEvent::Head(Some(latest))
            &&& n == backfill_start(latest)
            &&& g.phase == (FetchPhase::Fetching { next: n, last: latest })
        },
        !(f.phase is Starting) ==> {
            &&& last_requested(f.phase) matches Some(m)
            &&& n == m + 1
        },
{
}

/// The last block requested never moves back, except when a poll reports a
/// head below the last one seen (a reorganization, which is not handled).
pub proof fn lemma_requests_never_go_back(f: EvmFetcher, event: FetchEvent, g: EvmFetcher, r: FetchAction)
    requires
        stepped(f, event, g, r),
        phase_wf(f.phase),
        !head_regresses(f.phase, event),
        last_requested(f.phase) is Some,
        last_requested(g.phase) is Some,
    ensures
        last_requested(f.phase)->0 <= last_requested(g.phase)->0,
{
}

/// The decision state of one chain's fetcher.
pub struct EvmFetcher {
    pub chain: ChainIdentity,
    pub phase: FetchPhase,
}

impl EvmFetcher {
    /// A fetcher for `chain`. Its first action is `FetchAction::QueryHead`.
    pub fn new(chain: ChainIdentity) -> (r: EvmFetcher)
        ensures
            r.chain == chain,
            r.phase == FetchPhase::Starting,
    {
        EvmFetcher { chain, phase: FetchPhase::Starting }
    }

    /// Takes the outcome of the last action and decides the next one.
    ///
    /// A failed head query at start stops the fetcher; during polling it
    /// only skips the cycle. A block that is missing, failed, or too large
    /// to count in a `u32` is skipped. A refused delivery stops the fetcher,
    /// and so does an event that does not answer the pending action.
    pub fn step(&mut self, event: FetchEvent) -> (r: FetchAction)
        ensures
            stepped(*old(self), event, *final(self), r),
    {
        let (phase, action) = match (self.phase, event) {
            (FetchPhase::Starting, FetchEvent::Head(Some(latest))) => {
                let start = if latest >= BACKFILL_COUNT - 1 {
                    latest - (BACKFILL_COUNT - 1)
                } else {
                    0
                };
                (FetchPhase::Fetching { next: start, last: latest }, FetchAction::FetchBlock(start))
            },
            (FetchPhase::Fetching { next, last }, FetchEvent::Block(Some(block))) => {
                if block.transactions.len() <= u32::MAX as usize {
                    let payload = block_to_payload(self.chain, &block);
                    (FetchPhase::Delivering { next, last }, FetchAction::Deliver(payload))
                } else {
                    Self::after_block(next, last)
                }
            },
            (FetchPhase::Fetching { next, last }, FetchEvent::Block(None)) => {
                Self::after_block(next, last)
            },
            (FetchPhase::Delivering { next, last }, FetchEvent::Delivered(true)) => {
                Self::after_block(next, last)
            },
            (FetchPhase::Sleeping { last_seen }, FetchEvent::Woke) => {
                (FetchPhase::Polling { last_seen }, FetchAction::QueryHead)
            },
            (FetchPhase::Polling { last_seen }, FetchEvent::Head(Some(tip))) => {
                if last_seen < tip {
                    (
                        FetchPhase::Fetching { next: last_seen + 1, last: tip },
                        FetchAction::FetchBlock(last_seen + 1),
                    )
                } else {
                    (FetchPhase::Sleeping { last_seen: tip }, FetchAction::Sleep(POLL_INTERVAL_MS))
                }
            },
            (FetchPhase::Polling { last_seen }, FetchEvent::Head(None)) => {
                (FetchPhase::Sleeping { last_seen }, FetchAction::Sleep(POLL_INTERVAL_MS))
            },
            _ => (FetchPhase::Stopped, FetchAction::Stop),
        };
        self.phase = phase;
        action
    }

    fn after_block(next: u64, last: u64) -> (r: (FetchPhase, FetchAction))
        ensures
            r == after_block(next, last),
    {
        if next < last {
            (FetchPhase::Fetching { next: next + 1, last }, FetchAction::FetchBlock(next + 1))
        } else {
            (FetchPhase::Sleeping { last_seen: last }, FetchAction::Sleep(POLL_INTERVAL_MS))
        }
    }
}

} // verus!
