//! The decisions of the explorer's tip follower: the event it reports for
//! a block of the tip stream, and what it does when the stream fails.

use vstd::prelude::*;
use crate::explorer::{BlockTx, ChainBlock};
use crate::screen::{AppEvent, ConnectionState};

verus! {

/// Whether a block of the tip stream was applied or rolled back.
#[derive(Debug, Clone, Copy, PartialEq, Eq, Structural)]
pub enum TipChange {
    Apply,
    Undo,
}

/// The event reported for a block of the tip stream: an applied block is
/// a new tip with its transactions, a rolled-back one is reported without
/// them; both count the transactions the block had.
pub fn tip_event(change: TipChange, slot: u64, hash: Vec<u8>, height: u64, body: Option<Vec<BlockTx>>) -> (r: AppEvent)
    ensures
        match r {
            AppEvent::NewTip(b) => change == TipChange::Apply && b.slot == slot && b.hash@ == hash@
                && b.number == height && b.tx_count == (match body { Some(txs) => txs@.len(), None => 0 })
                && b.body == body,
            AppEvent::UndoTip(b) => change == TipChange::Undo && b.slot == slot && b.hash@ == hash@
                && b.number == height && b.tx_count == (match body { Some(txs) => txs@.len(), None => 0 })
                && b.body is None,
            _ => false,
        },
{
    let tx_count: usize = match &body {
        Some(txs) => txs.len(),
        None => 0,
    };
    match change {
        TipChange::Apply => AppEvent::NewTip(ChainBlock { slot, hash, number: height, tx_count, body }),
        TipChange::Undo => AppEvent::UndoTip(ChainBlock { slot, hash, number: height, tx_count, body: None }),
    }
}

/// What the follower does after waiting for the next attempt was asked.
#[derive(Debug, Clone, Copy, PartialEq, Eq, Structural)]
pub enum RetryStep {
    /// Wait this many milliseconds, then follow the tip again.
    Wait(u64),
    /// Report the connection lost and stop following.
    GiveUp,
}

/// After the tip stream failed: whether the delays between attempts start
/// over, which they do when the stream had been connected; the follower
/// then reports that it is retrying.
pub fn restart_delays(state: ConnectionState) -> (r: (bool, ConnectionState))
    ensures
        r.0 == (state == ConnectionState::Connected),
        r.1 == ConnectionState::Retrying,
{
    (state == ConnectionState::Connected, ConnectionState::Retrying)
}

/// The next step for the delay the back-off policy gave, if it gave one:
/// wait that long, or give up once the policy has none left, reporting
/// the connection as lost.
pub fn retry_step(next_delay: Option<u64>) -> (r: (RetryStep, Option<ConnectionState>))
    ensures
        match next_delay {
            Some(d) => r == (RetryStep::Wait(d), None::<ConnectionState>),
            None => r == (RetryStep::GiveUp, Some(ConnectionState::Disconnected)),
        },
{
    match next_delay {
        Some(d) => (RetryStep::Wait(d), None),
        None => (RetryStep::GiveUp, Some(ConnectionState::Disconnected)),
    }
}

} // verus!
