//! Watch mode: which new directories get fixed, and how long to wait for
//! vscode-server to finish unpacking one.
use vstd::prelude::*;
use crate::paths::{join, path_join};

verus! {

/// How long to wait for the `node` binary of a new entry, in milliseconds.
pub const WAIT_TIMEOUT_MS: u64 = 120_000;

/// How long to sleep between two looks for the `node` binary, in milliseconds.
pub const POLL_INTERVAL_MS: u64 = 500;

/// How long to let vscode-server finish writing once the `node` binary is
/// there, in milliseconds.
pub const SETTLE_MS: u64 = 2_000;

/// The entry to fix for a creation (or move-in) event in the watched `bin`
/// directory `bin_dir`: the named directory, or `None` where the event is
/// not about a directory or carries no name.
pub fn watch_target(bin_dir: &str, is_dir: bool, name: Option<&str>) -> (res: Option<String>)
    ensures
        res is Some <==> (is_dir && name is Some),
        res matches Some(p) ==> p@ == path_join(bin_dir@, name.unwrap()@),
{
    if !is_dir {
        return None;
    }
    match name {
        Some(n) => Some(join(bin_dir, n)),
        None => None,
    }
}

/// What to do next while waiting for the `node` binary of a new entry.
#[derive(Debug, Clone, Copy, PartialEq, Eq, Structural)]
pub enum WaitAction {
    /// The binary is there: sleep `SETTLE_MS`, then go on with the fix.
    Settle,
    /// Not yet: sleep `POLL_INTERVAL_MS` and look again.
    Poll,
    /// The wait timed out: warn, then go on with the fix anyway.
    GiveUp,
}

/// The decision of one round of the wait: `GiveUp` once `WAIT_TIMEOUT_MS`
/// have passed since the wait began, else `Settle` where the binary exists,
/// else `Poll`.
pub open spec fn wait_decision(elapsed_ms: int, node_exists: bool) -> WaitAction {
    if elapsed_ms >= WAIT_TIMEOUT_MS {
        WaitAction::GiveUp
    } else if node_exists {
        WaitAction::Settle
    } else {
        WaitAction::Poll
    }
}

/// The wait keeps polling while the binary is missing and two minutes have
/// not passed; it goes on with the fix early only once the binary is there,
/// and from two minutes on it gives up whatever it finds. It looks every
/// half second and lets a found binary settle for two seconds.
pub proof fn lemma_wait_rounds(elapsed_ms: int, node_exists: bool)
    ensures
        elapsed_ms < 120_000 && !node_exists ==> wait_decision(elapsed_ms, node_exists) == WaitAction::Poll,
        elapsed_ms < 120_000 && node_exists ==> wait_decision(elapsed_ms, node_exists) == WaitAction::Settle,
        wait_decision(elapsed_ms, node_exists) == WaitAction::Settle ==> node_exists && elapsed_ms < 120_000,
        elapsed_ms >= 120_000 ==> wait_decision(elapsed_ms, node_exists) == WaitAction::GiveUp,
        WAIT_TIMEOUT_MS == 120_000 && POLL_INTERVAL_MS == 500 && SETTLE_MS == 2_000,
{
}

/// One round of waiting for the `node` binary, `elapsed_ms` milliseconds
/// after the wait began.
pub fn wait_for_node_binary_step(elapsed_ms: u64, node_exists: bool) -> (res: WaitAction)
    ensures
        res == wait_decision(elapsed_ms as int, node_exists),
{
    if elapsed_ms >= WAIT_TIMEOUT_MS {
        WaitAction::GiveUp
    } else if node_exists {
        WaitAction::Settle
    } else {
        WaitAction::Poll
    }
}

/// The wait ends: where each round starts at least `POLL_INTERVAL_MS` after
/// the one before, whatever the binary's presence, no round past the
/// `WAIT_TIMEOUT_MS / POLL_INTERVAL_MS`-th polls again.
pub proof fn lemma_wait_ends(elapsed: Seq<int>, exists_at: Seq<bool>, k: int)
    requires
        elapsed.len() == exists_at.len(),
        elapsed.len() > 0,
        elapsed[0] >= 0,
        forall|i: int| 0 <= i < elapsed.len() - 1 ==> #[trigger] elapsed[i + 1] >= elapsed[i] + POLL_INTERVAL_MS,
        WAIT_TIMEOUT_MS / POLL_INTERVAL_MS <= k < elapsed.len(),
    ensures
        wait_decision(elapsed[k], exists_at[k]) != WaitAction::Poll,
{
    lemma_elapsed_grows(elapsed, k);
}

/// Rounds that start at least `POLL_INTERVAL_MS` apart have, by round `k`,
/// seen at least `k` intervals pass.
proof fn lemma_elapsed_grows(elapsed: Seq<int>, k: int)
    requires
        elapsed.len() > 0,
        elapsed[0] >= 0,
        forall|i: int| 0 <= i < elapsed.len() - 1 ==> #[trigger] elapsed[i + 1] >= elapsed[i] + POLL_INTERVAL_MS,
        0 <= k < elapsed.len(),
    ensures
        elapsed[k] >= k * POLL_INTERVAL_MS,
    decreases k,
{
    if k > 0 {
        lemma_elapsed_grows(elapsed, k - 1);
        assert(elapsed[(k - 1) + 1] >= elapsed[k - 1] + POLL_INTERVAL_MS);
    }
}

} // verus!
