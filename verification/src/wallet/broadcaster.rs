//! Scripted broadcasters: stand-ins for the network that fail in a fixed way.

use vstd::prelude::*;

use crate::wallet::error::BroadcastError;
use crate::wallet::types::Txid;

verus! {

/// Broadcaster whose first call fails with a definitive pre-send rejection
/// and which succeeds afterwards: a transient broadcast error followed by a
/// retry.
pub struct RejectFirstBroadcaster {
    pub failed_once: bool,
}

/// Broadcaster that always fails with a definitive pre-send rejection.
pub struct AlwaysRejectedBroadcaster;

/// Broadcaster that always fails with an ambiguous result: the network may
/// already have accepted the transaction, so its inputs must not be released.
pub struct AlwaysMaybeSentBroadcaster;

/// `outcome` is a definitive pre-send rejection, for the scripted reason.
pub open spec fn is_scripted_rejection(outcome: Result<Txid, BroadcastError>) -> bool {
    outcome matches Err(BroadcastError::Rejected { reason }) && reason@
        == "simulated pre-send rejection"@
}

/// `outcome` is an ambiguous failure, for the scripted reason.
pub open spec fn is_scripted_ambiguity(outcome: Result<Txid, BroadcastError>) -> bool {
    outcome matches Err(BroadcastError::MaybeSent { reason }) && reason@
        == "simulated ambiguous broadcast"@
}

impl RejectFirstBroadcaster {
    pub fn new() -> (broadcaster: RejectFirstBroadcaster)
        ensures
            !broadcaster.failed_once,
    {
        RejectFirstBroadcaster { failed_once: false }
    }

    /// What one call does: it fails unless one has failed before, and from
    /// then on one has.
    pub open spec fn broadcast_step(
        pre: RejectFirstBroadcaster,
        txid: Txid,
        post: RejectFirstBroadcaster,
        outcome: Result<Txid, BroadcastError>,
    ) -> bool {
        &&& post.failed_once
        &&& pre.failed_once ==> outcome == Ok::<Txid, BroadcastError>(txid)
        &&& !pre.failed_once ==> is_scripted_rejection(outcome)
    }

    /// Broadcasts the transaction with the id `txid`.
    pub fn broadcast(&mut self, txid: Txid) -> (outcome: Result<Txid, BroadcastError>)
        ensures
            RejectFirstBroadcaster::broadcast_step(*old(self), txid, *final(self), outcome),
    {
        if self.failed_once {
            Ok(txid)
        } else {
            self.failed_once = true;
            Err(BroadcastError::Rejected { reason: "simulated pre-send rejection".to_string() })
        }
    }
}

impl AlwaysRejectedBroadcaster {
    /// What a call answers, whatever the transaction.
    pub open spec fn answers(outcome: Result<Txid, BroadcastError>) -> bool {
        is_scripted_rejection(outcome)
    }

    /// Broadcasts the transaction with the id `txid`.
    pub fn broadcast(&self, txid: Txid) -> (outcome: Result<Txid, BroadcastError>)
        ensures
            AlwaysRejectedBroadcaster::answers(outcome),
    {
        Err(BroadcastError::Rejected { reason: "simulated pre-send rejection".to_string() })
    }
}

impl AlwaysMaybeSentBroadcaster {
    /// What a call answers, whatever the transaction.
    pub open spec fn answers(outcome: Result<Txid, BroadcastError>) -> bool {
        is_scripted_ambiguity(outcome)
    }

    /// Broadcasts the transaction with the id `txid`.
    pub fn broadcast(&self, txid: Txid) -> (outcome: Result<Txid, BroadcastError>)
        ensures
            AlwaysMaybeSentBroadcaster::answers(outcome),
    {
        Err(BroadcastError::MaybeSent { reason: "simulated ambiguous broadcast".to_string() })
    }
}

/// However often it is called, and with whatever transactions, the broadcaster
/// that always rejects gives the scripted rejection: it never succeeds, and
/// never leaves open whether the transaction was sent.
pub proof fn law_every_broadcast_is_rejected(outcomes: Seq<Result<Txid, BroadcastError>>)
    requires
        forall|i: int|
            0 <= i < outcomes.len() ==> AlwaysRejectedBroadcaster::answers(#[trigger] outcomes[i]),
    ensures
        forall|i: int|
            0 <= i < outcomes.len() ==> {
                &&& (#[trigger] outcomes[i]) matches Err(BroadcastError::Rejected { reason })
                &&& reason@ == "simulated pre-send rejection"@
            },
{
}

/// However often it is called, and with whatever transactions, the broadcaster
/// that always fails ambiguously gives the scripted ambiguity: it never
/// succeeds, and never rejects.
pub proof fn law_every_broadcast_is_ambiguous(outcomes: Seq<Result<Txid, BroadcastError>>)
    requires
        forall|i: int|
            0 <= i < outcomes.len() ==> AlwaysMaybeSentBroadcaster::answers(#[trigger] outcomes[i]),
    ensures
        forall|i: int|
            0 <= i < outcomes.len() ==> {
                &&& (#[trigger] outcomes[i]) matches Err(BroadcastError::MaybeSent { reason })
                &&& reason@ == "simulated ambiguous broadcast"@
            },
{
}

/// `turns` gives each of `n` callers a turn of its own, among the first `n`.
pub open spec fn is_schedule(turns: Seq<int>, n: nat) -> bool {
    &&& turns.len() == n
    &&& forall|caller: int| 0 <= caller < n ==> 0 <= #[trigger] turns[caller] < n
    &&& forall|a: int, b: int| 0 <= a < b < n ==> #[trigger] turns[a] != #[trigger] turns[b]
    &&& forall|turn: int| 0 <= turn < n ==> #[trigger] turns.contains(turn)
}

/// Where several callers share a new `RejectFirstBroadcaster` and are served
/// one at a time, in any order, exactly one of them is rejected, and every
/// other gets the id it asked about.
pub proof fn law_exactly_one_caller_is_rejected(
    states: Seq<RejectFirstBroadcaster>,
    txids: Seq<Txid>,
    outcomes: Seq<Result<Txid, BroadcastError>>,
    turns: Seq<int>,
) -> (rejected: int)
    requires
        txids.len() > 0,
        states.len() == txids.len() + 1,
        outcomes.len() == txids.len(),
        !states[0].failed_once,
        is_schedule(turns, txids.len()),
        forall|turn: int|
            0 <= turn < txids.len() ==> #[trigger] RejectFirstBroadcaster::broadcast_step(
                states[turn],
                txids[turn],
                states[turn + 1],
                outcomes[turn],
            ),
    ensures
        0 <= rejected < turns.len(),
        is_scripted_rejection(outcomes[turns[rejected]]),
        forall|caller: int|
            0 <= caller < turns.len() && caller != rejected ==> outcomes[#[trigger] turns[caller]]
                == Ok::<Txid, BroadcastError>(txids[turns[caller]]),
{
    law_only_the_first_broadcast_is_rejected(states, txids, outcomes);
    assert(turns.contains(0));
    let rejected = choose|caller: int| 0 <= caller < turns.len() && turns[caller] == 0;
    assert forall|caller: int|
        0 <= caller < turns.len() && caller != rejected implies outcomes[#[trigger] turns[caller]]
        == Ok::<Txid, BroadcastError>(txids[turns[caller]]) by {
        assert(turns[caller] != turns[rejected]);
    }
    rejected
}

/// Over any run of calls on a new `RejectFirstBroadcaster`, the first call is
/// rejected and each later one returns the id it was given.
pub proof fn law_only_the_first_broadcast_is_rejected(
    states: Seq<RejectFirstBroadcaster>,
    txids: Seq<Txid>,
    outcomes: Seq<Result<Txid, BroadcastError>>,
)
    requires
        states.len() == txids.len() + 1,
        outcomes.len() == txids.len(),
        !states[0].failed_once,
        forall|i: int|
            0 <= i < txids.len() ==> #[trigger] RejectFirstBroadcaster::broadcast_step(
                states[i],
                txids[i],
                states[i + 1],
                outcomes[i],
            ),
    ensures
        forall|i: int|
            0 <= i < outcomes.len() ==> if i == 0 {
                is_scripted_rejection(#[trigger] outcomes[i])
            } else {
                outcomes[i] == Ok::<Txid, BroadcastError>(txids[i])
            },
{
    assert forall|i: int| 0 <= i < outcomes.len() implies if i == 0 {
        is_scripted_rejection(#[trigger] outcomes[i])
    } else {
        outcomes[i] == Ok::<Txid, BroadcastError>(txids[i])
    } by {
        assert(RejectFirstBroadcaster::broadcast_step(
            states[i],
            txids[i],
            states[i + 1],
            outcomes[i],
        ));
        if i > 0 {
            let k = i - 1;
            assert(RejectFirstBroadcaster::broadcast_step(
                states[k],
                txids[k],
                states[k + 1],
                outcomes[k],
            ));
        }
    }
}

/// One call after another: the broadcaster that rejects first answers a call
/// with the id it was given exactly where a call has failed before, and
/// otherwise with the scripted rejection. Every call counts as a failed one
/// having been made.
pub proof fn law_a_call_succeeds_exactly_after_a_failed_one(
    pre: RejectFirstBroadcaster,
    txid: Txid,
    post: RejectFirstBroadcaster,
    outcome: Result<Txid, BroadcastError>,
)
    requires
        RejectFirstBroadcaster::broadcast_step(pre, txid, post, outcome),
    ensures
        outcome is Ok <==> pre.failed_once,
        outcome matches Ok(id) ==> id == txid,
        outcome matches Err(error) ==> {
            &&& error matches BroadcastError::Rejected { reason }
            &&& reason@ == "simulated pre-send rejection"@
        },
        post.failed_once,
{
}

/// What the scripted broadcasters themselves answer: a new one that rejects
/// first has not failed yet, and the other two fail in their own way, whatever
/// the transaction.
pub proof fn law_scripted_broadcasters_keep_to_their_script(
    fresh: RejectFirstBroadcaster,
    txid: Txid,
    rejected: Result<Txid, BroadcastError>,
    ambiguous: Result<Txid, BroadcastError>,
)
    requires
        call_ensures(RejectFirstBroadcaster::new, (), fresh),
        call_ensures(
            AlwaysRejectedBroadcaster::broadcast,
            (&AlwaysRejectedBroadcaster, txid),
            rejected,
        ),
        call_ensures(
            AlwaysMaybeSentBroadcaster::broadcast,
            (&AlwaysMaybeSentBroadcaster, txid),
            ambiguous,
        ),
    ensures
        !fresh.failed_once,
        rejected matches Err(BroadcastError::Rejected { reason }) && reason@
            == "simulated pre-send rejection"@,
        ambiguous matches Err(BroadcastError::MaybeSent { reason }) && reason@
            == "simulated ambiguous broadcast"@,
{
}

} // verus!
