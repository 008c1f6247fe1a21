//! A ring of two nodes.
//!
//! The membership protocols are stated node by node. This module puts two
//! nodes side by side, lets each question of one be answered by the other,
//! and shows that the two find each other: after the second has joined
//! through the first, two rounds of stabilization make each the successor and
//! the predecessor of the other, further rounds change nothing, and a lookup
//! at either node ends at the node that owns the key.

use vstd::prelude::*;
use crate::arithmetic::in_ring_range;
use crate::command::{executed, OutcomeView};
use crate::error::ErrorView;
use crate::location::LocationView;
use crate::membership::notify_target;
use crate::node::{fresh_node, NodeView};
use crate::process::{lemma_single_node_lookup, lookup_alone, LookupView};

verus! {

/// Two nodes that know of no third.
pub struct PairView {
    pub a: NodeView,
    pub b: NodeView,
}

impl PairView {
    /// The node of the pair at a location: the first where the location is
    /// its own, else the second.
    pub open spec fn at(self, location: LocationView) -> NodeView {
        if location == self.a.location {
            self.a
        } else {
            self.b
        }
    }

    /// The pair with one node replaced by its new state.
    pub open spec fn with(self, node: NodeView) -> PairView {
        if node.location == self.a.location {
            PairView { a: node, ..self }
        } else {
            PairView { b: node, ..self }
        }
    }

    /// The pair after a round of stabilization of the node at `who`: the node
    /// asks its successor for its predecessor, takes it for successor where
    /// it is closer, and notifies its successor.
    pub open spec fn stabilize(self, who: LocationView) -> PairView {
        let node = self.at(who);
        match node.successor() {
            None => self,
            Some(successor) => {
                let reported = self.at(successor).predecessor;
                let stabilized = self.with(node.stabilized(node.location, successor, reported));
                match notify_target(node.location, successor, reported) {
                    None => stabilized,
                    Some(target) => stabilized.with(
                        stabilized.at(target).notified(node.location),
                    ),
                }
            },
        }
    }

    /// The pair after one round of stabilization of each node, the first
    /// node first.
    pub open spec fn tick(self) -> PairView {
        self.stabilize(self.a.location).stabilize(self.b.location)
    }

    /// The pair after one round of stabilization of each node, the second
    /// node first.
    pub open spec fn tock(self) -> PairView {
        self.stabilize(self.b.location).stabilize(self.a.location)
    }

    /// Whether each node is the successor and the predecessor of the other.
    pub open spec fn converged(self) -> bool {
        &&& self.a.successor() == Some(self.b.location)
        &&& self.a.predecessor == Some(self.b.location)
        &&& self.b.successor() == Some(self.a.location)
        &&& self.b.predecessor == Some(self.a.location)
    }

    /// Whether every finger of both nodes is present and points at a node of
    /// the pair.
    pub open spec fn closed(self) -> bool {
        &&& forall|i: int|
            0 <= i < self.a.finger.len() ==> #[trigger] self.a.finger[i] == Some(self.a.location)
                || self.a.finger[i] == Some(self.b.location)
        &&& forall|i: int|
            0 <= i < self.b.finger.len() ==> #[trigger] self.b.finger[i] == Some(self.a.location)
                || self.b.finger[i] == Some(self.b.location)
    }

    /// The node that owns a key: the second where the key lies on the arc
    /// from the first, left out, to the second, taken in; else the first.
    pub open spec fn owner(self, key: nat) -> LocationView {
        if in_ring_range(key, self.a.location.identifier, false, self.b.location.identifier, true) {
            self.b.location
        } else {
            self.a.location
        }
    }

    /// Where a lookup stands after at most `steps` questions, each answered
    /// by the node of the pair that it is put to.
    pub open spec fn lookup(
        self,
        lookup: LookupView,
        key: nat,
        steps: nat,
    ) -> Result<LookupView, ErrorView>
        decreases steps,
    {
        match lookup.query(key) {
            None => Ok(lookup),
            Some(query) => if steps == 0 {
                Ok(lookup)
            } else {
                match executed(query.request, self.at(query.target)) {
                    Ok(OutcomeView::Reply { response }) => match lookup.advance(key, response) {
                        Ok(next) => self.lookup(next, key, (steps - 1) as nat),
                        Err(e) => Err(e),
                    },
                    Ok(_) => Err(ErrorView::UnexpectedResponse),
                    Err(e) => Err(e),
                }
            },
        }
    }
}

/// A node alone at `a`, and a node at `b` that has joined through it. The
/// lookup of the join, answered by the first node alone, names the first node
/// as the successor of the second.
pub open spec fn started(a: LocationView, b: LocationView, bits: nat) -> PairView {
    PairView { a: fresh_node(a, bits), b: fresh_node(b, bits).joined(a) }
}

/// Two nodes with different identifiers, the second joined through the
/// first, have converged after two rounds of stabilization of each, in either
/// order.
pub proof fn lemma_two_nodes_converge(a: LocationView, b: LocationView, bits: nat)
    requires
        a.identifier != b.identifier,
        bits > 0,
    ensures
        lookup_alone(
            fresh_node(a, bits),
            LookupView::Probing { current: a },
            b.identifier,
            2,
        ) == Ok::<LookupView, ErrorView>(LookupView::Done { successor: a }),
        started(a, b, bits).tick().tick().converged(),
        started(a, b, bits).tock().tock().converged(),
        started(a, b, bits).tick().tick().closed(),
        started(a, b, bits).tock().tock().closed(),
{
    lemma_single_node_lookup(fresh_node(a, bits), b.identifier);
    let start = started(a, b, bits);
    let first = start.tick();
    assert(first.a.predecessor == Some(b));
    assert(first.a.successor() == Some(a));
    assert(first.b.successor() == Some(a));
    let second = first.tick();
    assert(second.converged());
    assert(second.closed());
    let first = start.tock();
    assert(first.a.predecessor == Some(b));
    assert(first.b.successor() == Some(a));
    let second = first.tock();
    assert(second.converged());
    assert(second.closed());
}

/// Rounds of stabilization change nothing in a pair that has converged.
pub proof fn lemma_converged_pair_is_stable(pair: PairView)
    requires
        pair.converged(),
        pair.a.location.identifier != pair.b.location.identifier,
    ensures
        pair.tick() == pair,
        pair.tock() == pair,
{
    let a = pair.a.location;
    let b = pair.b.location;
    assert(pair.stabilize(a) == pair);
    assert(pair.stabilize(b) == pair);
}

/// In a pair that has converged, the closest finger of each node that
/// precedes a key is the other node where that one lies strictly between the
/// node and the key, and the node itself where it does not.
proof fn lemma_closest_in_pair(node: NodeView, other: LocationView, key: nat, n: nat)
    requires
        n <= node.finger.len(),
        node.finger.len() > 0,
        node.finger[0] == Some(other),
        forall|i: int|
            0 <= i < node.finger.len() ==> #[trigger] node.finger[i] == Some(node.location)
                || node.finger[i] == Some(other),
    ensures
        !in_ring_range(other.identifier, node.location.identifier, false, key, false)
            ==> node.closest_among(key, n) == node.location,
        in_ring_range(other.identifier, node.location.identifier, false, key, false) && n > 0
            ==> node.closest_among(key, n) == other,
    decreases n,
{
    if n > 0 {
        lemma_closest_in_pair(node, other, key, (n - 1) as nat);
        assert(node.finger[n - 1] == Some(node.location) || node.finger[n - 1] == Some(other));
    }
}

/// In a pair that has converged, a lookup of any key that starts at either
/// node ends, after at most four questions, at the node that owns the key.
pub proof fn lemma_pair_lookup(pair: PairView, key: nat)
    requires
        pair.converged(),
        pair.closed(),
        pair.a.location.identifier != pair.b.location.identifier,
    ensures
        pair.lookup(LookupView::Probing { current: pair.a.location }, key, 4) == Ok::<
            LookupView,
            ErrorView,
        >(LookupView::Done { successor: pair.owner(key) }),
        pair.lookup(LookupView::Probing { current: pair.b.location }, key, 4) == Ok::<
            LookupView,
            ErrorView,
        >(LookupView::Done { successor: pair.owner(key) }),
{
    let a = pair.a.location;
    let b = pair.b.location;
    lemma_closest_in_pair(pair.a, b, key, pair.a.finger.len());
    lemma_closest_in_pair(pair.b, a, key, pair.b.finger.len());
    reveal_with_fuel(PairView::lookup, 5);
}

} // verus!
