//! Membership: joining a ring and keeping the pointers of a node right while
//! peers come and go.
//!
//! Each protocol reads a snapshot of the node, asks peers, and installs what
//! it learned. The reading and the installing are here; the asking is a
//! lookup or a single question of `process`, which the caller carries out
//! without holding the node.

use vstd::prelude::*;
use num::BigUint;
use rand::rngs::{OsRng, StdRng};
use rand::{Rng, SeedableRng};
use crate::arithmetic::{in_ring_range, is_in_range};
use crate::command::{Request, RequestView, Response, ResponseView};
use crate::error::{failure, Error, ErrorView};
use crate::location::{option_view, Location, LocationView};
use crate::node::{Node, NodeView};
use crate::number::big_value;
use crate::process::{Query, QueryView};

verus! {

/// `rand::rngs::StdRng`, a random number generator. Nothing inside it is
/// visible here.
#[verifier::external_type_specification]
#[verifier::external_body]
pub struct ExStdRng(StdRng);

/// `StdRng::from_rng` makes a generator with a seed that it draws from
/// another one, here from `OsRng`, the generator of the operating system. It
/// gives an error, and here `None`, where the operating system gives no seed.
#[verifier::external_body]
pub(crate) fn seeded_generator() -> Option<StdRng> {
    StdRng::from_rng(OsRng).ok()
}

/// `Rng::gen_range` draws a number of the half-open range, which must not be
/// empty. Which number comes is not stated.
#[verifier::external_body]
pub(crate) fn random_between(generator: &mut StdRng, low: usize, high: usize) -> (n: usize)
    requires
        low < high,
    ensures
        low <= n < high,
{
    generator.gen_range(low..high)
}

impl NodeView {
    /// The node after it joined a ring through a peer that named
    /// `successor`: it knows no predecessor, and its first finger is the
    /// successor. The other fingers stay.
    pub open spec fn joined(self, successor: LocationView) -> NodeView {
        self.with_predecessor(None).with_successor(Some(successor))
    }

    /// The node after a round of stabilization in which its successor
    /// reported `reported` as its predecessor. A successor without a
    /// predecessor changes nothing. A reported node that lies strictly
    /// between `local` and `successor` becomes the first finger.
    pub open spec fn stabilized(
        self,
        local: LocationView,
        successor: LocationView,
        reported: Option<LocationView>,
    ) -> NodeView {
        if reported is Some && closer(local, successor, reported->0) {
            self.with_successor(reported)
        } else {
            self
        }
    }
}

/// Whether `between` lies strictly between `local` and `successor` on the
/// ring, and so is a closer successor of `local`.
pub open spec fn closer(local: LocationView, successor: LocationView, between: LocationView) -> bool {
    in_ring_range(between.identifier, local.identifier, false, successor.identifier, false)
}

/// The node to notify at the end of a round of stabilization: none where the
/// successor reported no predecessor; else the reported node where it is
/// closer, and the successor where it is not.
pub open spec fn notify_target(
    local: LocationView,
    successor: LocationView,
    reported: Option<LocationView>,
) -> Option<LocationView> {
    match reported {
        None => None,
        Some(between) => if closer(local, successor, between) {
            Some(between)
        } else {
            Some(successor)
        },
    }
}

/// The question that tells `target` that `local` may be its predecessor.
pub open spec fn notify_query(local: LocationView, target: LocationView) -> QueryView {
    QueryView {
        target,
        request: RequestView::Notify { virtual_node_id: target.virtual_node_id, notifier: local },
    }
}

/// Installs the result of a join: the node forgets its predecessor and takes
/// `successor`, the successor of its own identifier as a peer in the ring
/// found it, for its successor.
pub fn join(node: &mut Node, successor: Location)
    ensures
        final(node)@ == old(node)@.joined(successor@),
{
    node.set_predecessor(None);
    node.set_successor(Some(successor));
}

/// Reads what a round of stabilization works on: the successor of the node
/// and the location of the node itself. A node without a successor cannot
/// stabilize.
pub fn stabilize_snapshot(node: &Node) -> (r: Result<(Location, Location), Error>)
    ensures
        match r {
            Ok((successor, local)) => node@.successor() == Some(successor@) && local@
                == node@.location,
            Err(e) => node@.successor() is None && e@ == ErrorView::MissingState,
        },
{
    let successor = node.get_successor()?;
    Ok((successor, node.own_location()))
}

/// Finishes a round of stabilization with what the successor reported as its
/// predecessor. Returns the node to notify next, if any.
pub fn stablize(
    node: &mut Node,
    local_location: &Location,
    successor: Location,
    reported: Option<Location>,
) -> (target: Option<Location>)
    ensures
        final(node)@ == old(node)@.stabilized(local_location@, successor@, option_view(reported)),
        option_view(target) == notify_target(local_location@, successor@, option_view(reported)),
{
    let predecessor_of_successor = match reported {
        Some(location) => location,
        None => {
            return None;
        },
    };
    if is_in_range(
        &predecessor_of_successor.identifier,
        (&local_location.identifier, false),
        (&successor.identifier, false),
    ) {
        node.set_successor(Some(predecessor_of_successor.clone()));
        Some(predecessor_of_successor)
    } else {
        Some(successor)
    }
}

/// Tells `target_location` that `local_location` may be its predecessor.
pub fn notify(local_location: Location, target_location: Location) -> (query: Query)
    ensures
        query@ == notify_query(local_location@, target_location@),
{
    let virtual_node_id = target_location.virtual_node_id;
    Query {
        target: target_location,
        request: Request::Notify { virtual_node_id, notifier: local_location },
    }
}

/// Checks the answer to `notify`.
pub fn expect_notified(response: &Response) -> (r: Result<(), Error>)
    ensures
        failure(r) == match response@ {
            ResponseView::Notify => Ok::<(), ErrorView>(()),
            _ => Err(ErrorView::UnexpectedResponse),
        },
{
    match response {
        Response::Notify => Ok(()),
        _ => Err(Error::UnexpectedResponse),
    }
}

/// Reads what the repair of finger `index` works on: the identifier at which
/// the finger starts, and the location of the node itself, from which the
/// successor of that identifier is looked up. The first finger is the
/// successor, which stabilization keeps, so index 0 is refused, as is an index
/// past the table.
pub fn finger_to_fix(node: &Node, index: usize) -> (r: Result<(BigUint, Location), Error>)
    ensures
        match r {
            Ok((start, local)) => 1 <= index < node@.finger_start_identifier.len() && big_value(start)
                == node@.finger_start_identifier[index as int] && local@ == node@.location,
            Err(e) => !(1 <= index < node@.finger_start_identifier.len()) && e@
                == ErrorView::IndexOverflow,
        },
{
    if index == 0 {
        return Err(Error::IndexOverflow);
    }
    let start_identifier = node.get_finger_start_identifier(index)?;
    Ok((start_identifier, node.own_location()))
}

/// Picks at random a finger to repair, never the first, and reads what the
/// repair works on. A node with fewer than two fingers has none to repair,
/// and without a seed from the operating system nothing is picked.
pub fn pick_finger(node: &Node) -> (r: Result<(usize, BigUint, Location), Error>)
    ensures
        match r {
            Ok((index, start, local)) => 1 <= index < node@.finger.len() && index
                < node@.finger_start_identifier.len() && big_value(start)
                == node@.finger_start_identifier[index as int] && local@ == node@.location,
            Err(e) => (e@ == ErrorView::IndexOverflow && (node@.finger.len() < 2
                || node@.finger_start_identifier.len() < node@.finger.len())) || (e@
                == ErrorView::NoEntropy && node@.finger.len() >= 2),
        },
{
    let len = node.get_finger_len();
    if len < 2 {
        return Err(Error::IndexOverflow);
    }
    let mut generator = match seeded_generator() {
        Some(generator) => generator,
        None => {
            return Err(Error::NoEntropy);
        },
    };
    let index = random_between(&mut generator, 1, len);
    let (start_identifier, local_location) = finger_to_fix(node, index)?;
    Ok((index, start_identifier, local_location))
}

/// Installs the repair of a finger: finger `index` becomes `successor`, the
/// successor of the identifier at which the finger starts.
pub fn fix_fingers(node: &mut Node, index: usize, successor: Location) -> (r: Result<(), Error>)
    ensures
        index < old(node)@.finger.len() ==> failure(r) == Ok::<(), ErrorView>(())
            && final(node)@ == old(node)@.with_finger(index as int, Some(successor@)),
        index >= old(node)@.finger.len() ==> failure(r) == Err::<(), ErrorView>(ErrorView::IndexOverflow)
            && final(node)@ == old(node)@,
{
    node.set_finger(index, Some(successor))
}

} // verus!
