//! Routing: finding the successor of a key by asking peers.
//!
//! A lookup alternates questions to peers and decisions on their answers.
//! The decisions are here, as a state machine: `Lookup::query` says what to
//! ask next and whom, and `Lookup::advance` takes the answer. Sending the
//! question and waiting for the answer is left to the caller.

use vstd::prelude::*;
use num::BigUint;
use crate::arithmetic::{in_ring_range, is_in_range};
use crate::command::{executed, OutcomeView, Request, RequestView, Response, ResponseView};
use crate::config::Config;
use crate::error::{Error, ErrorView};
use crate::location::{option_view, result_view, Location, LocationView};
use crate::node::NodeView;
use crate::number::{big_clone, big_value};

verus! {

/// A question and the peer to put it to.
#[derive(Debug)]
pub struct Query {
    pub target: Location,
    pub request: Request,
}

/// What a `Query` holds, as mathematical values.
pub struct QueryView {
    pub target: LocationView,
    pub request: RequestView,
}

impl View for Query {
    type V = QueryView;

    open spec fn view(&self) -> QueryView {
        QueryView { target: self.target@, request: self.request@ }
    }
}

/// Where a lookup stands.
#[derive(Debug)]
pub enum Lookup {
    /// The successor of `current` is being asked for, to see whether the key
    /// lies between the two.
    Probing { current: Location },
    /// The key lies further on: `current` is being asked for its closest
    /// finger that precedes the key.
    Advancing { current: Location },
    /// The predecessor of the key is found and is being asked for its
    /// successor.
    Finishing { predecessor: Location },
    /// The successor of the key is known.
    Done { successor: Location },
}

/// What a `Lookup` holds, as mathematical values.
pub enum LookupView {
    Probing { current: LocationView },
    Advancing { current: LocationView },
    Finishing { predecessor: LocationView },
    Done { successor: LocationView },
}

impl View for Lookup {
    type V = LookupView;

    open spec fn view(&self) -> LookupView {
        match *self {
            Lookup::Probing { current } => LookupView::Probing { current: current@ },
            Lookup::Advancing { current } => LookupView::Advancing { current: current@ },
            Lookup::Finishing { predecessor } => LookupView::Finishing { predecessor: predecessor@ },
            Lookup::Done { successor } => LookupView::Done { successor: successor@ },
        }
    }
}

/// The view of a lookup or an error.
pub open spec fn lookup_result(r: Result<Lookup, Error>) -> Result<LookupView, ErrorView> {
    match r {
        Ok(lookup) => Ok(lookup@),
        Err(e) => Err(e@),
    }
}

/// The view of a query that may be absent.
pub open spec fn query_view(query: Option<Query>) -> Option<QueryView> {
    match query {
        Some(query) => Some(query@),
        None => None,
    }
}

/// The question that asks a node for its successor.
pub open spec fn successor_query(location: LocationView) -> QueryView {
    QueryView {
        target: location,
        request: RequestView::GetSuccessor { virtual_node_id: location.virtual_node_id },
    }
}

/// The question that asks a node for its predecessor.
pub open spec fn predecessor_query(location: LocationView) -> QueryView {
    QueryView {
        target: location,
        request: RequestView::GetPredecessor { virtual_node_id: location.virtual_node_id },
    }
}

/// The question that asks a node for its closest finger that precedes a key.
pub open spec fn closest_preceding_finger_query(location: LocationView, key: nat) -> QueryView {
    QueryView {
        target: location,
        request: RequestView::ClosestPrecedingFinger {
            virtual_node_id: location.virtual_node_id,
            key,
        },
    }
}

impl LookupView {
    /// The question that the lookup waits for an answer to, if it is not
    /// done.
    pub open spec fn query(self, key: nat) -> Option<QueryView> {
        match self {
            LookupView::Probing { current } => Some(successor_query(current)),
            LookupView::Advancing { current } => Some(closest_preceding_finger_query(current, key)),
            LookupView::Finishing { predecessor } => Some(successor_query(predecessor)),
            LookupView::Done { .. } => None,
        }
    }

    /// The lookup after an answer. The key belongs to `current` once it lies
    /// on the arc from `current`, left out, to its successor, taken in; until
    /// then the lookup moves on to the closest preceding finger of `current`.
    /// An answer of another kind than the question is an error.
    pub open spec fn advance(self, key: nat, response: ResponseView) -> Result<LookupView, ErrorView> {
        match (self, response) {
            (LookupView::Probing { current }, ResponseView::GetSuccessor { location }) => if in_ring_range(
                key,
                current.identifier,
                false,
                location.identifier,
                true,
            ) {
                Ok(LookupView::Finishing { predecessor: current })
            } else {
                Ok(LookupView::Advancing { current })
            },
            (
                LookupView::Advancing { current },
                ResponseView::ClosestPrecedingFinger { location },
            ) => Ok(LookupView::Probing { current: location }),
            (LookupView::Finishing { predecessor }, ResponseView::GetSuccessor { location }) => Ok(
                LookupView::Done { successor: location },
            ),
            _ => Err(ErrorView::UnexpectedResponse),
        }
    }

    /// The successor of the key, once the lookup is done.
    pub open spec fn successor(self) -> Option<LocationView> {
        match self {
            LookupView::Done { successor } => Some(successor),
            _ => None,
        }
    }
}

/// Asks a node for its successor.
pub fn get_successor(location: &Location) -> (query: Query)
    ensures
        query@ == successor_query(location@),
{
    Query {
        target: location.clone(),
        request: Request::GetSuccessor { virtual_node_id: location.virtual_node_id },
    }
}

/// Asks a node for its predecessor.
pub fn get_predecessor(location: &Location) -> (query: Query)
    ensures
        query@ == predecessor_query(location@),
{
    Query {
        target: location.clone(),
        request: Request::GetPredecessor { virtual_node_id: location.virtual_node_id },
    }
}

/// Asks a node for its closest finger that precedes a key.
pub fn find_closest_preceding_finger(location: &Location, key: &BigUint) -> (query: Query)
    ensures
        query@ == closest_preceding_finger_query(location@, big_value(*key)),
{
    Query {
        target: location.clone(),
        request: Request::ClosestPrecedingFinger {
            virtual_node_id: location.virtual_node_id,
            key: big_clone(key),
        },
    }
}

/// Takes the successor out of the answer to `get_successor`.
pub fn expect_successor(response: Response) -> (r: Result<Location, Error>)
    ensures
        result_view(r) == match response@ {
            ResponseView::GetSuccessor { location } => Ok::<LocationView, ErrorView>(location),
            _ => Err(ErrorView::UnexpectedResponse),
        },
{
    match response {
        Response::GetSuccessor { location } => Ok(location),
        _ => Err(Error::UnexpectedResponse),
    }
}

/// Takes the predecessor, which may be absent, out of the answer to
/// `get_predecessor`.
pub fn expect_predecessor(response: Response) -> (r: Result<Option<Location>, Error>)
    ensures
        match response@ {
            ResponseView::GetPredecessor { location } => r matches Ok(found) && option_view(found)
                == location,
            _ => r matches Err(e) && e@ == ErrorView::UnexpectedResponse,
        },
{
    match response {
        Response::GetPredecessor { location } => Ok(location),
        _ => Err(Error::UnexpectedResponse),
    }
}

/// Takes the finger out of the answer to `find_closest_preceding_finger`.
pub fn expect_closest_preceding_finger(response: Response) -> (r: Result<Location, Error>)
    ensures
        result_view(r) == match response@ {
            ResponseView::ClosestPrecedingFinger { location } => Ok::<LocationView, ErrorView>(location),
            _ => Err(ErrorView::UnexpectedResponse),
        },
{
    match response {
        Response::ClosestPrecedingFinger { location } => Ok(location),
        _ => Err(Error::UnexpectedResponse),
    }
}

/// Begins the search for the successor of a key, starting at `location`.
pub fn find_successor(location: &Location) -> (lookup: Lookup)
    ensures
        lookup@ == (LookupView::Probing { current: location@ }),
{
    Lookup::Probing { current: location.clone() }
}

impl Lookup {
    /// The question to put next, and to whom; `None` once the lookup is done.
    pub fn query(&self, key: &BigUint) -> (query: Option<Query>)
        ensures
            query_view(query) == self@.query(big_value(*key)),
    {
        match self {
            Lookup::Probing { current } => Some(get_successor(current)),
            Lookup::Advancing { current } => Some(find_closest_preceding_finger(current, key)),
            Lookup::Finishing { predecessor } => Some(get_successor(predecessor)),
            Lookup::Done { .. } => None,
        }
    }

    /// Takes the answer to the question and moves the lookup on.
    pub fn advance(self, key: &BigUint, response: Response) -> (r: Result<Lookup, Error>)
        ensures
            lookup_result(r) == self@.advance(big_value(*key), response@),
    {
        match self {
            Lookup::Probing { current } => {
                let successor = expect_successor(response)?;
                if is_in_range(key, (&current.identifier, false), (&successor.identifier, true)) {
                    Ok(Lookup::Finishing { predecessor: current })
                } else {
                    Ok(Lookup::Advancing { current })
                }
            },
            Lookup::Advancing { current } => {
                let location = expect_closest_preceding_finger(response)?;
                Ok(Lookup::Probing { current: location })
            },
            Lookup::Finishing { predecessor } => {
                let successor = expect_successor(response)?;
                Ok(Lookup::Done { successor })
            },
            Lookup::Done { .. } => Err(Error::UnexpectedResponse),
        }
    }

    /// The successor of the key, once the lookup is done.
    pub fn successor(&self) -> (found: Option<Location>)
        ensures
            option_view(found) == self@.successor(),
    {
        match self {
            Lookup::Done { successor } => Some(successor.clone()),
            _ => None,
        }
    }
}

/// Tells whether a location is one of the virtual nodes of this process, so
/// that a question to it needs no connection.
pub fn is_local(location: &Location, config: &Config) -> (local: bool)
    ensures
        local == (location@.ip == config.host@ && location.port == config.port
            && location.virtual_node_id < config.virtual_node_number),
{
    location.ip == config.host && location.port == config.port && location.virtual_node_id
        < config.virtual_node_number
}

/// Where a lookup stands after at most `steps` questions, when every question
/// is put to the one node `node` and answered from its state.
pub open spec fn lookup_alone(
    node: NodeView,
    lookup: LookupView,
    key: nat,
    steps: nat,
) -> Result<LookupView, ErrorView>
    decreases steps,
{
    match lookup.query(key) {
        None => Ok(lookup),
        Some(query) => if steps == 0 {
            Ok(lookup)
        } else {
            match executed(query.request, node) {
                Ok(OutcomeView::Reply { response }) => match lookup.advance(key, response) {
                    Ok(next) => lookup_alone(node, next, key, (steps - 1) as nat),
                    Err(e) => Err(e),
                },
                Ok(_) => Err(ErrorView::UnexpectedResponse),
                Err(e) => Err(e),
            }
        },
    }
}

/// In a ring of one node, a lookup of any key that starts at the node puts
/// its questions to the node itself and ends, after two of them, at the node.
pub proof fn lemma_single_node_lookup(node: NodeView, key: nat)
    requires
        node.successor() == Some(node.location),
    ensures
        (LookupView::Probing { current: node.location }).query(key)->0.target == node.location,
        (LookupView::Finishing { predecessor: node.location }).query(key)->0.target
            == node.location,
        lookup_alone(node, LookupView::Probing { current: node.location }, key, 1) == Ok::<
            LookupView,
            ErrorView,
        >(LookupView::Finishing { predecessor: node.location }),
        lookup_alone(node, LookupView::Probing { current: node.location }, key, 2) == Ok::<
            LookupView,
            ErrorView,
        >(LookupView::Done { successor: node.location }),
{
    reveal_with_fuel(lookup_alone, 3);
}

} // verus!
