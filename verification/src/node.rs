//! The routing state of a virtual node.

use vstd::prelude::*;
use vstd::string::*;
use vstd::arithmetic::power::{lemma_pow_positive, pow};
use num::BigUint;
use std::sync::Arc;
use crate::arithmetic::{in_ring_range, is_in_range, power_of_two, ring_size};
use crate::config::Config;
use crate::error::{failure, Error, ErrorView};
use crate::location::{info_text, located, option_view, result_view, Location, LocationView};
use crate::number::{big_clone, big_remainder, big_sum, big_to_string, big_value};
use crate::text::{decimal_text, push_decimal};

verus! {

/// The identifier at which finger `i` of a node starts, on a ring of `bits`
/// bits: the identifier of the node, advanced by `2^i`.
pub open spec fn finger_start(identifier: nat, i: nat, bits: nat) -> nat {
    ((identifier + pow(2, i)) % (ring_size(bits) as int)) as nat
}

/// What a `Node` holds, as mathematical values.
pub struct NodeView {
    pub location: LocationView,
    pub predecessor: Option<LocationView>,
    pub finger: Seq<Option<LocationView>>,
    pub finger_start_identifier: Seq<nat>,
}

impl NodeView {
    /// The width of the ring that the node is on: the length of its finger
    /// table.
    pub open spec fn bits(self) -> nat {
        self.finger.len()
    }

    /// Whether the two tables have one entry per bit of the ring, and each
    /// finger starts where it must.
    pub open spec fn wf(self) -> bool {
        &&& self.finger_start_identifier.len() == self.finger.len()
        &&& forall|i: int|
            0 <= i < self.finger.len() ==> #[trigger] self.finger_start_identifier[i] == finger_start(
                self.location.identifier,
                i as nat,
                self.bits(),
            )
    }

    /// The successor of the node: its first finger.
    pub open spec fn successor(self) -> Option<LocationView> {
        if self.finger.len() > 0 {
            self.finger[0]
        } else {
            None
        }
    }

    /// The node with another first finger. A node without fingers stays as it
    /// is.
    pub open spec fn with_successor(self, successor: Option<LocationView>) -> NodeView {
        if self.finger.len() > 0 {
            NodeView { finger: self.finger.update(0, successor), ..self }
        } else {
            self
        }
    }

    /// The node with another predecessor.
    pub open spec fn with_predecessor(self, predecessor: Option<LocationView>) -> NodeView {
        NodeView { predecessor, ..self }
    }

    /// The node with another finger at index `n`.
    pub open spec fn with_finger(self, n: int, location: Option<LocationView>) -> NodeView {
        NodeView { finger: self.finger.update(n, location), ..self }
    }

    /// Whether finger `i` is present and lies strictly between the node and
    /// the key on the ring.
    pub open spec fn precedes(self, i: int, key: nat) -> bool {
        self.finger[i] matches Some(location) && in_ring_range(
            location.identifier,
            self.location.identifier,
            false,
            key,
            false,
        )
    }

    /// The highest of the first `n` fingers that precedes the key, or the node
    /// itself where none of them does.
    pub open spec fn closest_among(self, key: nat, n: nat) -> LocationView
        decreases n,
    {
        if n == 0 {
            self.location
        } else if self.precedes(n - 1, key) {
            self.finger[n - 1]->0
        } else {
            self.closest_among(key, (n - 1) as nat)
        }
    }

    /// The closest finger that precedes the key: the highest finger that lies
    /// strictly between the node and the key, or the node itself.
    pub open spec fn closest_preceding_finger(self, key: nat) -> LocationView {
        self.closest_among(key, self.finger.len())
    }

    /// Whether the node takes the notifier for its predecessor: it has none,
    /// or the notifier lies strictly between the predecessor and the node.
    pub open spec fn accepts(self, notifier: LocationView) -> bool {
        match self.predecessor {
            None => true,
            Some(predecessor) => in_ring_range(
                notifier.identifier,
                predecessor.identifier,
                false,
                self.location.identifier,
                false,
            ),
        }
    }

    /// The node after a notification.
    pub open spec fn notified(self, notifier: LocationView) -> NodeView {
        if self.accepts(notifier) {
            self.with_predecessor(Some(notifier))
        } else {
            self
        }
    }

    /// The lines that describe the first `n` fingers.
    pub open spec fn finger_lines(self, n: nat) -> Seq<char>
        decreases n,
    {
        if n == 0 {
            Seq::<char>::empty()
        } else {
            self.finger_lines((n - 1) as nat) + "Finger "@ + decimal_text((n - 1) as nat) + ": "@
                + info_text(self.finger[n - 1]) + "\r\n"@
        }
    }

    /// The lines that give the first `n` finger start identifiers.
    pub open spec fn start_lines(self, n: nat) -> Seq<char>
        decreases n,
    {
        if n == 0 {
            Seq::<char>::empty()
        } else {
            self.start_lines((n - 1) as nat) + "Finger "@ + decimal_text((n - 1) as nat) + ": "@
                + decimal_text(self.finger_start_identifier[n - 1]) + "\r\n"@
        }
    }

    /// The text that describes the node to a person.
    pub open spec fn info(self) -> Seq<char> {
        "\r\n"@ + "Predecessor: "@ + info_text(self.predecessor) + "\r\n"@ + "Successor: "@
            + info_text(self.successor()) + "\r\n"@ + "The finger list len is: "@ + decimal_text(
            self.finger.len(),
        ) + "\r\n"@ + self.finger_lines(self.finger.len())
            + "The finger start identifier list len is: "@ + decimal_text(
            self.finger_start_identifier.len(),
        ) + "\r\n"@ + self.start_lines(self.finger_start_identifier.len())
    }
}

/// A node that knows no peer, on a ring of `bits` bits: it is its own
/// predecessor and every finger points at itself.
pub open spec fn fresh_node(location: LocationView, bits: nat) -> NodeView {
    NodeView {
        location,
        predecessor: Some(location),
        finger: Seq::new(bits, |i: int| Some(location)),
        finger_start_identifier: Seq::new(
            bits,
            |i: int| finger_start(location.identifier, i as nat, bits),
        ),
    }
}

/// The routing state of one virtual node: its own location, its predecessor,
/// its fingers, and the identifier at which each finger starts. The first
/// finger is the successor.
#[derive(Debug)]
pub struct Node {
    location: Location,
    predecessor: Option<Location>,
    finger: Vec<Option<Location>>,
    finger_start_identifier: Vec<BigUint>,
}

impl View for Node {
    type V = NodeView;

    closed spec fn view(&self) -> NodeView {
        NodeView {
            location: self.location@,
            predecessor: option_view(self.predecessor),
            finger: Seq::new(self.finger@.len(), |i: int| option_view(self.finger@[i])),
            finger_start_identifier: Seq::new(
                self.finger_start_identifier@.len(),
                |i: int| big_value(self.finger_start_identifier@[i]),
            ),
        }
    }
}

impl Node {
    /// A node that knows no peer yet, for one virtual node of this process.
    pub fn new(config: Arc<Config>, virtual_node_id: u8) -> (node: Self)
        ensures
            node@ == fresh_node(
                located(config.id_bits as nat, config.host@, config.port, virtual_node_id),
                config.id_bits as nat,
            ),
            node@.wf(),
    {
        let bits = config.id_bits;
        let location = Location::new(config, virtual_node_id);
        let predecessor = Some(location.clone());

        let divisor = power_of_two(bits as u32);

        let mut finger: Vec<Option<Location>> = Vec::new();
        let mut finger_start_identifier: Vec<BigUint> = Vec::new();
        let mut i: u8 = 0;
        while i < bits
            invariant
                i <= bits,
                big_value(divisor) == ring_size(bits as nat),
                big_value(divisor) > 0,
                finger@.len() == i,
                finger_start_identifier@.len() == i,
                forall|j: int| 0 <= j < i ==> option_view(#[trigger] finger@[j]) == Some(location@),
                forall|j: int|
                    0 <= j < i ==> big_value(#[trigger] finger_start_identifier@[j]) == finger_start(
                        location@.identifier,
                        j as nat,
                        bits as nat,
                    ),
            decreases bits - i,
        {
            finger.push(Some(location.clone()));
            let step = power_of_two(i as u32);
            let advanced = big_sum(&location.identifier, &step);
            let start_index = big_remainder(&advanced, &divisor);
            finger_start_identifier.push(start_index);
            i += 1;
        }

        let node = Self { location, predecessor, finger, finger_start_identifier };
        assert(node@.finger =~= fresh_node(node@.location, bits as nat).finger);
        assert(node@.finger_start_identifier =~= fresh_node(
            node@.location,
            bits as nat,
        ).finger_start_identifier);
        node
    }

    /// The location of the node itself.
    pub fn own_location(&self) -> (location: Location)
        ensures
            location@ == self@.location,
    {
        self.location.clone()
    }

    /// The successor of the node, or an error where it knows none.
    pub fn get_successor(&self) -> (r: Result<Location, Error>)
        ensures
            result_view(r) == match self@.successor() {
                Some(location) => Ok::<LocationView, ErrorView>(location),
                None => Err(ErrorView::MissingState),
            },
    {
        if self.finger.len() == 0 {
            return Err(Error::MissingState);
        }
        Location::option_to_result(&self.finger[0])
    }

    /// Replaces the successor of the node. A node without fingers has no
    /// place for one and stays as it is.
    pub fn set_successor(&mut self, successor: Option<Location>)
        ensures
            final(self)@ == old(self)@.with_successor(option_view(successor)),
    {
        if self.finger.len() > 0 {
            self.finger.set(0, successor);
            assert(final(self)@.finger =~= old(self)@.finger.update(0, option_view(successor)));
        }
    }

    /// The predecessor of the node, if it knows one.
    pub fn get_predecessor(&self) -> (predecessor: Option<Location>)
        ensures
            option_view(predecessor) == self@.predecessor,
    {
        match &self.predecessor {
            Some(location) => Some(location.clone()),
            None => None,
        }
    }

    /// Replaces the predecessor of the node.
    pub fn set_predecessor(&mut self, predecessor: Option<Location>)
        ensures
            final(self)@ == old(self)@.with_predecessor(option_view(predecessor)),
    {
        self.predecessor = predecessor;
    }

    /// The finger at index `n`.
    pub fn get_finger(&self, n: usize) -> (r: Result<Location, Error>)
        ensures
            result_view(r) == if n >= self@.finger.len() {
                Err::<LocationView, ErrorView>(ErrorView::IndexOverflow)
            } else {
                match self@.finger[n as int] {
                    Some(location) => Ok(location),
                    None => Err(ErrorView::MissingState),
                }
            },
    {
        match validate_index(&self.finger, n) {
            Ok(()) => {},
            Err(e) => {
                return Err(e);
            },
        }
        Location::option_to_result(&self.finger[n])
    }

    /// Replaces the finger at index `n`. An index past the table is an error
    /// and leaves the node as it is.
    pub fn set_finger(&mut self, n: usize, location: Option<Location>) -> (r: Result<(), Error>)
        ensures
            n < old(self)@.finger.len() ==> failure(r) == Ok::<(), ErrorView>(())
                && final(self)@ == old(self)@.with_finger(n as int, option_view(location)),
            n >= old(self)@.finger.len() ==> failure(r) == Err::<(), ErrorView>(ErrorView::IndexOverflow)
                && final(self)@ == old(self)@,
    {
        match validate_index(&self.finger, n) {
            Ok(()) => {},
            Err(e) => {
                return Err(e);
            },
        }
        self.finger.set(n, location);
        assert(final(self)@.finger =~= old(self)@.finger.update(n as int, option_view(location)));
        Ok(())
    }

    /// The number of fingers.
    pub fn get_finger_len(&self) -> (len: usize)
        ensures
            len == self@.finger.len(),
    {
        self.finger.len()
    }

    /// The identifier at which finger `n` starts.
    pub fn get_finger_start_identifier(&self, n: usize) -> (r: Result<BigUint, Error>)
        ensures
            match r {
                Ok(identifier) => n < self@.finger_start_identifier.len() && big_value(identifier)
                    == self@.finger_start_identifier[n as int],
                Err(e) => n >= self@.finger_start_identifier.len() && e@ == ErrorView::IndexOverflow,
            },
    {
        match validate_index(&self.finger_start_identifier, n) {
            Ok(()) => {},
            Err(e) => {
                return Err(e);
            },
        }
        Ok(big_clone(&self.finger_start_identifier[n]))
    }

    /// The text that describes the node to a person.
    pub fn get_info(&self) -> (info: String)
        ensures
            info@ == self@.info(),
    {
        let mut info = String::from_str("\r\n");
        info.append("Predecessor: ");
        info.append(Location::print_info_from_option(&self.predecessor).as_str());
        info.append("\r\n");

        info.append("Successor: ");
        if self.finger.len() > 0 {
            info.append(Location::print_info_from_option(&self.finger[0]).as_str());
        } else {
            info.append("None");
        }
        info.append("\r\n");

        info.append("The finger list len is: ");
        push_decimal(&mut info, self.finger.len() as u64);
        info.append("\r\n");
        let ghost head = info@;
        let mut i: usize = 0;
        while i < self.finger.len()
            invariant
                i <= self.finger.len(),
                info@ == head + self@.finger_lines(i as nat),
            decreases self.finger.len() - i,
        {
            let ghost before = info@;
            info.append("Finger ");
            push_decimal(&mut info, i as u64);
            info.append(": ");
            info.append(Location::print_info_from_option(&self.finger[i]).as_str());
            info.append("\r\n");
            i += 1;
            assert(info@ =~= head + self@.finger_lines(i as nat));
        }

        info.append("The finger start identifier list len is: ");
        push_decimal(&mut info, self.finger_start_identifier.len() as u64);
        info.append("\r\n");
        let ghost head = info@;
        let mut i: usize = 0;
        while i < self.finger_start_identifier.len()
            invariant
                i <= self.finger_start_identifier.len(),
                info@ == head + self@.start_lines(i as nat),
            decreases self.finger_start_identifier.len() - i,
        {
            info.append("Finger ");
            push_decimal(&mut info, i as u64);
            info.append(": ");
            info.append(big_to_string(&self.finger_start_identifier[i]).as_str());
            info.append("\r\n");
            i += 1;
            assert(info@ =~= head + self@.start_lines(i as nat));
        }
        assert(info@ =~= self@.info());
        info
    }

    /// The closest finger that precedes a key: the highest finger whose
    /// identifier lies strictly between the node and the key on the ring, or
    /// the node itself where there is none. An absent finger is passed over.
    pub fn closest_preceding_finger(&self, key: BigUint) -> (r: Result<Location, Error>)
        ensures
            result_view(r) == Ok::<LocationView, ErrorView>(
                self@.closest_preceding_finger(big_value(key)),
            ),
    {
        let mut i: usize = self.finger.len();
        while i > 0
            invariant
                i <= self.finger.len(),
                self@.closest_preceding_finger(big_value(key)) == self@.closest_among(
                    big_value(key),
                    i as nat,
                ),
            decreases i,
        {
            i -= 1;
            match &self.finger[i] {
                Some(location) => {
                    if is_in_range(
                        &location.identifier,
                        (&self.location.identifier, false),
                        (&key, false),
                    ) {
                        return Ok(location.clone());
                    }
                },
                None => {},
            }
        }
        Ok(self.location.clone())
    }

    /// Handles a notification: takes the notifier for the predecessor where
    /// the node has none, or where the notifier lies strictly between the
    /// predecessor and the node on the ring.
    pub fn notify_with(&mut self, notifier: &Location)
        ensures
            final(self)@ == old(self)@.notified(notifier@),
    {
        let flag = match &self.predecessor {
            Some(predecessor) => is_in_range(
                &notifier.identifier,
                (&predecessor.identifier, false),
                (&self.location.identifier, false),
            ),
            None => true,
        };
        if flag {
            self.predecessor = Some(notifier.clone());
        }
    }
}

/// The virtual nodes of one process, in the order of their ids.
#[derive(Debug)]
pub struct NodeList {
    pub node_list: Vec<Node>,
}

impl NodeList {
    /// One fresh node for each virtual node of the configuration.
    pub fn new(config: Arc<Config>) -> (list: Self)
        ensures
            list.node_list@.len() == config.virtual_node_number,
            forall|i: int|
                0 <= i < list.node_list@.len() ==> (#[trigger] list.node_list@[i])@ == fresh_node(
                    located(config.id_bits as nat, config.host@, config.port, i as u8),
                    config.id_bits as nat,
                ),
    {
        let mut node_list: Vec<Node> = Vec::new();
        let mut i: u8 = 0;
        while i < config.virtual_node_number
            invariant
                i <= config.virtual_node_number,
                node_list@.len() == i,
                forall|j: int|
                    0 <= j < node_list@.len() ==> (#[trigger] node_list@[j])@ == fresh_node(
                        located(config.id_bits as nat, config.host@, config.port, j as u8),
                        config.id_bits as nat,
                    ),
            decreases config.virtual_node_number - i,
        {
            let node = Node::new(config.clone(), i);
            node_list.push(node);
            i += 1;
        }
        Self { node_list }
    }
}

/// Tells whether `n` is an index into the vector.
pub fn validate_index<T>(vec: &Vec<T>, n: usize) -> (r: Result<(), Error>)
    ensures
        failure(r) == if n >= vec.len() {
            Err::<(), ErrorView>(ErrorView::IndexOverflow)
        } else {
            Ok(())
        },
{
    if n >= vec.len() {
        return Err(Error::IndexOverflow);
    }
    Ok(())
}

/// A fresh node has one finger and one finger start for each bit of the
/// ring, and finger `i` starts at the identifier of the node advanced by
/// `2^i`, modulo the size of the ring.
pub proof fn lemma_fresh_node_finger_starts(location: LocationView, bits: nat)
    ensures
        fresh_node(location, bits).wf(),
        fresh_node(location, bits).finger.len() == bits,
        fresh_node(location, bits).finger_start_identifier.len() == bits,
        forall|i: int|
            0 <= i < bits ==> #[trigger] fresh_node(location, bits).finger_start_identifier[i] == ((
            location.identifier + pow(2, i as nat)) % pow(2, bits)),
{
    lemma_pow_positive(2, bits);
}

/// Replacing a pointer of a node moves no finger start: a node that is well
/// formed stays so under every setter, under a notification, and under the
/// installation of a finger.
pub proof fn lemma_setters_keep_wf(
    node: NodeView,
    location: Option<LocationView>,
    notifier: LocationView,
    n: int,
)
    requires
        node.wf(),
    ensures
        node.with_successor(location).wf(),
        node.with_predecessor(location).wf(),
        node.notified(notifier).wf(),
        0 <= n < node.finger.len() ==> node.with_finger(n, location).wf(),
{
}

/// A second notification by the same node changes nothing.
pub proof fn lemma_notify_idempotent(node: NodeView, notifier: LocationView)
    ensures
        node.notified(notifier).notified(notifier) == node.notified(notifier),
{
}

/// The closest preceding finger is the node itself or one of its fingers
/// that precedes the key, and no higher finger precedes the key.
pub proof fn lemma_closest_preceding_finger(node: NodeView, key: nat)
    ensures
        (forall|i: int| 0 <= i < node.finger.len() ==> !node.precedes(i, key))
            ==> node.closest_preceding_finger(key) == node.location,
        (exists|i: int| 0 <= i < node.finger.len() && node.precedes(i, key)) ==> exists|i: int|
            0 <= i < node.finger.len() && #[trigger] node.precedes(i, key)
                && node.closest_preceding_finger(key) == node.finger[i]->0 && forall|j: int|
                i < j < node.finger.len() ==> !node.precedes(j, key),
{
    lemma_closest_among(node, key, node.finger.len());
}

/// The statement of `lemma_closest_preceding_finger` for the first `n`
/// fingers.
proof fn lemma_closest_among(node: NodeView, key: nat, n: nat)
    requires
        n <= node.finger.len(),
    ensures
        (forall|i: int| 0 <= i < n ==> !node.precedes(i, key)) ==> node.closest_among(key, n)
            == node.location,
        (exists|i: int| 0 <= i < n && node.precedes(i, key)) ==> exists|i: int|
            0 <= i < n && #[trigger] node.precedes(i, key) && node.closest_among(key, n)
                == node.finger[i]->0 && forall|j: int| i < j < n ==> !node.precedes(j, key),
    decreases n,
{
    if n > 0 {
        lemma_closest_among(node, key, (n - 1) as nat);
        if node.precedes(n - 1, key) {
        } else {
            if exists|i: int| 0 <= i < n && node.precedes(i, key) {
                let i = choose|i: int| 0 <= i < n && node.precedes(i, key);
                assert(0 <= i < n - 1 && node.precedes(i, key));
            }
        }
    }
}

} // verus!
