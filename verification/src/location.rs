//! The location of a virtual node: where to reach it and where it sits on the
//! ring.

use vstd::prelude::*;
use vstd::string::*;
use num::BigUint;
use std::sync::Arc;
use crate::arithmetic::{compute_identifier, ring_identifier};
use crate::config::Config;
use crate::error::{Error, ErrorView};
use crate::number::{big_clone, big_to_string, big_value};
use crate::text::{decimal_text, has_char, is_digit, lemma_decimal_text, lemma_digits_lack, lemma_split_three, lemma_unsigned_value_of_decimal_text, parse_unsigned, push_char, push_decimal, split, split_text, texts, unsigned_value};

verus! {

/// The address of a virtual node and its identifier on the ring.
#[derive(Debug)]
pub struct Location {
    pub ip: String,
    pub port: u16,
    pub virtual_node_id: u8,
    pub identifier: BigUint,
}

/// What a `Location` holds, as mathematical values.
pub struct LocationView {
    pub ip: Seq<char>,
    pub port: u16,
    pub virtual_node_id: u8,
    pub identifier: nat,
}

/// The canonical text of an address: `ip:port:virtual_node_id`.
pub open spec fn location_text(ip: Seq<char>, port: u16, virtual_node_id: u8) -> Seq<char> {
    ip.push(':') + decimal_text(port as nat) + seq![':'] + decimal_text(virtual_node_id as nat)
}

/// The location of an address on a ring of `bits` bits. Its identifier is
/// the identifier of the canonical text of the address.
pub open spec fn located(bits: nat, ip: Seq<char>, port: u16, virtual_node_id: u8) -> LocationView {
    LocationView {
        ip,
        port,
        virtual_node_id,
        identifier: ring_identifier(bits, location_text(ip, port, virtual_node_id)),
    }
}

/// The location that a text spells on a ring of `bits` bits. The text is
/// `ip:port` or `ip:port:virtual_node_id`; without the third field the virtual
/// node is 0.
pub open spec fn parse_location(s: Seq<char>, bits: nat) -> Result<LocationView, ErrorView> {
    let fields = split_text(s, ':');
    if fields.len() < 2 || fields.len() > 3 {
        Err(ErrorView::BadLocationFields)
    } else {
        match unsigned_value(fields[1], 65535) {
            None => Err(ErrorView::BadPort),
            Some(port) => if fields.len() == 2 {
                Ok(located(bits, fields[0], port as u16, 0))
            } else {
                match unsigned_value(fields[2], 255) {
                    None => Err(ErrorView::BadLocationVirtualNode),
                    Some(id) => Ok(located(bits, fields[0], port as u16, id as u8)),
                }
            },
        }
    }
}

impl LocationView {
    /// The canonical text of the location.
    pub open spec fn text(self) -> Seq<char> {
        location_text(self.ip, self.port, self.virtual_node_id)
    }

    /// The text that describes the location to a person: its canonical text,
    /// a line break, and its identifier.
    pub open spec fn info(self) -> Seq<char> {
        self.text() + "\r\n"@ + decimal_text(self.identifier) + " --> identifier"@
    }

    /// Whether the identifier is the one that the address has on a ring of
    /// `bits` bits.
    pub open spec fn on_ring(self, bits: nat) -> bool {
        self == located(bits, self.ip, self.port, self.virtual_node_id)
    }
}

/// The view of a location that may be absent.
pub open spec fn option_view(option: Option<Location>) -> Option<LocationView> {
    match option {
        Some(location) => Some(location@),
        None => None,
    }
}

/// The view of a location or an error.
pub open spec fn result_view(result: Result<Location, Error>) -> Result<LocationView, ErrorView> {
    match result {
        Ok(location) => Ok(location@),
        Err(e) => Err(e@),
    }
}

impl View for Location {
    type V = LocationView;

    open spec fn view(&self) -> LocationView {
        LocationView {
            ip: self.ip@,
            port: self.port,
            virtual_node_id: self.virtual_node_id,
            identifier: big_value(self.identifier),
        }
    }
}

impl Clone for Location {
    fn clone(&self) -> (copy: Self)
        ensures
            copy@ == self@,
    {
        Location {
            ip: self.ip.clone(),
            port: self.port,
            virtual_node_id: self.virtual_node_id,
            identifier: big_clone(&self.identifier),
        }
    }
}

/// Builds the canonical text of an address.
fn address_text(ip: &String, port: u16, virtual_node_id: u8) -> (text: String)
    ensures
        text@ == location_text(ip@, port, virtual_node_id),
{
    let mut text = ip.clone();
    push_char(&mut text, ':');
    push_decimal(&mut text, port as u64);
    push_char(&mut text, ':');
    push_decimal(&mut text, virtual_node_id as u64);
    assert(text@ =~= location_text(ip@, port, virtual_node_id));
    text
}

impl Location {
    /// The location of a virtual node of this process.
    pub fn new(config: Arc<Config>, virtual_node_id: u8) -> (location: Self)
        ensures
            location@ == located(config.id_bits as nat, config.host@, config.port, virtual_node_id),
    {
        let ip = config.host.clone();
        let port = config.port;
        let id_input = address_text(&ip, port, virtual_node_id);
        let identifier = compute_identifier(config.id_bits as u32, &id_input);
        Self { ip, port, virtual_node_id, identifier }
    }

    /// Reads a location from `ip:port` or `ip:port:virtual_node_id`. The
    /// identifier is computed from the address, on the ring of the
    /// configuration.
    pub fn from_string(id_input: String, config: Arc<Config>) -> (r: Result<Self, Error>)
        ensures
            result_view(r) == parse_location(id_input@, config.id_bits as nat),
    {
        Self::parse(id_input.as_str(), config.id_bits)
    }

    /// Reads a location from `ip:port` or `ip:port:virtual_node_id`, on a
    /// ring of `bits` bits.
    pub fn parse(text: &str, bits: u8) -> (r: Result<Self, Error>)
        ensures
            result_view(r) == parse_location(text@, bits as nat),
    {
        let arr = split(text, ':');
        assert(texts(arr@).len() == arr@.len());
        if arr.len() < 2 || arr.len() > 3 {
            return Err(Error::BadLocationFields);
        }
        assert(texts(arr@)[0] == arr@[0]@);
        assert(texts(arr@)[1] == arr@[1]@);
        let ip = String::from_str(arr[0]);
        let port = match parse_unsigned(arr[1], 65535) {
            Some(port) => port as u16,
            None => {
                return Err(Error::BadPort);
            },
        };
        let virtual_node_id = if arr.len() == 2 {
            0
        } else {
            assert(texts(arr@)[2] == arr@[2]@);
            match parse_unsigned(arr[2], 255) {
                Some(id) => id as u8,
                None => {
                    return Err(Error::BadLocationVirtualNode);
                },
            }
        };
        let canonical = address_text(&ip, port, virtual_node_id);
        let identifier = compute_identifier(bits as u32, &canonical);
        Ok(Self { ip, port, virtual_node_id, identifier })
    }

    /// The canonical text of the location: `ip:port:virtual_node_id`.
    pub fn to_string(&self) -> (text: String)
        ensures
            text@ == self@.text(),
    {
        address_text(&self.ip, self.port, self.virtual_node_id)
    }

    /// The text that describes the location to a person.
    pub fn to_info(&self) -> (text: String)
        ensures
            text@ == self@.info(),
    {
        let mut text = self.to_string();
        text.append("\r\n");
        text.append(big_to_string(&self.identifier).as_str());
        text.append(" --> identifier");
        text
    }

    /// The location that an option holds, or an error where it holds none.
    pub fn option_to_result(option: &Option<Self>) -> (r: Result<Self, Error>)
        ensures
            result_view(r) == match *option {
                Some(location) => Ok::<LocationView, ErrorView>(location@),
                None => Err(ErrorView::MissingState),
            },
    {
        match option {
            Some(location) => Ok(location.clone()),
            None => Err(Error::MissingState),
        }
    }

    /// The text that describes to a person a location that may be absent.
    pub fn print_info_from_option(option: &Option<Self>) -> (text: String)
        ensures
            text@ == info_text(option_view(*option)),
    {
        match option {
            Some(location) => location.to_info(),
            None => String::from_str("None"),
        }
    }
}

/// The text that describes to a person a location that may be absent: the
/// description of the location, or `None`.
pub open spec fn info_text(option: Option<LocationView>) -> Seq<char> {
    match option {
        Some(location) => location.info(),
        None => "None"@,
    }
}

/// The canonical text of an address whose ip holds no colon is read back as
/// the location of that address.
pub proof fn lemma_parse_location_text(bits: nat, ip: Seq<char>, port: u16, virtual_node_id: u8)
    requires
        !has_char(ip, ':'),
    ensures
        parse_location(location_text(ip, port, virtual_node_id), bits) == Ok::<LocationView, ErrorView>(
            located(bits, ip, port, virtual_node_id),
        ),
{
    let p = decimal_text(port as nat);
    let v = decimal_text(virtual_node_id as nat);
    lemma_decimal_text(port as nat);
    lemma_decimal_text(virtual_node_id as nat);
    lemma_digits_lack(p, ':');
    lemma_digits_lack(v, ':');
    lemma_split_three(ip, p, v, ':');
    lemma_unsigned_value_of_decimal_text(port as nat, 65535);
    lemma_unsigned_value_of_decimal_text(virtual_node_id as nat, 255);
}

/// The canonical text of an address holds a space only where its ip does,
/// it ends with a digit, and it is not the word `NONE`.
pub proof fn lemma_location_text_shape(ip: Seq<char>, port: u16, virtual_node_id: u8)
    ensures
        has_char(location_text(ip, port, virtual_node_id), ' ') ==> has_char(ip, ' '),
        location_text(ip, port, virtual_node_id).len() > 0,
        is_digit(location_text(ip, port, virtual_node_id).last()),
        location_text(ip, port, virtual_node_id) != "NONE"@,
{
    let text = location_text(ip, port, virtual_node_id);
    let p = decimal_text(port as nat);
    let v = decimal_text(virtual_node_id as nat);
    lemma_decimal_text(port as nat);
    lemma_decimal_text(virtual_node_id as nat);
    assert(text.last() == v.last());
    assert(text[ip.len() as int] == ':');
    if has_char(text, ' ') {
        let k = choose|k: int| 0 <= k < text.len() && text[k] == ' ';
        if k < ip.len() {
            assert(ip[k] == ' ');
        } else if k == ip.len() {
        } else if k < ip.len() + 1 + p.len() {
            assert(text[k] == p[k - ip.len() - 1]);
        } else if k == ip.len() + 1 + p.len() {
        } else {
            assert(text[k] == v[k - ip.len() - 2 - p.len()]);
        }
    }
    reveal_strlit("NONE");
    if text == "NONE"@ {
        assert(text.len() == 4);
        assert("NONE"@[ip.len() as int] == ':');
    }
}

} // verus!
