//! The requests and responses that peers exchange, and their text form.
//!
//! A frame is one line of tokens with one space between them. A request
//! begins with its keyword and the virtual node that it is for; a response
//! begins with `RES` and the keyword of the request that it answers.

use vstd::prelude::*;
use vstd::string::*;
use vstd::utf8::{decode_utf8, valid_utf8};
use bytes::BytesMut;
use num::BigUint;
use std::string::FromUtf8Error;
use std::sync::Arc;
use crate::config::Config;
use crate::error::{failure, Error, ErrorView};
use crate::location::{option_view, parse_location, Location, LocationView};
use crate::node::{Node, NodeView};
use crate::membership::join;
use crate::number::{big_clone, big_parse, big_text_value, big_to_string, big_value};
use crate::text::{chars_of, decimal_text, is_keyword, lower_text, parse_unsigned, push_char, push_decimal, split, split_text, texts, unsigned_value};

verus! {

/// `bytes::BytesMut`, the buffer that a connection reads into. Nothing inside
/// it is visible here.
#[verifier::external_type_specification]
#[verifier::external_body]
pub struct ExBytesMut(BytesMut);

/// `std::string::FromUtf8Error`, the error of `String::from_utf8`. It is
/// passed on and never looked into.
#[verifier::external_type_specification]
#[verifier::external_body]
pub struct ExFromUtf8Error(FromUtf8Error);

/// The bytes that a buffer holds.
pub uninterp spec fn buffer_bytes(buf: BytesMut) -> Seq<u8>;

/// Copying a `BytesMut` into a vector gives the bytes that the buffer holds,
/// in their order.
#[verifier::external_body]
pub(crate) fn buffer_to_vec(buf: &BytesMut) -> (bytes: Vec<u8>)
    ensures
        bytes@ == buffer_bytes(*buf),
{
    buf.to_vec()
}

/// `String::from_utf8` succeeds exactly on valid UTF-8, and the string then
/// holds the characters that the bytes encode.
#[verifier::external_body]
pub(crate) fn string_from_utf8(bytes: Vec<u8>) -> (r: Result<String, FromUtf8Error>)
    ensures
        r is Ok <==> valid_utf8(bytes@),
        r matches Ok(s) ==> s@ == decode_utf8(bytes@),
{
    String::from_utf8(bytes)
}

/// The commands of the protocol.
#[derive(Clone, Copy, Debug, PartialEq, Eq, Structural)]
pub enum Command {
    ClosestPrecedingFinger,
    GetPredecessor,
    GetSuccessor,
    Info,
    Join,
    Lookup,
    Notify,
}

/// A request to a virtual node.
#[derive(Debug)]
pub enum Request {
    ClosestPrecedingFinger { virtual_node_id: u8, key: BigUint },
    GetPredecessor { virtual_node_id: u8 },
    GetSuccessor { virtual_node_id: u8 },
    Info { virtual_node_id: u8 },
    Join { virtual_node_id: u8, location: Location },
    Lookup { virtual_node_id: u8, key: BigUint },
    Notify { virtual_node_id: u8, notifier: Location },
}

/// What a `Request` holds, as mathematical values.
pub enum RequestView {
    ClosestPrecedingFinger { virtual_node_id: u8, key: nat },
    GetPredecessor { virtual_node_id: u8 },
    GetSuccessor { virtual_node_id: u8 },
    Info { virtual_node_id: u8 },
    Join { virtual_node_id: u8, location: LocationView },
    Lookup { virtual_node_id: u8, key: nat },
    Notify { virtual_node_id: u8, notifier: LocationView },
}

/// A response to a request.
#[derive(Debug)]
#[allow(inconsistent_fields)]
pub enum Response {
    ClosestPrecedingFinger { location: Location },
    GetPredecessor { location: Option<Location> },
    GetSuccessor { location: Location },
    Info { info: String },
    Join,
    Lookup { location: Location },
    Notify,
}

/// What a `Response` holds, as mathematical values.
#[allow(inconsistent_fields)]
pub enum ResponseView {
    ClosestPrecedingFinger { location: LocationView },
    GetPredecessor { location: Option<LocationView> },
    GetSuccessor { location: LocationView },
    Info { info: Seq<char> },
    Join,
    Lookup { location: LocationView },
    Notify,
}

impl View for Request {
    type V = RequestView;

    open spec fn view(&self) -> RequestView {
        match *self {
            Request::ClosestPrecedingFinger { virtual_node_id, key } => RequestView::ClosestPrecedingFinger {
                virtual_node_id,
                key: big_value(key),
            },
            Request::GetPredecessor { virtual_node_id } => RequestView::GetPredecessor { virtual_node_id },
            Request::GetSuccessor { virtual_node_id } => RequestView::GetSuccessor { virtual_node_id },
            Request::Info { virtual_node_id } => RequestView::Info { virtual_node_id },
            Request::Join { virtual_node_id, location } => RequestView::Join {
                virtual_node_id,
                location: location@,
            },
            Request::Lookup { virtual_node_id, key } => RequestView::Lookup {
                virtual_node_id,
                key: big_value(key),
            },
            Request::Notify { virtual_node_id, notifier } => RequestView::Notify {
                virtual_node_id,
                notifier: notifier@,
            },
        }
    }
}

impl View for Response {
    type V = ResponseView;

    open spec fn view(&self) -> ResponseView {
        match *self {
            Response::ClosestPrecedingFinger { location } => ResponseView::ClosestPrecedingFinger {
                location: location@,
            },
            Response::GetPredecessor { location } => ResponseView::GetPredecessor {
                location: option_view(location),
            },
            Response::GetSuccessor { location } => ResponseView::GetSuccessor { location: location@ },
            Response::Info { info } => ResponseView::Info { info: info@ },
            Response::Join => ResponseView::Join,
            Response::Lookup { location } => ResponseView::Lookup { location: location@ },
            Response::Notify => ResponseView::Notify,
        }
    }
}

/// The view of a request or an error.
pub open spec fn request_result(r: Result<Request, Error>) -> Result<RequestView, ErrorView> {
    match r {
        Ok(request) => Ok(request@),
        Err(e) => Err(e@),
    }
}

/// The view of a response or an error.
pub open spec fn response_result(r: Result<Response, Error>) -> Result<ResponseView, ErrorView> {
    match r {
        Ok(response) => Ok(response@),
        Err(e) => Err(e@),
    }
}

/// A frame without the line end `\r\n` that an interactive client appends.
pub open spec fn strip_line_end(s: Seq<char>) -> Seq<char> {
    if ends_line(s) {
        s.take(s.len() - 2)
    } else {
        s
    }
}

/// Whether a frame ends with the line end `\r\n` of an interactive client.
pub open spec fn ends_line(s: Seq<char>) -> bool {
    s.len() >= 2 && s[s.len() - 2] == '\r' && s[s.len() - 1] == '\n'
}

/// The command that a keyword names, whatever the case of its letters.
pub open spec fn command_of(word: Seq<char>) -> Option<Command> {
    let word = lower_text(word);
    if word == "closestprecedingfinger"@ {
        Some(Command::ClosestPrecedingFinger)
    } else if word == "getpredecessor"@ {
        Some(Command::GetPredecessor)
    } else if word == "getsuccessor"@ {
        Some(Command::GetSuccessor)
    } else if word == "info"@ {
        Some(Command::Info)
    } else if word == "join"@ {
        Some(Command::Join)
    } else if word == "lookup"@ {
        Some(Command::Lookup)
    } else if word == "notify"@ {
        Some(Command::Notify)
    } else {
        None
    }
}

/// The error of a frame that has another number of tokens than the
/// `expected` one. It names the first token of the frame.
pub open spec fn wrong_arity(arr: Seq<Seq<char>>, expected: usize) -> ErrorView {
    ErrorView::WrongArity {
        command: if arr.len() > 0 {
            arr[0]
        } else {
            Seq::<char>::empty()
        },
        expected,
    }
}

/// The number of tokens of a request.
pub open spec fn request_arity(command: Command) -> usize {
    match command {
        Command::ClosestPrecedingFinger | Command::Join | Command::Lookup | Command::Notify => 3,
        Command::GetPredecessor | Command::GetSuccessor | Command::Info => 2,
    }
}

/// The virtual node that a token names, in a process of `nodes` virtual nodes.
pub open spec fn node_id_of(s: Seq<char>, nodes: nat) -> Result<u8, ErrorView> {
    match unsigned_value(s, 255) {
        None => Err(ErrorView::BadVirtualNodeId),
        Some(id) => if id >= nodes {
            Err(ErrorView::VirtualNodeOutOfRange)
        } else {
            Ok(id as u8)
        },
    }
}

/// The key that a token spells.
pub open spec fn key_of(s: Seq<char>) -> Result<nat, ErrorView> {
    match big_text_value(s) {
        None => Err(ErrorView::BadKey),
        Some(key) => Ok(key),
    }
}

/// The request that the tokens of a command spell.
pub open spec fn request_of(
    command: Command,
    arr: Seq<Seq<char>>,
    nodes: nat,
    bits: nat,
) -> Result<RequestView, ErrorView> {
    if arr.len() != request_arity(command) {
        Err(wrong_arity(arr, request_arity(command)))
    } else {
        match node_id_of(arr[1], nodes) {
            Err(e) => Err(e),
            Ok(virtual_node_id) => match command {
                Command::ClosestPrecedingFinger => match key_of(arr[2]) {
                    Err(e) => Err(e),
                    Ok(key) => Ok(RequestView::ClosestPrecedingFinger { virtual_node_id, key }),
                },
                Command::GetPredecessor => Ok(RequestView::GetPredecessor { virtual_node_id }),
                Command::GetSuccessor => Ok(RequestView::GetSuccessor { virtual_node_id }),
                Command::Info => Ok(RequestView::Info { virtual_node_id }),
                Command::Join => match parse_location(arr[2], bits) {
                    Err(e) => Err(e),
                    Ok(location) => Ok(RequestView::Join { virtual_node_id, location }),
                },
                Command::Lookup => match key_of(arr[2]) {
                    Err(e) => Err(e),
                    Ok(key) => Ok(RequestView::Lookup { virtual_node_id, key }),
                },
                Command::Notify => match parse_location(arr[2], bits) {
                    Err(e) => Err(e),
                    Ok(notifier) => Ok(RequestView::Notify { virtual_node_id, notifier }),
                },
            },
        }
    }
}

/// The request that a frame spells, for a process of `nodes` virtual nodes on
/// a ring of `bits` bits.
pub open spec fn parse_request(text: Seq<char>, nodes: nat, bits: nat) -> Result<RequestView, ErrorView> {
    let arr = split_text(strip_line_end(text), ' ');
    if arr.len() <= 1 {
        Err(ErrorView::TooFewTokens)
    } else {
        match command_of(arr[0]) {
            None => Err(ErrorView::UnknownCommand),
            Some(command) => request_of(command, arr, nodes, bits),
        }
    }
}

/// The keyword of a command, as it stands on the wire.
pub open spec fn keyword(command: Command) -> Seq<char> {
    match command {
        Command::ClosestPrecedingFinger => "CLOSESTPRECEDINGFINGER"@,
        Command::GetPredecessor => "GETPREDECESSOR"@,
        Command::GetSuccessor => "GETSUCCESSOR"@,
        Command::Info => "INFO"@,
        Command::Join => "JOIN"@,
        Command::Lookup => "LOOKUP"@,
        Command::Notify => "NOTIFY"@,
    }
}

/// The frame of a request.
pub open spec fn request_text(request: RequestView) -> Seq<char> {
    match request {
        RequestView::ClosestPrecedingFinger { virtual_node_id, key } => keyword(
            Command::ClosestPrecedingFinger,
        ).push(' ') + decimal_text(virtual_node_id as nat) + seq![' '] + decimal_text(key),
        RequestView::GetPredecessor { virtual_node_id } => keyword(Command::GetPredecessor).push(' ')
            + decimal_text(virtual_node_id as nat),
        RequestView::GetSuccessor { virtual_node_id } => keyword(Command::GetSuccessor).push(' ')
            + decimal_text(virtual_node_id as nat),
        RequestView::Info { virtual_node_id } => keyword(Command::Info).push(' ') + decimal_text(
            virtual_node_id as nat,
        ),
        RequestView::Join { virtual_node_id, location } => keyword(Command::Join).push(' ')
            + decimal_text(virtual_node_id as nat) + seq![' '] + location.text(),
        RequestView::Lookup { virtual_node_id, key } => keyword(Command::Lookup).push(' ')
            + decimal_text(virtual_node_id as nat) + seq![' '] + decimal_text(key),
        RequestView::Notify { virtual_node_id, notifier } => keyword(Command::Notify).push(' ')
            + decimal_text(virtual_node_id as nat) + seq![' '] + notifier.text(),
    }
}

/// The tokens from index `from` on, put together without the spaces that
/// parted them.
pub open spec fn squeeze(arr: Seq<Seq<char>>, from: nat) -> Seq<char>
    decreases arr.len(),
{
    if arr.len() <= from {
        Seq::<char>::empty()
    } else {
        squeeze(arr.drop_last(), from) + arr.last()
    }
}

/// The response that the tokens after `RES` spell.
pub open spec fn response_of(
    command: Command,
    arr: Seq<Seq<char>>,
    bits: nat,
) -> Result<ResponseView, ErrorView> {
    match command {
        Command::Info => if arr.len() < 3 {
            Err(wrong_arity(arr, 3))
        } else {
            Ok(ResponseView::Info { info: squeeze(arr, 2) })
        },
        Command::Join => if arr.len() != 2 {
            Err(wrong_arity(arr, 2))
        } else {
            Ok(ResponseView::Join)
        },
        Command::Notify => if arr.len() != 2 {
            Err(wrong_arity(arr, 2))
        } else {
            Ok(ResponseView::Notify)
        },
        Command::GetPredecessor => if arr.len() != 3 {
            Err(wrong_arity(arr, 3))
        } else if arr[2] == "NONE"@ {
            Ok(ResponseView::GetPredecessor { location: None })
        } else {
            match parse_location(arr[2], bits) {
                Err(e) => Err(e),
                Ok(location) => Ok(ResponseView::GetPredecessor { location: Some(location) }),
            }
        },
        Command::ClosestPrecedingFinger => if arr.len() != 3 {
            Err(wrong_arity(arr, 3))
        } else {
            match parse_location(arr[2], bits) {
                Err(e) => Err(e),
                Ok(location) => Ok(ResponseView::ClosestPrecedingFinger { location }),
            }
        },
        Command::GetSuccessor => if arr.len() != 3 {
            Err(wrong_arity(arr, 3))
        } else {
            match parse_location(arr[2], bits) {
                Err(e) => Err(e),
                Ok(location) => Ok(ResponseView::GetSuccessor { location }),
            }
        },
        Command::Lookup => if arr.len() != 3 {
            Err(wrong_arity(arr, 3))
        } else {
            match parse_location(arr[2], bits) {
                Err(e) => Err(e),
                Ok(location) => Ok(ResponseView::Lookup { location }),
            }
        },
    }
}

/// The response that a frame spells, on a ring of `bits` bits.
pub open spec fn parse_response(text: Seq<char>, bits: nat) -> Result<ResponseView, ErrorView> {
    let arr = split_text(text, ' ');
    if arr.len() < 2 {
        Err(ErrorView::TooFewTokens)
    } else if lower_text(arr[0]) != "res"@ {
        Err(ErrorView::NotAResponse)
    } else {
        match command_of(arr[1]) {
            None => Err(ErrorView::UnknownResponse),
            Some(command) => response_of(command, arr, bits),
        }
    }
}

/// The frame of a response.
pub open spec fn response_text(response: ResponseView) -> Seq<char> {
    match response {
        ResponseView::ClosestPrecedingFinger { location } => "RES "@ + keyword(
            Command::ClosestPrecedingFinger,
        ).push(' ') + location.text(),
        ResponseView::GetPredecessor { location } => "RES "@ + keyword(Command::GetPredecessor).push(
            ' ',
        ) + match location {
            Some(location) => location.text(),
            None => "NONE"@,
        },
        ResponseView::GetSuccessor { location } => "RES "@ + keyword(Command::GetSuccessor).push(' ')
            + location.text(),
        ResponseView::Info { info } => "RES "@ + keyword(Command::Info).push(' ') + info,
        ResponseView::Join => "RES "@ + keyword(Command::Join),
        ResponseView::Lookup { location } => "RES "@ + keyword(Command::Lookup).push(' ')
            + location.text(),
        ResponseView::Notify => "RES "@ + keyword(Command::Notify),
    }
}

/// The text of a reply as it goes back to the sender: followed by a line end
/// where the request came from an interactive client.
pub open spec fn reply_text(reply: Seq<char>, human: bool) -> Seq<char> {
    if human {
        reply + "\r\n"@
    } else {
        reply
    }
}

/// Tells which command a token names.
pub fn command(token: &str) -> (r: Option<Command>)
    ensures
        r == command_of(token@),
{
    if is_keyword(token, "closestprecedingfinger") {
        Some(Command::ClosestPrecedingFinger)
    } else if is_keyword(token, "getpredecessor") {
        Some(Command::GetPredecessor)
    } else if is_keyword(token, "getsuccessor") {
        Some(Command::GetSuccessor)
    } else if is_keyword(token, "info") {
        Some(Command::Info)
    } else if is_keyword(token, "join") {
        Some(Command::Join)
    } else if is_keyword(token, "lookup") {
        Some(Command::Lookup)
    } else if is_keyword(token, "notify") {
        Some(Command::Notify)
    } else {
        None
    }
}

/// The keyword of a command, as it stands on the wire.
pub fn command_keyword(command: Command) -> (word: &'static str)
    ensures
        word@ == keyword(command),
{
    match command {
        Command::ClosestPrecedingFinger => "CLOSESTPRECEDINGFINGER",
        Command::GetPredecessor => "GETPREDECESSOR",
        Command::GetSuccessor => "GETSUCCESSOR",
        Command::Info => "INFO",
        Command::Join => "JOIN",
        Command::Lookup => "LOOKUP",
        Command::Notify => "NOTIFY",
    }
}

/// Tells whether a frame ends with the line end of an interactive client.
pub fn is_human(text: &str) -> (human: bool)
    ensures
        human == ends_line(text@),
{
    let chars = chars_of(text);
    let n = chars.len();
    n >= 2 && chars[n - 2] == '\r' && chars[n - 1] == '\n'
}

/// Tells whether the bytes of a buffer are a frame of an interactive client:
/// valid UTF-8 that ends with a line end.
pub fn buffer_is_human(buf: &BytesMut) -> (human: bool)
    ensures
        human == (valid_utf8(buffer_bytes(*buf)) && ends_line(decode_utf8(buffer_bytes(*buf)))),
{
    match string_from_utf8(buffer_to_vec(buf)) {
        Ok(s) => is_human(s.as_str()),
        Err(_) => false,
    }
}

/// Takes the line end of an interactive client off a frame.
pub fn strip_crlf<'a>(text: &'a str) -> (stripped: &'a str)
    ensures
        stripped@ == strip_line_end(text@),
{
    let chars = chars_of(text);
    let n = chars.len();
    if n >= 2 && chars[n - 2] == '\r' && chars[n - 1] == '\n' {
        let stripped = text.substring_char(0, n - 2);
        assert(text@.subrange(0, n - 2) =~= text@.take(n - 2));
        stripped
    } else {
        text
    }
}

/// Makes a reply ready for its sender: appends a line end where the request
/// came from an interactive client.
pub fn finish_reply(reply: String, human: bool) -> (text: String)
    ensures
        text@ == reply_text(reply@, human),
{
    if human {
        let mut text = reply;
        text.append("\r\n");
        text
    } else {
        reply
    }
}

/// The error of a frame that has another number of tokens than the
/// `expected` one.
fn arity_error(arr: &Vec<&str>, expected: usize) -> (e: Error)
    ensures
        e@ == wrong_arity(texts(arr@), expected),
{
    let command = if arr.len() > 0 {
        assert(texts(arr@)[0] == arr@[0]@);
        String::from_str(arr[0])
    } else {
        String::new()
    };
    Error::WrongArity { command, expected }
}

/// Tells whether a frame has `len` tokens. The error of one that has not
/// names the first token of the frame and `len`.
pub fn check_params_len(arr: &Vec<&str>, len: usize) -> (r: Result<(), Error>)
    ensures
        failure(r) == if arr@.len() != len {
            Err::<(), ErrorView>(wrong_arity(texts(arr@), len))
        } else {
            Ok(())
        },
{
    if arr.len() != len {
        return Err(arity_error(arr, len));
    }
    Ok(())
}

/// Reads the id of a virtual node and makes sure that the process has it.
pub fn parse_virtual_node_id(input: &str, node_count: usize) -> (r: Result<u8, Error>)
    ensures
        failure(r) == node_id_of(input@, node_count as nat),
{
    let virtual_node_id = match parse_unsigned(input, 255) {
        Some(id) => id as u8,
        None => {
            return Err(Error::BadVirtualNodeId);
        },
    };
    if virtual_node_id as usize >= node_count {
        return Err(Error::VirtualNodeOutOfRange);
    }
    Ok(virtual_node_id)
}

/// Reads a key: a decimal integer of any size.
pub fn parse_key(input: &str) -> (r: Result<BigUint, Error>)
    ensures
        match r {
            Ok(key) => key_of(input@) == Ok::<nat, ErrorView>(big_value(key)),
            Err(e) => key_of(input@) == Err::<nat, ErrorView>(e@),
        },
{
    match big_parse(input, 10) {
        Some(key) => Ok(key),
        None => Err(Error::BadKey),
    }
}

impl Request {
    /// The virtual node that the request is for.
    pub fn virtual_node_id(&self) -> (id: u8)
        ensures
            id == self@.virtual_node_id(),
    {
        match self {
            Request::ClosestPrecedingFinger { virtual_node_id, .. } => *virtual_node_id,
            Request::GetPredecessor { virtual_node_id } => *virtual_node_id,
            Request::GetSuccessor { virtual_node_id } => *virtual_node_id,
            Request::Info { virtual_node_id } => *virtual_node_id,
            Request::Join { virtual_node_id, .. } => *virtual_node_id,
            Request::Lookup { virtual_node_id, .. } => *virtual_node_id,
            Request::Notify { virtual_node_id, .. } => *virtual_node_id,
        }
    }

    /// Reads a request from the bytes of a buffer. The bytes must be valid
    /// UTF-8 and spell a request for one of the `node_count` virtual nodes of
    /// the process.
    pub fn parse_from_buf(
        buf: &BytesMut,
        node_count: usize,
        config: Arc<Config>,
    ) -> (r: Result<Self, Error>)
        ensures
            request_result(r) == if valid_utf8(buffer_bytes(*buf)) {
                parse_request(
                    decode_utf8(buffer_bytes(*buf)),
                    node_count as nat,
                    config.id_bits as nat,
                )
            } else {
                Err(ErrorView::InvalidUtf8)
            },
    {
        match string_from_utf8(buffer_to_vec(buf)) {
            Ok(s) => Self::parse(s.as_str(), node_count, config.id_bits),
            Err(_) => Err(Error::InvalidUtf8),
        }
    }

    /// Reads a request from a frame, for a process of `node_count` virtual
    /// nodes on a ring of `bits` bits.
    pub fn parse(text: &str, node_count: usize, bits: u8) -> (r: Result<Self, Error>)
        ensures
            request_result(r) == parse_request(text@, node_count as nat, bits as nat),
    {
        let s = strip_crlf(text);
        let arr = split(s, ' ');
        assert(texts(arr@).len() == arr@.len());
        if arr.len() <= 1 {
            return Err(Error::TooFewTokens);
        }
        assert(texts(arr@)[0] == arr@[0]@);
        assert(texts(arr@)[1] == arr@[1]@);
        let command = match command(arr[0]) {
            Some(command) => command,
            None => {
                return Err(Error::UnknownCommand);
            },
        };
        let len: usize = match command {
            Command::ClosestPrecedingFinger | Command::Join | Command::Lookup | Command::Notify => 3,
            Command::GetPredecessor | Command::GetSuccessor | Command::Info => 2,
        };
        check_params_len(&arr, len)?;
        let virtual_node_id = parse_virtual_node_id(arr[1], node_count)?;
        let request = match command {
            Command::ClosestPrecedingFinger => {
                assert(texts(arr@)[2] == arr@[2]@);
                let key = parse_key(arr[2])?;
                Request::ClosestPrecedingFinger { virtual_node_id, key }
            },
            Command::GetPredecessor => Request::GetPredecessor { virtual_node_id },
            Command::GetSuccessor => Request::GetSuccessor { virtual_node_id },
            Command::Info => Request::Info { virtual_node_id },
            Command::Join => {
                assert(texts(arr@)[2] == arr@[2]@);
                let location = Location::parse(arr[2], bits)?;
                Request::Join { virtual_node_id, location }
            },
            Command::Lookup => {
                assert(texts(arr@)[2] == arr@[2]@);
                let key = parse_key(arr[2])?;
                Request::Lookup { virtual_node_id, key }
            },
            Command::Notify => {
                assert(texts(arr@)[2] == arr@[2]@);
                let notifier = Location::parse(arr[2], bits)?;
                Request::Notify { virtual_node_id, notifier }
            },
        };
        Ok(request)
    }

    /// The frame of the request.
    pub fn serialize(&self) -> (r: Result<String, Error>)
        ensures
            r matches Ok(text) && text@ == request_text(self@),
    {
        let res = match self {
            Request::ClosestPrecedingFinger { virtual_node_id, key } => {
                let mut text = head(Command::ClosestPrecedingFinger, *virtual_node_id);
                push_char(&mut text, ' ');
                text.append(big_to_string(key).as_str());
                text
            },
            Request::GetPredecessor { virtual_node_id } => head(Command::GetPredecessor, *virtual_node_id),
            Request::GetSuccessor { virtual_node_id } => head(Command::GetSuccessor, *virtual_node_id),
            Request::Info { virtual_node_id } => head(Command::Info, *virtual_node_id),
            Request::Join { virtual_node_id, location } => {
                let mut text = head(Command::Join, *virtual_node_id);
                push_char(&mut text, ' ');
                text.append(location.to_string().as_str());
                text
            },
            Request::Lookup { virtual_node_id, key } => {
                let mut text = head(Command::Lookup, *virtual_node_id);
                push_char(&mut text, ' ');
                text.append(big_to_string(key).as_str());
                text
            },
            Request::Notify { virtual_node_id, notifier } => {
                let mut text = head(Command::Notify, *virtual_node_id);
                push_char(&mut text, ' ');
                text.append(notifier.to_string().as_str());
                text
            },
        };
        assert(res@ =~= request_text(self@));
        Ok(res)
    }
}

impl RequestView {
    /// The virtual node that the request is for.
    pub open spec fn virtual_node_id(self) -> u8 {
        match self {
            RequestView::ClosestPrecedingFinger { virtual_node_id, .. } => virtual_node_id,
            RequestView::GetPredecessor { virtual_node_id } => virtual_node_id,
            RequestView::GetSuccessor { virtual_node_id } => virtual_node_id,
            RequestView::Info { virtual_node_id } => virtual_node_id,
            RequestView::Join { virtual_node_id, .. } => virtual_node_id,
            RequestView::Lookup { virtual_node_id, .. } => virtual_node_id,
            RequestView::Notify { virtual_node_id, .. } => virtual_node_id,
        }
    }
}

/// The keyword of a command, a space, and the id of a virtual node.
fn head(command: Command, virtual_node_id: u8) -> (text: String)
    ensures
        text@ == keyword(command).push(' ') + decimal_text(virtual_node_id as nat),
{
    let mut text = String::from_str(command_keyword(command));
    push_char(&mut text, ' ');
    push_decimal(&mut text, virtual_node_id as u64);
    text
}

/// `RES`, a space, and the keyword of a command.
fn response_head(command: Command) -> (text: String)
    ensures
        text@ == "RES "@ + keyword(command),
{
    let mut text = String::from_str("RES ");
    text.append(command_keyword(command));
    text
}

/// `RES`, the keyword of a command, and a location, with one space between
/// them.
fn located_response(command: Command, location: &Location) -> (text: String)
    ensures
        text@ == "RES "@ + keyword(command).push(' ') + location@.text(),
{
    let mut text = response_head(command);
    push_char(&mut text, ' ');
    text.append(location.to_string().as_str());
    assert(text@ =~= "RES "@ + keyword(command).push(' ') + location@.text());
    text
}

impl Response {
    /// Reads a response from the bytes of a buffer. The bytes must be valid
    /// UTF-8 and spell a response.
    pub fn parse_from_buf(buf: &BytesMut, config: Arc<Config>) -> (r: Result<Self, Error>)
        ensures
            response_result(r) == if valid_utf8(buffer_bytes(*buf)) {
                parse_response(decode_utf8(buffer_bytes(*buf)), config.id_bits as nat)
            } else {
                Err(ErrorView::InvalidUtf8)
            },
    {
        match string_from_utf8(buffer_to_vec(buf)) {
            Ok(s) => Self::parse(s.as_str(), config.id_bits),
            Err(_) => Err(Error::InvalidUtf8),
        }
    }

    /// Reads a response from a frame, on a ring of `bits` bits.
    pub fn parse(text: &str, bits: u8) -> (r: Result<Self, Error>)
        ensures
            response_result(r) == parse_response(text@, bits as nat),
    {
        let arr = split(text, ' ');
        assert(texts(arr@).len() == arr@.len());
        if arr.len() < 2 {
            return Err(Error::TooFewTokens);
        }
        assert(texts(arr@)[0] == arr@[0]@);
        assert(texts(arr@)[1] == arr@[1]@);
        if !is_keyword(arr[0], "res") {
            return Err(Error::NotAResponse);
        }
        let command = match command(arr[1]) {
            Some(command) => command,
            None => {
                return Err(Error::UnknownResponse);
            },
        };
        let response = match command {
            Command::Info => {
                if arr.len() < 3 {
                    return Err(arity_error(&arr, 3));
                }
                let mut info = String::new();
                let mut i: usize = 2;
                assert(texts(arr@).take(2).len() <= 2);
                assert(squeeze(texts(arr@).take(2), 2) =~= Seq::<char>::empty());
                while i < arr.len()
                    invariant
                        2 <= i <= arr.len(),
                        info@ == squeeze(texts(arr@).take(i as int), 2),
                    decreases arr.len() - i,
                {
                    assert(texts(arr@).take(i as int + 1).drop_last() =~= texts(arr@).take(i as int));
                    info.append(arr[i]);
                    i += 1;
                }
                assert(texts(arr@).take(i as int) =~= texts(arr@));
                Response::Info { info }
            },
            Command::Join => {
                check_params_len(&arr, 2)?;
                Response::Join
            },
            Command::Notify => {
                check_params_len(&arr, 2)?;
                Response::Notify
            },
            Command::GetPredecessor => {
                check_params_len(&arr, 3)?;
                assert(texts(arr@)[2] == arr@[2]@);
                if same_text(arr[2], "NONE") {
                    Response::GetPredecessor { location: None }
                } else {
                    let location = Location::parse(arr[2], bits)?;
                    Response::GetPredecessor { location: Some(location) }
                }
            },
            Command::ClosestPrecedingFinger => {
                check_params_len(&arr, 3)?;
                assert(texts(arr@)[2] == arr@[2]@);
                let location = Location::parse(arr[2], bits)?;
                Response::ClosestPrecedingFinger { location }
            },
            Command::GetSuccessor => {
                check_params_len(&arr, 3)?;
                assert(texts(arr@)[2] == arr@[2]@);
                let location = Location::parse(arr[2], bits)?;
                Response::GetSuccessor { location }
            },
            Command::Lookup => {
                check_params_len(&arr, 3)?;
                assert(texts(arr@)[2] == arr@[2]@);
                let location = Location::parse(arr[2], bits)?;
                Response::Lookup { location }
            },
        };
        Ok(response)
    }

    /// The frame of the response.
    pub fn serialize(&self) -> (r: Result<String, Error>)
        ensures
            r matches Ok(text) && text@ == response_text(self@),
    {
        let res = match self {
            Response::ClosestPrecedingFinger { location } => located_response(
                Command::ClosestPrecedingFinger,
                location,
            ),
            Response::GetPredecessor { location } => match location {
                Some(location) => located_response(Command::GetPredecessor, location),
                None => {
                    let mut text = response_head(Command::GetPredecessor);
                    push_char(&mut text, ' ');
                    text.append("NONE");
                    text
                },
            },
            Response::GetSuccessor { location } => located_response(Command::GetSuccessor, location),
            Response::Info { info } => {
                let mut text = response_head(Command::Info);
                push_char(&mut text, ' ');
                text.append(info.as_str());
                text
            },
            Response::Join => response_head(Command::Join),
            Response::Lookup { location } => located_response(Command::Lookup, location),
            Response::Notify => response_head(Command::Notify),
        };
        assert(res@ =~= response_text(self@));
        Ok(res)
    }
}

/// What the dispatcher decided for a request.
#[derive(Debug)]
pub enum Outcome {
    /// The node answered from its own state.
    Reply { response: Response },
    /// The successor of `key` is to be looked up, starting at `start`; it is
    /// the location of the `Lookup` response.
    Lookup { start: Location, key: BigUint },
    /// The successor of `key`, the identifier of the node, is to be looked up,
    /// starting at `bootstrap`, and installed as the successor of virtual node
    /// `virtual_node_id`; the response is `Join`.
    Join { virtual_node_id: u8, bootstrap: Location, key: BigUint },
}

/// What an `Outcome` holds, as mathematical values.
pub enum OutcomeView {
    Reply { response: ResponseView },
    Lookup { start: LocationView, key: nat },
    Join { virtual_node_id: u8, bootstrap: LocationView, key: nat },
}

impl View for Outcome {
    type V = OutcomeView;

    open spec fn view(&self) -> OutcomeView {
        match *self {
            Outcome::Reply { response } => OutcomeView::Reply { response: response@ },
            Outcome::Lookup { start, key } => OutcomeView::Lookup { start: start@, key: big_value(key) },
            Outcome::Join { virtual_node_id, bootstrap, key } => OutcomeView::Join {
                virtual_node_id,
                bootstrap: bootstrap@,
                key: big_value(key),
            },
        }
    }
}

/// The view of an outcome or an error.
pub open spec fn outcome_result(r: Result<Outcome, Error>) -> Result<OutcomeView, ErrorView> {
    match r {
        Ok(outcome) => Ok(outcome@),
        Err(e) => Err(e@),
    }
}

impl OutcomeView {
    /// Where the search that the outcome asks for starts, and the key that
    /// it is for; `None` where the node has answered already.
    pub open spec fn search(self) -> Option<(LocationView, nat)> {
        match self {
            OutcomeView::Reply { .. } => None,
            OutcomeView::Lookup { start, key } => Some((start, key)),
            OutcomeView::Join { bootstrap, key, .. } => Some((bootstrap, key)),
        }
    }

    /// The response that ends the request, given the successor that the
    /// search found, if there was one to make. A search without a result is an
    /// error.
    pub open spec fn response(self, found: Option<LocationView>) -> Result<ResponseView, ErrorView> {
        match self {
            OutcomeView::Reply { response } => Ok(response),
            OutcomeView::Lookup { .. } => match found {
                Some(location) => Ok(ResponseView::Lookup { location }),
                None => Err(ErrorView::MissingState),
            },
            OutcomeView::Join { .. } => match found {
                Some(_) => Ok(ResponseView::Join),
                None => Err(ErrorView::MissingState),
            },
        }
    }

    /// The node after the request has ended: a join installs the successor
    /// that the search found, and nothing else changes the node.
    pub open spec fn installed(self, node: NodeView, found: Option<LocationView>) -> NodeView {
        match (self, found) {
            (OutcomeView::Join { .. }, Some(successor)) => node.joined(successor),
            _ => node,
        }
    }
}

impl Outcome {
    /// Where the search that the outcome asks for starts, and the key that
    /// it is for; `None` where the node has answered already.
    pub fn search(&self) -> (r: Option<(Location, BigUint)>)
        ensures
            match r {
                Some((start, key)) => self@.search() == Some((start@, big_value(key))),
                None => self@.search() is None,
            },
    {
        match self {
            Outcome::Reply { .. } => None,
            Outcome::Lookup { start, key } => Some((start.clone(), big_clone(key))),
            Outcome::Join { bootstrap, key, .. } => Some((bootstrap.clone(), big_clone(key))),
        }
    }

    /// Ends the request with the successor that the search found, if there
    /// was one to make: a join installs it in the node, and a lookup reports
    /// it.
    pub fn finish(self, node: &mut Node, found: Option<Location>) -> (r: Result<Response, Error>)
        ensures
            response_result(r) == self@.response(option_view(found)),
            final(node)@ == self@.installed(old(node)@, option_view(found)),
    {
        match self {
            Outcome::Reply { response } => Ok(response),
            Outcome::Lookup { .. } => match found {
                Some(location) => Ok(Response::Lookup { location }),
                None => Err(Error::MissingState),
            },
            Outcome::Join { .. } => match found {
                Some(successor) => {
                    join(node, successor);
                    Ok(Response::Join)
                },
                None => Err(Error::MissingState),
            },
        }
    }
}

/// What a node decides for a request. The questions about its pointers are
/// answered from its state, and a successor that is absent is an error; a
/// notification is acknowledged; a lookup and a join begin a search, the
/// first at the node itself, the second at the peer named in the request.
pub open spec fn executed(request: RequestView, node: NodeView) -> Result<OutcomeView, ErrorView> {
    match request {
        RequestView::ClosestPrecedingFinger { key, .. } => Ok(
            OutcomeView::Reply {
                response: ResponseView::ClosestPrecedingFinger {
                    location: node.closest_preceding_finger(key),
                },
            },
        ),
        RequestView::GetPredecessor { .. } => Ok(
            OutcomeView::Reply { response: ResponseView::GetPredecessor { location: node.predecessor } },
        ),
        RequestView::GetSuccessor { .. } => match node.successor() {
            Some(location) => Ok(
                OutcomeView::Reply { response: ResponseView::GetSuccessor { location } },
            ),
            None => Err(ErrorView::MissingState),
        },
        RequestView::Info { .. } => Ok(
            OutcomeView::Reply { response: ResponseView::Info { info: node.info() } },
        ),
        RequestView::Join { virtual_node_id, location } => Ok(
            OutcomeView::Join { virtual_node_id, bootstrap: location, key: node.location.identifier },
        ),
        RequestView::Lookup { key, .. } => Ok(OutcomeView::Lookup { start: node.location, key }),
        RequestView::Notify { .. } => Ok(OutcomeView::Reply { response: ResponseView::Notify }),
    }
}

/// The node after a request: a notification may change its predecessor, and
/// no other request changes it.
pub open spec fn node_after(request: RequestView, node: NodeView) -> NodeView {
    match request {
        RequestView::Notify { notifier, .. } => node.notified(notifier),
        _ => node,
    }
}

/// Executes a request on the virtual node that it is for, as far as the node
/// can by itself.
pub fn execute_request(request: Request, node: &mut Node) -> (r: Result<Outcome, Error>)
    ensures
        outcome_result(r) == executed(request@, old(node)@),
        final(node)@ == node_after(request@, old(node)@),
{
    let outcome = match request {
        Request::ClosestPrecedingFinger { virtual_node_id, key } => {
            let location = node.closest_preceding_finger(key)?;
            Outcome::Reply { response: Response::ClosestPrecedingFinger { location } }
        },
        Request::GetPredecessor { virtual_node_id } => {
            let location = node.get_predecessor();
            Outcome::Reply { response: Response::GetPredecessor { location } }
        },
        Request::GetSuccessor { virtual_node_id } => {
            let location = node.get_successor()?;
            Outcome::Reply { response: Response::GetSuccessor { location } }
        },
        Request::Info { virtual_node_id } => {
            let info = node.get_info();
            Outcome::Reply { response: Response::Info { info } }
        },
        Request::Join { virtual_node_id, location } => {
            let key = node.own_location().identifier;
            Outcome::Join { virtual_node_id, bootstrap: location, key }
        },
        Request::Lookup { virtual_node_id, key } => {
            let start = node.own_location();
            Outcome::Lookup { start, key }
        },
        Request::Notify { virtual_node_id, notifier } => {
            node.notify_with(&notifier);
            Outcome::Reply { response: Response::Notify }
        },
    };
    Ok(outcome)
}

/// Tells whether two string slices hold the same text.
fn same_text(a: &str, b: &str) -> (r: bool)
    ensures
        r == (a@ == b@),
{
    let a_chars = chars_of(a);
    let b_chars = chars_of(b);
    if a_chars.len() != b_chars.len() {
        return false;
    }
    let mut i: usize = 0;
    while i < a_chars.len()
        invariant
            a_chars@ == a@,
            b_chars@ == b@,
            a_chars.len() == b_chars.len(),
            i <= a_chars.len(),
            forall|j: int| 0 <= j < i ==> a@[j] == b@[j],
        decreases a_chars.len() - i,
    {
        if a_chars[i] != b_chars[i] {
            return false;
        }
        i += 1;
    }
    assert(a@ =~= b@);
    true
}

} // verus!
