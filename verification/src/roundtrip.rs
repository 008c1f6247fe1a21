//! Reading a frame that was written gives back what was written.

use vstd::prelude::*;
use crate::command::{command_of, keyword, parse_request, parse_response, request_text, response_of, response_text, squeeze, strip_line_end, Command, RequestView, ResponseView};
use crate::error::ErrorView;
use crate::location::{lemma_location_text_shape, lemma_parse_location_text, LocationView};
use crate::number::lemma_big_text_value_of_decimal_text;
use crate::text::{decimal_text, has_char, is_digit, lemma_decimal_text, lemma_digits_lack, lemma_split_three, lemma_split_two, lemma_unsigned_value_of_decimal_text, lower_text, split_text};

verus! {

/// Whether a location can stand in a frame of a ring of `bits` bits and be
/// read back: its ip holds neither a space nor a colon, and its identifier is
/// the one of its address.
pub open spec fn framable(location: LocationView, bits: nat) -> bool {
    &&& !has_char(location.ip, ' ')
    &&& !has_char(location.ip, ':')
    &&& location.on_ring(bits)
}

/// Whether a request can be read back by a process of `nodes` virtual nodes
/// on a ring of `bits` bits: it is for one of those nodes, and the location
/// that it holds, if any, is framable.
pub open spec fn request_framable(request: RequestView, nodes: nat, bits: nat) -> bool {
    &&& request.virtual_node_id() < nodes
    &&& request matches RequestView::Join { location, .. } ==> framable(location, bits)
    &&& request matches RequestView::Notify { notifier, .. } ==> framable(notifier, bits)
}

/// Whether a response can be read back on a ring of `bits` bits: the location
/// that it holds, if any, is framable, and the text that it holds, if any,
/// has no space.
pub open spec fn response_framable(response: ResponseView, bits: nat) -> bool {
    &&& response matches ResponseView::ClosestPrecedingFinger { location } ==> framable(
        location,
        bits,
    )
    &&& response matches ResponseView::GetPredecessor { location: Some(location) } ==> framable(
        location,
        bits,
    )
    &&& response matches ResponseView::GetSuccessor { location } ==> framable(location, bits)
    &&& response matches ResponseView::Lookup { location } ==> framable(location, bits)
    &&& response matches ResponseView::Info { info } ==> !has_char(info, ' ')
}

/// The keyword of a command names that command, and holds no space.
pub proof fn lemma_keyword(command: Command)
    ensures
        command_of(keyword(command)) == Some(command),
        !has_char(keyword(command), ' '),
{
    reveal_strlit("closestprecedingfinger");
    reveal_strlit("getpredecessor");
    reveal_strlit("getsuccessor");
    reveal_strlit("info");
    reveal_strlit("join");
    reveal_strlit("lookup");
    reveal_strlit("notify");
    reveal_strlit("CLOSESTPRECEDINGFINGER");
    reveal_strlit("GETPREDECESSOR");
    reveal_strlit("GETSUCCESSOR");
    reveal_strlit("INFO");
    reveal_strlit("JOIN");
    reveal_strlit("LOOKUP");
    reveal_strlit("NOTIFY");
    let word = lower_text(keyword(command));
    match command {
        Command::ClosestPrecedingFinger => {
            assert(word =~= "closestprecedingfinger"@);
        },
        Command::GetPredecessor => {
            assert(word =~= "getpredecessor"@);
        },
        Command::GetSuccessor => {
            assert(word =~= "getsuccessor"@);
            assert(word[3] != "getpredecessor"@[3]);
        },
        Command::Info => {
            assert(word =~= "info"@);
        },
        Command::Join => {
            assert(word =~= "join"@);
            assert(word[0] != "info"@[0]);
        },
        Command::Lookup => {
            assert(word =~= "lookup"@);
        },
        Command::Notify => {
            assert(word =~= "notify"@);
            assert(word[0] != "lookup"@[0]);
        },
    }
}

/// A frame of a keyword and the id of a virtual node splits into the two,
/// and the id is read back.
proof fn lemma_short_frame(command: Command, id: u8)
    ensures
        ({
            let text = keyword(command).push(' ') + decimal_text(id as nat);
            &&& strip_line_end(text) == text
            &&& split_text(text, ' ') == seq![keyword(command), decimal_text(id as nat)]
        }),
{
    let text = keyword(command).push(' ') + decimal_text(id as nat);
    lemma_keyword(command);
    lemma_decimal_text(id as nat);
    lemma_digits_lack(decimal_text(id as nat), ' ');
    lemma_split_two(keyword(command), decimal_text(id as nat), ' ');
    assert(text.last() == decimal_text(id as nat).last());
    assert(is_digit(text.last()));
}

/// A frame of a keyword, the id of a virtual node and an argument that ends
/// with a digit and holds no space splits into the three.
proof fn lemma_long_frame(command: Command, id: u8, argument: Seq<char>)
    requires
        argument.len() > 0,
        is_digit(argument.last()),
        !has_char(argument, ' '),
    ensures
        ({
            let text = keyword(command).push(' ') + decimal_text(id as nat) + seq![' '] + argument;
            &&& strip_line_end(text) == text
            &&& split_text(text, ' ') == seq![keyword(command), decimal_text(id as nat), argument]
        }),
{
    let text = keyword(command).push(' ') + decimal_text(id as nat) + seq![' '] + argument;
    lemma_keyword(command);
    lemma_decimal_text(id as nat);
    lemma_digits_lack(decimal_text(id as nat), ' ');
    lemma_split_three(keyword(command), decimal_text(id as nat), argument, ' ');
    assert(text.last() == argument.last());
}

/// The frame of a request that holds a key is read back.
proof fn lemma_keyed_request(command: Command, id: u8, key: nat, nodes: nat, bits: nat)
    requires
        id < nodes,
        command == Command::ClosestPrecedingFinger || command == Command::Lookup,
    ensures
        ({
            let text = keyword(command).push(' ') + decimal_text(id as nat) + seq![' ']
                + decimal_text(key);
            parse_request(text, nodes, bits) == if command == Command::Lookup {
                Ok::<RequestView, ErrorView>(RequestView::Lookup { virtual_node_id: id, key })
            } else {
                Ok(RequestView::ClosestPrecedingFinger { virtual_node_id: id, key })
            }
        }),
{
    lemma_decimal_text(key);
    lemma_digits_lack(decimal_text(key), ' ');
    lemma_long_frame(command, id, decimal_text(key));
    lemma_keyword(command);
    lemma_unsigned_value_of_decimal_text(id as nat, 255);
    lemma_big_text_value_of_decimal_text(key);
}

/// The frame of a request that holds a location is read back.
proof fn lemma_located_request(command: Command, id: u8, location: LocationView, nodes: nat, bits: nat)
    requires
        id < nodes,
        command == Command::Join || command == Command::Notify,
        framable(location, bits),
    ensures
        ({
            let text = keyword(command).push(' ') + decimal_text(id as nat) + seq![' ']
                + location.text();
            parse_request(text, nodes, bits) == if command == Command::Join {
                Ok::<RequestView, ErrorView>(RequestView::Join { virtual_node_id: id, location })
            } else {
                Ok(RequestView::Notify { virtual_node_id: id, notifier: location })
            }
        }),
{
    lemma_location_text_shape(location.ip, location.port, location.virtual_node_id);
    lemma_parse_location_text(bits, location.ip, location.port, location.virtual_node_id);
    lemma_long_frame(command, id, location.text());
    lemma_keyword(command);
    lemma_unsigned_value_of_decimal_text(id as nat, 255);
}

/// The frame of a request that holds nothing but its virtual node is read
/// back.
proof fn lemma_plain_request(command: Command, id: u8, nodes: nat, bits: nat)
    requires
        id < nodes,
        command == Command::GetPredecessor || command == Command::GetSuccessor || command
            == Command::Info,
    ensures
        ({
            let text = keyword(command).push(' ') + decimal_text(id as nat);
            parse_request(text, nodes, bits) == if command == Command::GetPredecessor {
                Ok::<RequestView, ErrorView>(RequestView::GetPredecessor { virtual_node_id: id })
            } else if command == Command::GetSuccessor {
                Ok(RequestView::GetSuccessor { virtual_node_id: id })
            } else {
                Ok(RequestView::Info { virtual_node_id: id })
            }
        }),
{
    lemma_short_frame(command, id);
    lemma_keyword(command);
    lemma_unsigned_value_of_decimal_text(id as nat, 255);
}

/// The frame of a request is read back as that request.
pub proof fn lemma_request_roundtrip(request: RequestView, nodes: nat, bits: nat)
    requires
        request_framable(request, nodes, bits),
    ensures
        parse_request(request_text(request), nodes, bits) == Ok::<RequestView, ErrorView>(request),
{
    match request {
        RequestView::ClosestPrecedingFinger { virtual_node_id, key } => {
            lemma_keyed_request(Command::ClosestPrecedingFinger, virtual_node_id, key, nodes, bits);
        },
        RequestView::GetPredecessor { virtual_node_id } => {
            lemma_plain_request(Command::GetPredecessor, virtual_node_id, nodes, bits);
        },
        RequestView::GetSuccessor { virtual_node_id } => {
            lemma_plain_request(Command::GetSuccessor, virtual_node_id, nodes, bits);
        },
        RequestView::Info { virtual_node_id } => {
            lemma_plain_request(Command::Info, virtual_node_id, nodes, bits);
        },
        RequestView::Join { virtual_node_id, location } => {
            lemma_located_request(Command::Join, virtual_node_id, location, nodes, bits);
        },
        RequestView::Lookup { virtual_node_id, key } => {
            lemma_keyed_request(Command::Lookup, virtual_node_id, key, nodes, bits);
        },
        RequestView::Notify { virtual_node_id, notifier } => {
            lemma_located_request(Command::Notify, virtual_node_id, notifier, nodes, bits);
        },
    }
}

/// `RES` is the mark of a response, whatever its case, and holds no space.
proof fn lemma_response_mark()
    ensures
        lower_text("RES"@) == "res"@,
        !has_char("RES"@, ' '),
        "RES "@ == "RES"@.push(' '),
{
    reveal_strlit("RES ");
    reveal_strlit("RES");
    reveal_strlit("res");
    assert(lower_text("RES"@) =~= "res"@);
    assert("RES "@ =~= "RES"@.push(' '));
}

/// A response frame of the mark and a keyword splits into the two.
proof fn lemma_short_response(command: Command)
    ensures
        split_text("RES "@ + keyword(command), ' ') == seq!["RES"@, keyword(command)],
{
    lemma_response_mark();
    lemma_keyword(command);
    lemma_split_two("RES"@, keyword(command), ' ');
}

/// A response frame of the mark, a keyword and an argument without a space
/// splits into the three.
proof fn lemma_long_response(command: Command, argument: Seq<char>)
    requires
        !has_char(argument, ' '),
    ensures
        split_text("RES "@ + keyword(command).push(' ') + argument, ' ') == seq![
            "RES"@,
            keyword(command),
            argument,
        ],
{
    lemma_response_mark();
    lemma_keyword(command);
    lemma_split_three("RES"@, keyword(command), argument, ' ');
    assert("RES "@ + keyword(command).push(' ') + argument =~= "RES"@.push(' ') + keyword(command)
        + seq![' '] + argument);
}

/// The frame of a response that holds a location is read back.
proof fn lemma_located_response(command: Command, location: LocationView, bits: nat)
    requires
        framable(location, bits),
        command != Command::Info,
        command != Command::Join,
        command != Command::Notify,
    ensures
        ({
            let text = "RES "@ + keyword(command).push(' ') + location.text();
            let arr = seq!["RES"@, keyword(command), location.text()];
            &&& split_text(text, ' ') == arr
            &&& response_of(command, arr, bits) == match command {
                Command::ClosestPrecedingFinger => Ok::<ResponseView, ErrorView>(
                    ResponseView::ClosestPrecedingFinger { location },
                ),
                Command::GetPredecessor => Ok(
                    ResponseView::GetPredecessor { location: Some(location) },
                ),
                Command::GetSuccessor => Ok(ResponseView::GetSuccessor { location }),
                _ => Ok(ResponseView::Lookup { location }),
            }
        }),
{
    lemma_location_text_shape(location.ip, location.port, location.virtual_node_id);
    lemma_parse_location_text(bits, location.ip, location.port, location.virtual_node_id);
    lemma_long_response(command, location.text());
}

/// The frame of a response is read back as that response.
pub proof fn lemma_response_roundtrip(response: ResponseView, bits: nat)
    requires
        response_framable(response, bits),
    ensures
        parse_response(response_text(response), bits) == Ok::<ResponseView, ErrorView>(response),
{
    lemma_response_mark();
    match response {
        ResponseView::ClosestPrecedingFinger { location } => {
            lemma_keyword(Command::ClosestPrecedingFinger);
            lemma_located_response(Command::ClosestPrecedingFinger, location, bits);
        },
        ResponseView::GetPredecessor { location: Some(location) } => {
            lemma_keyword(Command::GetPredecessor);
            lemma_located_response(Command::GetPredecessor, location, bits);
        },
        ResponseView::GetPredecessor { location: None } => {
            lemma_keyword(Command::GetPredecessor);
            reveal_strlit("NONE");
            assert(!has_char("NONE"@, ' '));
            lemma_long_response(Command::GetPredecessor, "NONE"@);
        },
        ResponseView::GetSuccessor { location } => {
            lemma_keyword(Command::GetSuccessor);
            lemma_located_response(Command::GetSuccessor, location, bits);
        },
        ResponseView::Info { info } => {
            lemma_keyword(Command::Info);
            lemma_long_response(Command::Info, info);
            let arr = seq!["RES"@, keyword(Command::Info), info];
            assert(arr.drop_last().len() == 2);
            assert(squeeze(arr.drop_last(), 2) =~= Seq::<char>::empty());
            assert(squeeze(arr, 2) =~= info);
        },
        ResponseView::Join => {
            lemma_keyword(Command::Join);
            lemma_short_response(Command::Join);
        },
        ResponseView::Lookup { location } => {
            lemma_keyword(Command::Lookup);
            lemma_located_response(Command::Lookup, location, bits);
        },
        ResponseView::Notify => {
            lemma_keyword(Command::Notify);
            lemma_short_response(Command::Notify);
        },
    }
}

} // verus!
