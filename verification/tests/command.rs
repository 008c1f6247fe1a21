use bytes::BytesMut;
use num::BigUint;
use sicily::command::{
    buffer_is_human, check_params_len, command, command_keyword, execute_request, finish_reply, is_human,
    parse_key, parse_virtual_node_id, strip_crlf, Command, Outcome, Request, Response,
};
use sicily::config::Config;
use sicily::error::Error;
use sicily::location::Location;
use sicily::node::Node;
use std::sync::Arc;

fn config(id_bits: u8) -> Arc<Config> {
    Arc::new(Config {
        port: 9000,
        host: "10.0.0.1".to_string(),
        output_buffer_size: 1024,
        stabilize_frequency: 1000,
        id_bits,
        virtual_node_number: 4,
    })
}

fn request(text: &str) -> Result<Request, Error> {
    Request::parse(text, 4, 8)
}

fn response(text: &str) -> Result<Response, Error> {
    Response::parse(text, 8)
}

#[test]
fn requests_are_read_from_their_frames() {
    match request("CLOSESTPRECEDINGFINGER 1 12345678901234567890123").unwrap() {
        Request::ClosestPrecedingFinger { virtual_node_id, key } => {
            assert_eq!(virtual_node_id, 1);
            assert_eq!(key, "12345678901234567890123".parse::<BigUint>().unwrap());
        }
        other => panic!("{:?}", other),
    }
    assert!(matches!(request("GETPREDECESSOR 0").unwrap(), Request::GetPredecessor { virtual_node_id: 0 }));
    assert!(matches!(request("GETSUCCESSOR 3").unwrap(), Request::GetSuccessor { virtual_node_id: 3 }));
    assert!(matches!(request("INFO 2").unwrap(), Request::Info { virtual_node_id: 2 }));
    match request("JOIN 2 10.0.0.2:9000").unwrap() {
        Request::Join { virtual_node_id, location } => {
            assert_eq!(virtual_node_id, 2);
            assert_eq!(location.to_string(), "10.0.0.2:9000:0");
            assert_eq!(location.identifier, BigUint::from(158u32));
        }
        other => panic!("{:?}", other),
    }
    match request("LOOKUP 0 255").unwrap() {
        Request::Lookup { virtual_node_id, key } => {
            assert_eq!(virtual_node_id, 0);
            assert_eq!(key, BigUint::from(255u32));
        }
        other => panic!("{:?}", other),
    }
    match request("NOTIFY 3 10.0.0.3:9000:0").unwrap() {
        Request::Notify { virtual_node_id, notifier } => {
            assert_eq!(virtual_node_id, 3);
            assert_eq!(notifier.to_string(), "10.0.0.3:9000:0");
            assert_eq!(notifier.identifier, BigUint::from(221u32));
        }
        other => panic!("{:?}", other),
    }
}

#[test]
fn keys_are_read_in_base_ten() {
    match request("LOOKUP 0 10").unwrap() {
        Request::Lookup { key, .. } => assert_eq!(key, BigUint::from(10u32)),
        other => panic!("{:?}", other),
    }
    assert_eq!(request("LOOKUP 0 ff").unwrap_err(), Error::BadKey);
    assert_eq!(request("LOOKUP 0 0x10").unwrap_err(), Error::BadKey);
}

#[test]
fn keywords_are_read_in_any_case() {
    assert!(matches!(request("getsuccessor 0").unwrap(), Request::GetSuccessor { .. }));
    assert!(matches!(request("GetSuccessor 0").unwrap(), Request::GetSuccessor { .. }));
    assert!(matches!(response("res notify").unwrap(), Response::Notify));
    assert!(matches!(response("Res Join").unwrap(), Response::Join));
}

#[test]
fn line_end_of_an_interactive_client_is_taken_off() {
    assert!(matches!(request("GETSUCCESSOR 0\r\n").unwrap(), Request::GetSuccessor { .. }));
    assert!(matches!(request("LOOKUP 1 77\r\n").unwrap(), Request::Lookup { virtual_node_id: 1, .. }));
    assert_eq!(request("GETSUCCESSOR 0\n").unwrap_err(), Error::BadVirtualNodeId);
    assert_eq!(request("GETSUCCESSOR 0\r\n\r\n").unwrap_err(), Error::BadVirtualNodeId);
    assert!(is_human("INFO 0\r\n"));
    assert!(!is_human("INFO 0"));
    assert!(!is_human("INFO 0\n"));
    assert!(!is_human("\n"));
    assert!(is_human("\r\n"));
    assert_eq!(strip_crlf("INFO 0\r\n"), "INFO 0");
    assert_eq!(strip_crlf("INFO 0"), "INFO 0");
    assert_eq!(strip_crlf("é\r\n"), "é");
    assert_eq!(strip_crlf("\r\n"), "");
    assert_eq!(finish_reply("RES JOIN".to_string(), true), "RES JOIN\r\n");
    assert_eq!(finish_reply("RES JOIN".to_string(), false), "RES JOIN");
}

#[test]
fn malformed_requests_are_refused() {
    assert_eq!(request("").unwrap_err(), Error::TooFewTokens);
    assert_eq!(request("INFO").unwrap_err(), Error::TooFewTokens);
    assert_eq!(request("FROB 0").unwrap_err(), Error::UnknownCommand);
    assert_eq!(request("RES INFO").unwrap_err(), Error::UnknownCommand);
    assert_eq!(request("INFO 0 1").unwrap_err(), Error::WrongArity { command: "INFO".to_string(), expected: 2 });
    assert_eq!(request("INFO  0").unwrap_err(), Error::WrongArity { command: "INFO".to_string(), expected: 2 });
    assert_eq!(request("lookup 0").unwrap_err(), Error::WrongArity { command: "lookup".to_string(), expected: 3 });
    assert_eq!(request("JOIN 0 a:1 b").unwrap_err(), Error::WrongArity { command: "JOIN".to_string(), expected: 3 });
    assert_eq!(request("INFO x").unwrap_err(), Error::BadVirtualNodeId);
    assert_eq!(request("INFO 256").unwrap_err(), Error::BadVirtualNodeId);
    assert_eq!(request("INFO ").unwrap_err(), Error::BadVirtualNodeId);
    assert_eq!(request("INFO 4").unwrap_err(), Error::VirtualNodeOutOfRange);
    assert_eq!(request("INFO 255").unwrap_err(), Error::VirtualNodeOutOfRange);
    assert_eq!(request("LOOKUP 0 ").unwrap_err(), Error::BadKey);
    assert_eq!(request("LOOKUP 0 -1").unwrap_err(), Error::BadKey);
    assert_eq!(request("LOOKUP 9 x").unwrap_err(), Error::VirtualNodeOutOfRange);
    assert_eq!(request("JOIN 0 nowhere").unwrap_err(), Error::BadLocationFields);
    assert_eq!(request("JOIN 0 a:b").unwrap_err(), Error::BadPort);
    assert_eq!(request("NOTIFY 0 a:1:x").unwrap_err(), Error::BadLocationVirtualNode);
}

#[test]
fn helpers_of_the_parser() {
    let arr = vec!["INFO", "0"];
    assert_eq!(check_params_len(&arr, 2), Ok(()));
    assert_eq!(check_params_len(&arr, 3), Err(Error::WrongArity { command: "INFO".to_string(), expected: 3 }));
    assert_eq!(check_params_len(&arr, 1), Err(Error::WrongArity { command: "INFO".to_string(), expected: 1 }));
    assert_eq!(check_params_len(&Vec::new(), 1), Err(Error::WrongArity { command: "".to_string(), expected: 1 }));
    assert_eq!(check_params_len(&Vec::new(), 0), Ok(()));

    assert_eq!(parse_virtual_node_id("3", 4), Ok(3));
    assert_eq!(parse_virtual_node_id("4", 4), Err(Error::VirtualNodeOutOfRange));
    assert_eq!(parse_virtual_node_id("0", 0), Err(Error::VirtualNodeOutOfRange));
    assert_eq!(parse_virtual_node_id("255", 1000), Ok(255));
    assert_eq!(parse_virtual_node_id("256", 1000), Err(Error::BadVirtualNodeId));
    assert_eq!(parse_virtual_node_id("three", 4), Err(Error::BadVirtualNodeId));

    assert_eq!(parse_key("0").unwrap(), BigUint::from(0u32));
    assert_eq!(parse_key("0042").unwrap(), BigUint::from(42u32));
    assert_eq!(parse_key("+42").unwrap(), BigUint::from(42u32));
    assert_eq!(parse_key("1_000").unwrap(), BigUint::from(1000u32));
    assert_eq!(
        parse_key("115792089237316195423570985008687907853269984665640564039457584007913129639936")
            .unwrap(),
        BigUint::from(2u8).pow(256)
    );
    for bad in ["", "+", "++1", "_1", "1a", "a", " 1", "1 ", "-1", "٣"] {
        assert_eq!(parse_key(bad).unwrap_err(), Error::BadKey);
    }

    assert_eq!(command("lookup"), Some(Command::Lookup));
    assert_eq!(command("CLOSESTPRECEDINGFINGER"), Some(Command::ClosestPrecedingFinger));
    assert_eq!(command("res"), None);
    for c in [
        Command::ClosestPrecedingFinger,
        Command::GetPredecessor,
        Command::GetSuccessor,
        Command::Info,
        Command::Join,
        Command::Lookup,
        Command::Notify,
    ] {
        assert_eq!(command(command_keyword(c)), Some(c));
    }
    assert_eq!(command_keyword(Command::GetPredecessor), "GETPREDECESSOR");
}

#[test]
fn requests_are_written_in_upper_case() {
    let location = Location::parse("10.0.0.2:9000", 8).unwrap();
    let key = || BigUint::from(1234567890u64);
    let cases = [
        (Request::ClosestPrecedingFinger { virtual_node_id: 7, key: key() }, "CLOSESTPRECEDINGFINGER 7 1234567890"),
        (Request::GetPredecessor { virtual_node_id: 0 }, "GETPREDECESSOR 0"),
        (Request::GetSuccessor { virtual_node_id: 255 }, "GETSUCCESSOR 255"),
        (Request::Info { virtual_node_id: 1 }, "INFO 1"),
        (Request::Join { virtual_node_id: 2, location: location.clone() }, "JOIN 2 10.0.0.2:9000:0"),
        (Request::Lookup { virtual_node_id: 3, key: BigUint::from(0u8) }, "LOOKUP 3 0"),
        (Request::Notify { virtual_node_id: 4, notifier: location }, "NOTIFY 4 10.0.0.2:9000:0"),
    ];
    for (request, text) in cases {
        assert_eq!(request.serialize().unwrap(), text);
    }
}

#[test]
fn responses_are_written_after_res() {
    let location = || Location::parse("10.0.0.2:9000", 8).unwrap();
    let cases = [
        (Response::ClosestPrecedingFinger { location: location() }, "RES CLOSESTPRECEDINGFINGER 10.0.0.2:9000:0"),
        (Response::GetPredecessor { location: Some(location()) }, "RES GETPREDECESSOR 10.0.0.2:9000:0"),
        (Response::GetPredecessor { location: None }, "RES GETPREDECESSOR NONE"),
        (Response::GetSuccessor { location: location() }, "RES GETSUCCESSOR 10.0.0.2:9000:0"),
        (Response::Info { info: "a b".to_string() }, "RES INFO a b"),
        (Response::Join, "RES JOIN"),
        (Response::Lookup { location: location() }, "RES LOOKUP 10.0.0.2:9000:0"),
        (Response::Notify, "RES NOTIFY"),
    ];
    for (response, text) in cases {
        assert_eq!(response.serialize().unwrap(), text);
    }
}

#[test]
fn responses_are_read_from_their_frames() {
    match response("RES CLOSESTPRECEDINGFINGER 10.0.0.2:9000:0").unwrap() {
        Response::ClosestPrecedingFinger { location } => {
            assert_eq!(location.to_string(), "10.0.0.2:9000:0");
            assert_eq!(location.identifier, BigUint::from(158u32));
        }
        other => panic!("{:?}", other),
    }
    match response("RES GETPREDECESSOR 10.0.0.3:9000").unwrap() {
        Response::GetPredecessor { location } => {
            assert_eq!(location.unwrap().to_string(), "10.0.0.3:9000:0")
        }
        other => panic!("{:?}", other),
    }
    assert!(matches!(
        response("RES GETPREDECESSOR NONE").unwrap(),
        Response::GetPredecessor { location: None }
    ));
    match response("RES GETSUCCESSOR 10.0.0.4:9000:1").unwrap() {
        Response::GetSuccessor { location } => assert_eq!(location.virtual_node_id, 1),
        other => panic!("{:?}", other),
    }
    match response("RES LOOKUP 10.0.0.5:9000:0").unwrap() {
        Response::Lookup { location } => assert_eq!(location.ip, "10.0.0.5"),
        other => panic!("{:?}", other),
    }
    assert!(matches!(response("RES JOIN").unwrap(), Response::Join));
    assert!(matches!(response("RES NOTIFY").unwrap(), Response::Notify));
}

#[test]
fn info_response_loses_its_spaces() {
    match response("RES INFO Finger 0: 10.0.0.1:9000:0").unwrap() {
        Response::Info { info } => assert_eq!(info, "Finger0:10.0.0.1:9000:0"),
        other => panic!("{:?}", other),
    }
    match response("RES INFO ").unwrap() {
        Response::Info { info } => assert_eq!(info, ""),
        other => panic!("{:?}", other),
    }
    assert_eq!(response("RES INFO").unwrap_err(), Error::WrongArity { command: "RES".to_string(), expected: 3 });
}

#[test]
fn malformed_responses_are_refused() {
    assert_eq!(response("").unwrap_err(), Error::TooFewTokens);
    assert_eq!(response("RES").unwrap_err(), Error::TooFewTokens);
    assert_eq!(response("REZ JOIN").unwrap_err(), Error::NotAResponse);
    assert_eq!(response("JOIN 0 a:1").unwrap_err(), Error::NotAResponse);
    assert_eq!(response("RES FROB").unwrap_err(), Error::UnknownResponse);
    assert_eq!(response("RES JOIN 0").unwrap_err(), Error::WrongArity { command: "RES".to_string(), expected: 2 });
    assert_eq!(response("res NOTIFY ").unwrap_err(), Error::WrongArity { command: "res".to_string(), expected: 2 });
    assert_eq!(response("RES LOOKUP").unwrap_err(), Error::WrongArity { command: "RES".to_string(), expected: 3 });
    assert_eq!(response("RES GETPREDECESSOR").unwrap_err(), Error::WrongArity { command: "RES".to_string(), expected: 3 });
    assert_eq!(response("RES GETPREDECESSOR none").unwrap_err(), Error::BadLocationFields);
    assert_eq!(response("RES GETSUCCESSOR NONE").unwrap_err(), Error::BadLocationFields);
    assert_eq!(response("RES LOOKUP a:b:c").unwrap_err(), Error::BadPort);
    assert_eq!(response("RES JOIN\r\n").unwrap_err(), Error::UnknownResponse);
}

#[test]
fn written_requests_are_read_back() {
    let location = Location::parse("10.0.0.2:9000:3", 8).unwrap();
    let big = BigUint::from(2u8).pow(255) + BigUint::from(12345u32);
    let requests = vec![
        Request::ClosestPrecedingFinger { virtual_node_id: 3, key: big.clone() },
        Request::GetPredecessor { virtual_node_id: 0 },
        Request::GetSuccessor { virtual_node_id: 1 },
        Request::Info { virtual_node_id: 2 },
        Request::Join { virtual_node_id: 3, location: location.clone() },
        Request::Lookup { virtual_node_id: 0, key: BigUint::from(0u8) },
        Request::Notify { virtual_node_id: 1, notifier: location },
    ];
    for request in requests {
        let text = request.serialize().unwrap();
        let back = Request::parse(&text, 4, 8).unwrap();
        assert_eq!(format!("{:?}", back), format!("{:?}", request));
        assert_eq!(back.serialize().unwrap(), text);
        assert_eq!(back.virtual_node_id(), request.virtual_node_id());
    }
}

#[test]
fn written_responses_are_read_back() {
    let location = || Location::parse("10.0.0.2:9000:3", 8).unwrap();
    let responses = vec![
        Response::ClosestPrecedingFinger { location: location() },
        Response::GetPredecessor { location: Some(location()) },
        Response::GetPredecessor { location: None },
        Response::GetSuccessor { location: location() },
        Response::Info { info: "no-space-here".to_string() },
        Response::Info { info: String::new() },
        Response::Join,
        Response::Lookup { location: location() },
        Response::Notify,
    ];
    for response in responses {
        let text = response.serialize().unwrap();
        let back = Response::parse(&text, 8).unwrap();
        assert_eq!(format!("{:?}", back), format!("{:?}", response));
    }
}

#[test]
fn identifier_is_computed_anew_when_a_location_is_read() {
    let mut forged = Location::parse("10.0.0.2:9000:0", 8).unwrap();
    forged.identifier = BigUint::from(1u8);
    let text = Response::Lookup { location: forged }.serialize().unwrap();
    match Response::parse(&text, 8).unwrap() {
        Response::Lookup { location } => assert_eq!(location.identifier, BigUint::from(158u32)),
        other => panic!("{:?}", other),
    }
}

#[test]
fn frames_are_read_from_a_buffer() {
    let buf = BytesMut::from("LOOKUP 1 42\r\n");
    match Request::parse_from_buf(&buf, 4, config(8)).unwrap() {
        Request::Lookup { virtual_node_id, key } => {
            assert_eq!(virtual_node_id, 1);
            assert_eq!(key, BigUint::from(42u32));
        }
        other => panic!("{:?}", other),
    }
    let buf = BytesMut::from("JOIN 0 10.0.0.2:9000");
    match Request::parse_from_buf(&buf, 4, config(16)).unwrap() {
        Request::Join { location, .. } => assert_eq!(location.identifier, BigUint::from(33950u32)),
        other => panic!("{:?}", other),
    }
    let buf = BytesMut::from("INFO 4");
    assert_eq!(Request::parse_from_buf(&buf, 4, config(8)).unwrap_err(), Error::VirtualNodeOutOfRange);
    assert!(Request::parse_from_buf(&buf, 5, config(8)).is_ok());

    let buf = BytesMut::from("RES GETSUCCESSOR 10.0.0.2:9000:0");
    match Response::parse_from_buf(&buf, config(16)).unwrap() {
        Response::GetSuccessor { location } => assert_eq!(location.identifier, BigUint::from(33950u32)),
        other => panic!("{:?}", other),
    }
    let buf = BytesMut::new();
    assert_eq!(Request::parse_from_buf(&buf, 4, config(8)).unwrap_err(), Error::TooFewTokens);
    assert_eq!(Response::parse_from_buf(&buf, config(8)).unwrap_err(), Error::TooFewTokens);
}

#[test]
fn bytes_that_are_no_text_are_refused() {
    let buf = BytesMut::from(&b"INFO \xff"[..]);
    assert_eq!(Request::parse_from_buf(&buf, 4, config(8)).unwrap_err(), Error::InvalidUtf8);
    let buf = BytesMut::from(&b"RES INFO \xc3"[..]);
    assert_eq!(Response::parse_from_buf(&buf, config(8)).unwrap_err(), Error::InvalidUtf8);
    let buf = BytesMut::from("RES INFO é");
    assert!(matches!(Response::parse_from_buf(&buf, config(8)).unwrap(), Response::Info { .. }));
}

#[test]
fn node_answers_questions_about_its_pointers() {
    let mut node = Node::new(config(8), 0);
    node.set_finger(7, Some(Location::parse("10.0.0.2:9000:0", 8).unwrap())).unwrap();
    let before = node.get_info();

    let request = Request::ClosestPrecedingFinger { virtual_node_id: 0, key: BigUint::from(200u32) };
    match execute_request(request, &mut node).unwrap() {
        Outcome::Reply { response } => {
            assert_eq!(response.serialize().unwrap(), "RES CLOSESTPRECEDINGFINGER 10.0.0.2:9000:0")
        }
        other => panic!("{:?}", other),
    }
    match execute_request(Request::GetPredecessor { virtual_node_id: 0 }, &mut node).unwrap() {
        Outcome::Reply { response } => {
            assert_eq!(response.serialize().unwrap(), "RES GETPREDECESSOR 10.0.0.1:9000:0")
        }
        other => panic!("{:?}", other),
    }
    match execute_request(Request::GetSuccessor { virtual_node_id: 0 }, &mut node).unwrap() {
        Outcome::Reply { response } => {
            assert_eq!(response.serialize().unwrap(), "RES GETSUCCESSOR 10.0.0.1:9000:0")
        }
        other => panic!("{:?}", other),
    }
    match execute_request(Request::Info { virtual_node_id: 0 }, &mut node).unwrap() {
        Outcome::Reply { response: Response::Info { info } } => assert_eq!(info, before),
        other => panic!("{:?}", other),
    }
    assert_eq!(node.get_info(), before);
}

#[test]
fn absent_successor_is_an_error_and_absent_predecessor_is_not() {
    let mut node = Node::new(config(8), 0);
    node.set_successor(None);
    node.set_predecessor(None);
    let failed = execute_request(Request::GetSuccessor { virtual_node_id: 0 }, &mut node);
    assert_eq!(failed.unwrap_err(), Error::MissingState);
    match execute_request(Request::GetPredecessor { virtual_node_id: 0 }, &mut node).unwrap() {
        Outcome::Reply { response } => {
            assert_eq!(response.serialize().unwrap(), "RES GETPREDECESSOR NONE")
        }
        other => panic!("{:?}", other),
    }
}

#[test]
fn notify_request_updates_the_predecessor() {
    let mut node = Node::new(config(8), 0);
    let notifier = Location::parse("10.0.0.2:9000:0", 8).unwrap();
    match execute_request(Request::Notify { virtual_node_id: 0, notifier }, &mut node).unwrap() {
        Outcome::Reply { response } => assert!(matches!(response, Response::Notify)),
        other => panic!("{:?}", other),
    }
    assert_eq!(node.get_predecessor().unwrap().to_string(), "10.0.0.2:9000:0");
}

#[test]
fn lookup_and_join_begin_a_search() {
    let mut node = Node::new(config(8), 0);
    let before = node.get_info();
    let request = Request::Lookup { virtual_node_id: 0, key: BigUint::from(77u32) };
    match execute_request(request, &mut node).unwrap() {
        Outcome::Lookup { start, key } => {
            assert_eq!(start.to_string(), "10.0.0.1:9000:0");
            assert_eq!(key, BigUint::from(77u32));
        }
        other => panic!("{:?}", other),
    }
    let location = Location::parse("10.0.0.2:9000:0", 8).unwrap();
    match execute_request(Request::Join { virtual_node_id: 0, location }, &mut node).unwrap() {
        Outcome::Join { virtual_node_id, bootstrap, key } => {
            assert_eq!(virtual_node_id, 0);
            assert_eq!(bootstrap.to_string(), "10.0.0.2:9000:0");
            assert_eq!(key, BigUint::from(218u32));
        }
        other => panic!("{:?}", other),
    }
    assert_eq!(node.get_info(), before);
}

#[test]
fn interactive_frames_are_told_from_the_buffer() {
    assert!(buffer_is_human(&BytesMut::from("INFO 0\r\n")));
    assert!(!buffer_is_human(&BytesMut::from("INFO 0")));
    assert!(!buffer_is_human(&BytesMut::from(&b"\xff\r\n"[..])));
    assert!(!buffer_is_human(&BytesMut::new()));
}

#[test]
fn every_error_has_its_sentence() {
    assert_eq!(
        Error::WrongArity { command: "JOIN".to_string(), expected: 3 }.message(),
        "Invalid command. JOIN command takes 3 parameters."
    );
    assert_eq!(
        request("getsuccessor 0 1").unwrap_err().message(),
        "Invalid command. getsuccessor command takes 2 parameters."
    );
    assert_eq!(Error::BadHost.message(), "Host is not an IP address.");
    assert_eq!(Error::NoEntropy.message(), "Cannot seed the random number generator.");
    assert_eq!(Error::UnknownCommand.message(), "Invalid command. Unrecognized command.");
    assert_eq!(Error::NotAResponse.message(), "Invalid response. The first string is not \"RES\".");
    assert_eq!(Error::IndexOverflow.message(), "Error retrieving finger. Index overflow.");
    assert_eq!(Error::NoLocalIp.message(), "Cannot parse local IP");
    assert_eq!(Error::ZeroBufferSize.message(), "Input buffer size cannot be 0.");
    assert_eq!(Error::IdBitsTooSmall.message(), "Identifier bits cannot be smaller than 8.");
    assert_eq!(Error::ZeroVirtualNodes.message(), "Virtual node number cannot be 0.");
    assert_eq!(
        Error::TooManyVirtualNodes.message(),
        "Virtual node number cannot be larger than 32."
    );
    assert_eq!(Error::BadKey.message(), "Invalid command. Failed to parse identifier.");
    assert_eq!(
        Error::VirtualNodeOutOfRange.message(),
        "Invalid command. Virtual node number too large."
    );
}

#[test]
fn outcome_names_its_search_and_ends_the_request() {
    let mut node = Node::new(config(8), 0);
    let found = || Some(Location::parse("10.0.0.3:9000:0", 8).unwrap());

    let request = Request::Lookup { virtual_node_id: 0, key: BigUint::from(77u32) };
    let outcome = execute_request(request, &mut node).unwrap();
    let (start, key) = outcome.search().unwrap();
    assert_eq!(start.to_string(), "10.0.0.1:9000:0");
    assert_eq!(key, BigUint::from(77u32));
    let before = node.get_info();
    let response = outcome.finish(&mut node, found()).unwrap();
    assert_eq!(response.serialize().unwrap(), "RES LOOKUP 10.0.0.3:9000:0");
    assert_eq!(node.get_info(), before);

    let location = Location::parse("10.0.0.2:9000:0", 8).unwrap();
    let outcome = execute_request(Request::Join { virtual_node_id: 0, location }, &mut node).unwrap();
    let (start, key) = outcome.search().unwrap();
    assert_eq!(start.to_string(), "10.0.0.2:9000:0");
    assert_eq!(key, BigUint::from(218u32));
    let response = outcome.finish(&mut node, found()).unwrap();
    assert_eq!(response.serialize().unwrap(), "RES JOIN");
    assert_eq!(node.get_successor().unwrap().to_string(), "10.0.0.3:9000:0");
    assert!(node.get_predecessor().is_none());

    let outcome = execute_request(Request::GetSuccessor { virtual_node_id: 0 }, &mut node).unwrap();
    assert!(outcome.search().is_none());
    let before = node.get_info();
    let response = outcome.finish(&mut node, None).unwrap();
    assert_eq!(response.serialize().unwrap(), "RES GETSUCCESSOR 10.0.0.3:9000:0");
    assert_eq!(node.get_info(), before);
}

#[test]
fn search_without_a_result_ends_in_an_error() {
    let mut node = Node::new(config(8), 0);
    let before = node.get_info();
    let request = Request::Lookup { virtual_node_id: 0, key: BigUint::from(77u32) };
    let outcome = execute_request(request, &mut node).unwrap();
    assert_eq!(outcome.finish(&mut node, None).unwrap_err(), Error::MissingState);
    let location = Location::parse("10.0.0.2:9000:0", 8).unwrap();
    let outcome = execute_request(Request::Join { virtual_node_id: 0, location }, &mut node).unwrap();
    assert_eq!(outcome.finish(&mut node, None).unwrap_err(), Error::MissingState);
    assert_eq!(node.get_info(), before);
}
