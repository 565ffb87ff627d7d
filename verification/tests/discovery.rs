use nat_probe::client::{
    binding_request, binding_response, interpret_response, Decoded, BINDING_SUCCESS, HEADER_LEN,
};
use nat_probe::server;
use nat_probe::{Address, Failure};

fn message_with_mapped(kind: stun::message::MessageType, ip: &str, port: u16) -> Vec<u8> {
    let mut msg = stun::message::Message::new();
    msg.new_transaction_id().unwrap();
    let mapped = stun::xoraddr::XorMappedAddress { ip: ip.parse().unwrap(), port };
    msg.build(&[Box::new(kind), Box::new(mapped)]).unwrap();
    msg.marshal_binary().unwrap()
}

#[test]
fn request_has_the_fixed_header() {
    let request = binding_request();
    assert_eq!(request.len(), HEADER_LEN);
    assert_eq!(request.len(), 20);
    assert_eq!(&request[0..8], &[0x00, 0x01, 0x00, 0x00, 0x21, 0x12, 0xA4, 0x42]);
}

#[test]
fn requests_carry_fresh_transaction_ids() {
    let first = binding_request();
    let second = binding_request();
    assert_ne!(&first[8..20], &second[8..20]);
}

#[test]
fn request_is_read_back_by_the_codec() {
    let request = binding_request();
    let mut msg = stun::message::Message::new();
    msg.unmarshal_binary(&request).unwrap();
    assert_eq!(msg.typ, stun::message::BINDING_REQUEST);
    assert_eq!(msg.attributes.0.len(), 0);
    assert_eq!(&msg.transaction_id.0[..], &request[8..20]);
}

#[test]
fn response_to_a_request_gives_back_the_address() {
    let request = binding_request();
    let seen = Address::new("198.51.100.7", 54321);
    let reply = server::Args::handle_one(&request, &seen).unwrap();
    let mapped = binding_response(&reply).unwrap();
    assert_eq!(mapped, Address::new("198.51.100.7", 54321));
}

#[test]
fn response_round_trip_holds_for_ipv6() {
    let request = binding_request();
    let seen = Address::new("2001:db8::7", 4242);
    let reply = server::Args::handle_one(&request, &seen).unwrap();
    assert_eq!(binding_response(&reply).unwrap(), seen);
}

#[test]
fn response_built_by_the_codec_is_accepted() {
    let bytes = message_with_mapped(stun::message::BINDING_SUCCESS, "203.0.113.9", 3478);
    assert_eq!(binding_response(&bytes).unwrap(), Address::new("203.0.113.9", 3478));
}

#[test]
fn reply_repeats_the_transaction_id_and_is_a_success() {
    let request = binding_request();
    let reply = server::Args::handle_one(&request, &Address::new("192.0.2.1", 9)).unwrap();
    assert_eq!(&reply[0..2], &[0x01, 0x01]);
    assert_eq!(&reply[4..8], &[0x21, 0x12, 0xA4, 0x42]);
    assert_eq!(&reply[8..20], &request[8..20]);
    assert_ne!(reply, request);
}

#[test]
fn message_of_another_type_is_no_response() {
    let bytes = message_with_mapped(stun::message::BINDING_REQUEST, "203.0.113.9", 3478);
    assert!(matches!(binding_response(&bytes), Err(Failure::UnexpectedType(0x0001))));
    let bytes = message_with_mapped(stun::message::BINDING_ERROR, "203.0.113.9", 3478);
    assert!(matches!(binding_response(&bytes), Err(Failure::UnexpectedType(0x0111))));
}

#[test]
fn message_without_address_is_no_response() {
    let mut msg = stun::message::Message::new();
    msg.build(&[Box::new(stun::message::BINDING_SUCCESS)]).unwrap();
    let bytes = msg.marshal_binary().unwrap();
    assert!(matches!(
        binding_response(&bytes),
        Err(Failure::Stun(stun::Error::ErrAttributeNotFound))
    ));
}

#[test]
fn request_is_no_response() {
    assert!(matches!(binding_response(&binding_request()), Err(Failure::Stun(_))));
}

#[test]
fn garbage_is_no_response() {
    assert!(matches!(
        binding_response(b"hello, peer"),
        Err(Failure::Stun(stun::Error::ErrUnexpectedHeaderEof))
    ));
    assert!(matches!(binding_response(&[]), Err(Failure::Stun(_))));
    assert!(matches!(binding_response(&[0u8; 20]), Err(Failure::Stun(_))));
}

#[test]
fn interpret_accepts_only_a_binding_success() {
    let ok = interpret_response(Ok(Decoded {
        kind: BINDING_SUCCESS,
        mapped: Address::new("198.51.100.7", 54321),
    }));
    assert_eq!(ok.unwrap(), Address::new("198.51.100.7", 54321));
    let other = interpret_response(Ok(Decoded {
        kind: 0x0001,
        mapped: Address::new("198.51.100.7", 54321),
    }));
    assert!(matches!(other, Err(Failure::UnexpectedType(0x0001))));
    let broken = interpret_response(Err(stun::Error::ErrUnexpectedEof));
    assert!(matches!(broken, Err(Failure::Stun(stun::Error::ErrUnexpectedEof))));
}

#[test]
fn binding_success_is_the_codec_value() {
    assert_eq!(BINDING_SUCCESS, 0x0101);
    assert_eq!(BINDING_SUCCESS, stun::message::BINDING_SUCCESS.value());
}

#[test]
fn server_gives_no_reply_to_garbage() {
    let from = Address::new("192.0.2.1", 9);
    assert!(matches!(server::Args::handle_one(b"not a request", &from), Err(Failure::Stun(_))));
    assert!(matches!(server::Args::handle_one(&[], &from), Err(Failure::Stun(_))));
    assert!(matches!(server::Args::handle_one(&[0u8; 20], &from), Err(Failure::Stun(_))));
    let mut no_cookie = binding_request();
    no_cookie[7] = 0x43;
    assert!(matches!(server::Args::handle_one(&no_cookie, &from), Err(Failure::Stun(_))));
}

#[test]
fn message_without_cookie_is_no_response() {
    let mut bytes = message_with_mapped(stun::message::BINDING_SUCCESS, "203.0.113.9", 3478);
    assert!(binding_response(&bytes).is_ok());
    bytes[4] = 0x20;
    assert!(matches!(binding_response(&bytes), Err(Failure::Stun(_))));
}

#[test]
fn truncated_response_is_no_response() {
    let bytes = message_with_mapped(stun::message::BINDING_SUCCESS, "203.0.113.9", 3478);
    assert!(matches!(binding_response(&bytes[..19]), Err(Failure::Stun(_))));
    assert!(matches!(binding_response(&bytes[..bytes.len() - 1]), Err(Failure::Stun(_))));
}

#[test]
fn server_gives_no_reply_for_a_sender_without_ip_literal() {
    let request = binding_request();
    let from = Address::new("relay.example.com", 9);
    assert!(matches!(server::Args::handle_one(&request, &from), Err(Failure::Stun(_))));
}

#[test]
fn address_copies_are_equal() {
    let a = Address::new("198.51.100.7", 54321);
    assert_eq!(a.ip, "198.51.100.7");
    assert_eq!(a.port, 54321);
    assert_eq!(a.duplicate(), a);
}
