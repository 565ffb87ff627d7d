use nat_probe::command::{is_whitespace, parse_command, trim, Command};
use nat_probe::Failure;

fn probe(target: &str) -> Command {
    Command::Probe { target: target.to_string() }
}

fn switch(server: &str, username: &str, password: &str) -> Command {
    Command::RelaySwitch {
        server: server.to_string(),
        username: username.to_string(),
        password: password.to_string(),
    }
}

fn raw(target: &str, line: &str) -> Command {
    Command::RawSend { target: target.to_string(), payload: line.as_bytes().to_vec() }
}

#[test]
fn stun_prefix_is_a_probe() {
    assert_eq!(parse_command("stun:203.0.113.5:3478").unwrap(), probe("203.0.113.5:3478"));
    assert_eq!(parse_command("stun:203.0.113.5:3478\n").unwrap(), probe("203.0.113.5:3478"));
    assert_eq!(parse_command("  stun: stun.example.org:3478 \r\n").unwrap(), probe("stun.example.org:3478"));
    assert_eq!(parse_command("stun:").unwrap(), probe(""));
}

#[test]
fn turn_prefix_with_three_words_is_a_relay_switch() {
    assert_eq!(
        parse_command("turn:relay.example.com:3478 alice secret").unwrap(),
        switch("relay.example.com:3478", "alice", "secret")
    );
    assert_eq!(
        parse_command("turn:relay.example.com:3478 alice secret\n").unwrap(),
        switch("relay.example.com:3478", "alice", "secret")
    );
    assert_eq!(
        parse_command("\tturn:  relay.example.com:3478\talice   secret  \n").unwrap(),
        switch("relay.example.com:3478", "alice", "secret")
    );
}

#[test]
fn turn_prefix_with_fewer_words_is_a_syntax_error() {
    assert!(matches!(
        parse_command("turn:relay.example.com:3478 alice"),
        Err(Failure::CommandSyntax)
    ));
    assert!(matches!(parse_command("turn:relay.example.com:3478"), Err(Failure::CommandSyntax)));
    assert!(matches!(parse_command("turn:"), Err(Failure::CommandSyntax)));
    assert!(matches!(parse_command("turn:   \n"), Err(Failure::CommandSyntax)));
    assert!(matches!(parse_command("turn:a  b\n"), Err(Failure::CommandSyntax)));
}

#[test]
fn turn_prefix_with_more_words_is_a_syntax_error() {
    assert!(matches!(
        parse_command("turn:relay.example.com:3478 alice secret extra"),
        Err(Failure::CommandSyntax)
    ));
}

#[test]
fn anything_else_is_a_raw_send_of_the_line() {
    assert_eq!(parse_command("192.0.2.9:4000").unwrap(), raw("192.0.2.9:4000", "192.0.2.9:4000"));
    assert_eq!(
        parse_command("192.0.2.9:4000\n").unwrap(),
        raw("192.0.2.9:4000", "192.0.2.9:4000\n")
    );
    assert_eq!(
        parse_command("  peer.example.net:9 \t").unwrap(),
        raw("peer.example.net:9", "  peer.example.net:9 \t")
    );
    assert_eq!(parse_command("").unwrap(), raw("", ""));
    assert_eq!(parse_command(" \n").unwrap(), raw("", " \n"));
}

#[test]
fn prefixes_are_exact() {
    assert_eq!(parse_command("STUN:host:1").unwrap(), raw("STUN:host:1", "STUN:host:1"));
    assert_eq!(parse_command("stun").unwrap(), raw("stun", "stun"));
    assert_eq!(parse_command("turn 1 2 3").unwrap(), raw("turn 1 2 3", "turn 1 2 3"));
    assert_eq!(parse_command("xstun:host:1").unwrap(), raw("xstun:host:1", "xstun:host:1"));
}

#[test]
fn payload_of_a_raw_send_is_utf8() {
    let line = "h\u{e9}te.example:7";
    match parse_command(line).unwrap() {
        Command::RawSend { target, payload } => {
            assert_eq!(target, line);
            assert_eq!(payload, vec![0x68, 0xC3, 0xA9, 0x74, 0x65, 0x2E, 0x65, 0x78, 0x61, 0x6D, 0x70, 0x6C, 0x65, 0x3A, 0x37]);
        },
        other => panic!("unexpected command {:?}", other),
    }
}

#[test]
fn trim_takes_white_space_off_both_ends() {
    assert_eq!(trim("  a b  "), "a b");
    assert_eq!(trim("a"), "a");
    assert_eq!(trim(""), "");
    assert_eq!(trim(" \t\r\n"), "");
    assert_eq!(trim("\u{a0}x\u{3000}"), "x");
    assert_eq!(trim("\u{2003}caf\u{e9} \u{2028}"), "caf\u{e9}");
}

#[test]
fn trim_agrees_with_std() {
    for s in ["", " ", "a", " a", "a ", "\ta\u{85}b\n", "\u{1680}\u{2000}x\u{200a}\u{202f}\u{205f}", "\u{200b}x"] {
        assert_eq!(trim(s), s.trim());
    }
}

#[test]
fn white_space_is_the_unicode_property() {
    let mut n: u32 = 0;
    while n <= 0x3100 {
        if let Some(c) = char::from_u32(n) {
            assert_eq!(is_whitespace(c), c.is_whitespace());
        }
        n += 1;
    }
    assert!(!is_whitespace('\u{feff}'));
    assert!(!is_whitespace('a'));
}
