use rsmediakeys::session::{command_line, toggle_command, MAX_RESPONSE};
use rsmediakeys::{Action, Command, Connection, MpdError, Pending, StateOfPlay};

fn sent(a: Action) -> Vec<u8> {
    match a {
        Action::Send(b) => b,
        _ => panic!("expected a line to send"),
    }
}

fn ready() -> Connection {
    let mut c = Connection::new();
    assert!(matches!(c.receive(b"OK MPD 0.23.5\n"), Action::Ready));
    assert!(c.is_ready());
    c
}

#[test]
fn toggle_table() {
    let table = [
        (StateOfPlay::Stop, Command::Play),
        (StateOfPlay::Pause, Command::Pause),
        (StateOfPlay::Play, Command::Pause),
    ];
    for (state, cmd) in table {
        assert_eq!(toggle_command(state), cmd);
    }
}

#[test]
fn command_lines() {
    assert_eq!(command_line(Command::Status), b"status\n".to_vec());
    assert_eq!(command_line(Command::CurrentSong), b"currentsong\n".to_vec());
    assert_eq!(command_line(Command::Previous), b"previous\n".to_vec());
    assert_eq!(command_line(Command::Pause), b"pause\n".to_vec());
}

#[test]
fn greeting_in_pieces() {
    let mut c = Connection::new();
    assert!(matches!(c.receive(b"OK MP"), Action::Read));
    assert!(matches!(c.receive(b"D 0.23\n"), Action::Ready));
    assert_eq!(c.pending(), Pending::Ready);
}

#[test]
fn bad_greeting_is_connection_error() {
    let mut c = Connection::new();
    assert!(matches!(c.receive(b"HELLO\n"), Action::Fail(MpdError::Connection)));
    assert_eq!(c.pending(), Pending::Closed);
}

#[test]
fn next_success_round() {
    let mut c = ready();
    assert_eq!(sent(c.next()), b"next\n".to_vec());
    assert_eq!(sent(c.receive(b"OK\n")), b"currentsong\n".to_vec());
    assert!(matches!(c.receive(b"file: a.mp3\nArtist: X\n"), Action::Read));
    assert_eq!(sent(c.receive(b"Title: Y\nOK\n")), b"status\n".to_vec());
    match c.receive(b"volume: 80\nstate: play\nOK\n") {
        Action::Reply(text, state) => {
            assert_eq!(text, b"X - Y".to_vec());
            assert_eq!(state, StateOfPlay::Play);
        },
        _ => panic!("expected a reply"),
    }
    assert!(c.is_ready());
}

#[test]
fn previous_and_stop_lines() {
    let mut c = ready();
    assert_eq!(sent(c.previous()), b"previous\n".to_vec());
    let mut d = ready();
    assert_eq!(sent(d.stop()), b"stop\n".to_vec());
}

#[test]
fn ack_reply_carries_message() {
    let mut c = ready();
    sent(c.next());
    assert_eq!(sent(c.receive(b"ACK [55@0] {next} Not playing\n")), b"status\n".to_vec());
    match c.receive(b"state: stop\nOK\n") {
        Action::Reply(text, state) => {
            assert_eq!(text, b"Not playing".to_vec());
            assert_eq!(state, StateOfPlay::Stop);
        },
        _ => panic!("expected a reply"),
    }
}

#[test]
fn toggle_from_each_state() {
    for (name, line) in [
        (&b"stop"[..], &b"play\n"[..]),
        (&b"pause"[..], &b"pause\n"[..]),
        (&b"play"[..], &b"pause\n"[..]),
    ] {
        let mut c = ready();
        assert_eq!(sent(c.toggle()), b"status\n".to_vec());
        let mut resp = b"state: ".to_vec();
        resp.extend_from_slice(name);
        resp.extend_from_slice(b"\nOK\n");
        assert_eq!(sent(c.receive(&resp)), line.to_vec());
    }
}

#[test]
fn garbage_reply_is_protocol_error() {
    let mut c = ready();
    sent(c.next());
    assert!(matches!(c.receive(b"WHAT\n"), Action::Fail(MpdError::Protocol)));
    assert_eq!(c.pending(), Pending::Closed);
}

#[test]
fn command_reply_other_first_line_is_protocol_error() {
    let mut c = ready();
    sent(c.stop());
    assert!(matches!(c.receive(b"OKAY\n"), Action::Fail(MpdError::Protocol)));
    let mut d = ready();
    sent(d.next());
    assert!(matches!(d.receive(b"volume: 1\n"), Action::Fail(MpdError::Protocol)));
    let mut e = ready();
    sent(e.next());
    assert!(matches!(e.receive(b"OK"), Action::Read));
    assert_eq!(sent(e.receive(b"\n")), b"currentsong\n".to_vec());
}

#[test]
fn status_with_stray_line_still_decides_toggle() {
    let mut c = ready();
    sent(c.toggle());
    assert_eq!(sent(c.receive(b"stray\nstate: play\nOK\n")), b"pause\n".to_vec());
}

#[test]
fn malformed_ack_is_protocol_error() {
    let mut c = ready();
    sent(c.next());
    assert!(matches!(c.receive(b"ACK broken\n"), Action::Fail(MpdError::Protocol)));
}

#[test]
fn bad_status_value_fails_request() {
    let mut c = ready();
    sent(c.toggle());
    assert!(matches!(c.receive(b"volume: abc\nOK\n"), Action::Fail(MpdError::Parse)));
}

#[test]
fn unasked_data_is_protocol_error() {
    let mut c = ready();
    assert!(matches!(c.receive(b"OK\n"), Action::Fail(MpdError::Protocol)));
}

#[test]
fn oversized_response_is_protocol_error() {
    let mut c = ready();
    sent(c.next());
    let mut big = Vec::new();
    while big.len() <= MAX_RESPONSE {
        big.extend_from_slice(b"x: yyyyyyyyyyyyyyyyyyyyyyyyyyy\n");
    }
    assert!(matches!(c.receive(&big), Action::Fail(MpdError::Protocol)));
}
