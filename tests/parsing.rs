use rsmediakeys::frame::{ack_message, check_greeting, frame, Frame};
use rsmediakeys::model::parse_state;
use rsmediakeys::status::parse_status;
use rsmediakeys::text::{check_float, parse_unsigned, split_field, trim};
use rsmediakeys::track::{format_reply, parse_track};
use rsmediakeys::{MpdError, StateOfPlay, StatusSnapshot, TrackInfo};

#[test]
fn status_scenario_fields_and_defaults() {
    let s = parse_status(b"volume: 80\nrepeat: 1\nstate: play\nOK\n").unwrap();
    assert_eq!(s.volume, 80);
    assert_eq!(s.repeat, 1);
    assert_eq!(s.state, StateOfPlay::Play);
    assert_eq!(s.random, 0);
    assert_eq!(s.single, 0);
    assert_eq!(s.consume, 0);
    assert!(s.partition.is_empty());
    assert_eq!(s.playlist, 0);
    assert_eq!(s.playlistlength, 0);
    assert_eq!(s.mixrampdb, b"0".to_vec());
    assert_eq!(s.song, 0);
    assert_eq!(s.songid, 0);
    assert!(s.time.is_empty());
    assert_eq!(s.elapsed, b"0".to_vec());
    assert_eq!(s.bitrate, 0);
    assert_eq!(s.duration, b"0".to_vec());
    assert!(s.audio.is_empty());
    assert_eq!(s.nextsong, 0);
    assert_eq!(s.nextsongid, 0);
}

#[test]
fn status_defaults_when_empty() {
    let s = parse_status(b"OK\n").unwrap();
    assert_eq!(s.volume, 100);
    assert_eq!(s.state, StateOfPlay::Stop);
    let d = StatusSnapshot::new();
    assert_eq!(d.volume, 100);
    assert_eq!(d.state, StateOfPlay::Stop);
    assert_eq!(d.mixrampdb, b"0".to_vec());
    assert_eq!(d.elapsed, b"0".to_vec());
    assert_eq!(d.duration, b"0".to_vec());
    assert!(d.partition.is_empty());
}

#[test]
fn status_all_fields() {
    let text = b"volume: 55\nrepeat: 1\nrandom: 1\nsingle: 0\nconsume: 1\npartition: default\n\
playlist: 12\nplaylistlength: 30\nmixrampdb: -17.500000\nstate: pause\nsong: 3\nsongid: 4\n\
time: 12:240\nelapsed: 12.345\nbitrate: 320\nduration: 240.120\naudio: 44100:24:2\n\
nextsong: 4\nnextsongid: 5\nOK\n";
    let s = parse_status(text).unwrap();
    assert_eq!(s.volume, 55);
    assert_eq!(s.random, 1);
    assert_eq!(s.consume, 1);
    assert_eq!(s.partition, b"default".to_vec());
    assert_eq!(s.playlist, 12);
    assert_eq!(s.playlistlength, 30);
    assert_eq!(s.mixrampdb, b"-17.500000".to_vec());
    assert_eq!(s.state, StateOfPlay::Pause);
    assert_eq!(s.song, 3);
    assert_eq!(s.songid, 4);
    assert_eq!(s.time, b"12:240".to_vec());
    assert_eq!(s.elapsed, b"12.345".to_vec());
    assert_eq!(s.bitrate, 320);
    assert_eq!(s.duration, b"240.120".to_vec());
    assert_eq!(s.audio, b"44100:24:2".to_vec());
    assert_eq!(s.nextsong, 4);
    assert_eq!(s.nextsongid, 5);
}

#[test]
fn status_unknown_state_keeps_default() {
    let s = parse_status(b"state: rewinding\nOK\n").unwrap();
    assert_eq!(s.state, StateOfPlay::Stop);
}

#[test]
fn status_unknown_keys_ignored() {
    let s = parse_status(b"xfade: 5\nvolume: 7\nOK\n").unwrap();
    assert_eq!(s.volume, 7);
}

#[test]
fn status_last_value_wins() {
    let s = parse_status(b"volume: 7\nvolume: 9\nOK\n").unwrap();
    assert_eq!(s.volume, 9);
}

#[test]
fn track_reply_scenario() {
    let t = parse_track(b"file: a.mp3\nArtist: X\nTitle: Y\nOK\n").unwrap();
    assert_eq!(t.file, b"a.mp3".to_vec());
    assert_eq!(t.artist, b"X".to_vec());
    assert_eq!(t.title, b"Y".to_vec());
    assert!(t.album.is_empty());
    assert!(t.genre.is_empty());
    assert!(t.last_modified.is_empty());
    assert_eq!(t.track, 0);
    assert_eq!(t.date, 0);
    assert_eq!(t.time, 0);
    assert_eq!(t.duration, b"0".to_vec());
    assert_eq!(t.pos, 0);
    assert_eq!(t.id, 0);
    assert_eq!(format_reply(&t), b"X - Y".to_vec());
}

#[test]
fn track_all_fields() {
    let text = b"file: music/a.flac\nLast-Modified: 2020-01-02T03:04:05Z\nArtist: Band\n\
Title: Song\nAlbum: Record\nTrack: 7\nDate: 1999\nGenre: Rock\nTime: 241\nduration: 240.512\n\
Pos: 2\nId: 17\nOK\n";
    let t = parse_track(text).unwrap();
    assert_eq!(t.last_modified, b"2020-01-02T03:04:05Z".to_vec());
    assert_eq!(t.album, b"Record".to_vec());
    assert_eq!(t.track, 7);
    assert_eq!(t.date, 1999);
    assert_eq!(t.genre, b"Rock".to_vec());
    assert_eq!(t.time, 241);
    assert_eq!(t.duration, b"240.512".to_vec());
    assert_eq!(t.pos, 2);
    assert_eq!(t.id, 17);
    assert_eq!(format_reply(&t), b"Band - Song".to_vec());
}

#[test]
fn track_keys_case_sensitive() {
    let t = parse_track(b"artist: low\nTitle: T\nOK\n").unwrap();
    assert!(t.artist.is_empty());
    assert_eq!(format_reply(&t), b" - T".to_vec());
    let d = TrackInfo::new();
    assert_eq!(d.id, 0);
    assert_eq!(d.duration, b"0".to_vec());
    assert!(d.file.is_empty());
}

#[test]
fn track_bad_number_is_parse_error() {
    assert_eq!(parse_track(b"Track: 3/12\nOK\n").err(), Some(MpdError::Parse));
    assert_eq!(parse_track(b"duration: fast\nOK\n").err(), Some(MpdError::Parse));
}

#[test]
fn ack_message_scenario() {
    assert_eq!(ack_message(b"ACK [5@0] {play} failed to play\n"), Some(b"failed to play".to_vec()));
}

#[test]
fn ack_message_malformed() {
    assert_eq!(ack_message(b"ACK [5@0] play failed\n"), None);
    assert_eq!(ack_message(b"ACK [5@0] {play failed\n"), None);
    assert_eq!(ack_message(b"ACK [5@0] {play} no end"), None);
    assert_eq!(ack_message(b"ACK [5@0] {play}\n"), Some(Vec::new()));
}

#[test]
fn parse_twice_same_record() {
    let text = b"volume: 80\nrepeat: 1\nstate: play\naudio: 1:2:3\nOK\n";
    let a = parse_status(text).unwrap();
    let b = parse_status(text).unwrap();
    assert_eq!(a.volume, b.volume);
    assert_eq!(a.repeat, b.repeat);
    assert_eq!(a.state, b.state);
    assert_eq!(a.audio, b.audio);
    let t1 = parse_track(b"Artist: A\nTitle: B\nOK\n").unwrap();
    let t2 = parse_track(b"Artist: A\nTitle: B\nOK\n").unwrap();
    assert_eq!(format_reply(&t1), format_reply(&t2));
    assert_eq!(parse_status(b"volume: x\nOK\n").err(), parse_status(b"volume: x\nOK\n").err());
}

#[test]
fn bad_terminator_is_protocol_error() {
    assert_eq!(parse_status(b"volume: 80\nOKAY\n").err(), Some(MpdError::Protocol));
    assert_eq!(parse_track(b"Artist: X\nnot a field\n").err(), Some(MpdError::Protocol));
    assert_eq!(parse_status(b"volume: 80\n").err(), Some(MpdError::Protocol));
    assert_eq!(parse_status(b"ACK [50@0] {status} nope\n").err(), Some(MpdError::Protocol));
}

#[test]
fn lines_without_colon_ignored() {
    let s = parse_status(b"x\nOK\n").unwrap();
    assert_eq!(s.volume, 100);
    let s = parse_status(b"volume: 80\nGARBAGE\nstate: pause\nOK\n").unwrap();
    assert_eq!(s.volume, 80);
    assert_eq!(s.state, StateOfPlay::Pause);
    let t = parse_track(b"Artist: X\nnot a field\nTitle: Y\nOK\n").unwrap();
    assert_eq!(format_reply(&t), b"X - Y".to_vec());
}

#[test]
fn bad_number_is_parse_error() {
    assert_eq!(parse_status(b"volume: abc\nOK\n").err(), Some(MpdError::Parse));
    assert_eq!(parse_status(b"repeat: 1\nvolume: abc\nstate: play\nOK\n").err(), Some(MpdError::Parse));
    assert_eq!(parse_status(b"elapsed: 1.2.3\nOK\n").err(), Some(MpdError::Parse));
}

#[test]
fn framing_cases() {
    assert_eq!(frame(b""), Frame::Incomplete);
    assert_eq!(frame(b"volume: 1\nO"), Frame::Incomplete);
    assert_eq!(frame(b"volume: 1\nOK\nrest"), Frame::Complete { ack: false, term_start: 10, end: 13 });
    assert_eq!(frame(b"ACK [2@0] {x} y\n"), Frame::Complete { ack: true, term_start: 0, end: 16 });
    assert_eq!(frame(b"OKAY\n"), Frame::Incomplete);
    assert_eq!(frame(b"junk\nOK\n"), Frame::Complete { ack: false, term_start: 5, end: 8 });
}

#[test]
fn greeting_check() {
    assert!(check_greeting(b"OK MPD 0.23.5"));
    assert!(!check_greeting(b"OK MP"));
    assert!(!check_greeting(b"HELLO"));
}

#[test]
fn unsigned_numbers() {
    assert_eq!(parse_unsigned(b"0"), Some(0));
    assert_eq!(parse_unsigned(b"+42"), Some(42));
    assert_eq!(parse_unsigned(b"1234567"), Some(1234567));
    assert_eq!(parse_unsigned(b""), None);
    assert_eq!(parse_unsigned(b"+"), None);
    assert_eq!(parse_unsigned(b"-1"), None);
    assert_eq!(parse_unsigned(b"12a"), None);
    assert_eq!(parse_unsigned(b"18446744073709551615"), Some(usize::MAX));
    assert_eq!(parse_unsigned(b"18446744073709551616"), None);
}

#[test]
fn fractional_numbers() {
    assert!(check_float(b"0.000000"));
    assert!(check_float(b"-17.5"));
    assert!(check_float(b"+3"));
    assert!(check_float(b".5"));
    assert!(check_float(b"5."));
    assert!(!check_float(b"."));
    assert!(!check_float(b""));
    assert!(!check_float(b"1.2.3"));
    assert!(!check_float(b"abc"));
    assert!(check_float(b"1e5"));
    assert!(check_float(b"-2.5E-3"));
    assert!(!check_float(b"1e"));
    assert!(!check_float(b"e5"));
    assert!(check_float(b"nan"));
    assert!(check_float(b"-INF"));
    assert!(check_float(b"Infinity"));
    assert!(!check_float(b"infin"));
}

#[test]
fn trimming_and_splitting() {
    assert_eq!(trim(b"  a b \t"), b"a b");
    assert_eq!(trim(b"   "), b"");
    let (k, v) = split_field(b" time :  12:34 ");
    assert_eq!(k, b"time");
    assert_eq!(v, b"12:34");
    let (k, v) = split_field(b"no colon here");
    assert_eq!(k, b"");
    assert_eq!(v, b"");
}

#[test]
fn state_names() {
    assert_eq!(parse_state(b"stop"), Some(StateOfPlay::Stop));
    assert_eq!(parse_state(b"pause"), Some(StateOfPlay::Pause));
    assert_eq!(parse_state(b"play"), Some(StateOfPlay::Play));
    assert_eq!(parse_state(b"Play"), None);
}
