//! The status record: the server's playback and configuration state.
use vstd::prelude::*;
use vstd::slice::{slice_subrange, slice_to_vec};
use crate::frame::{frame, frame_of, newline, Frame};
use crate::model::{parse_state, state_of, MpdError, StateOfPlay};
use crate::text::{
    check_float, field_key, field_value, is_float_text, parse_unsigned, same_bytes, split_field,
    unsigned_of, zero, zero_text,
};

verus! {

/// One answer to a `status` query. Fractional values (`mixrampdb`,
/// `elapsed`, `duration`) are kept as the text the server sent, once it
/// reads as a number.
pub struct StatusSnapshot {
    pub volume: usize,
    pub repeat: usize,
    pub random: usize,
    pub single: usize,
    pub consume: usize,
    pub partition: Vec<u8>,
    pub playlist: usize,
    pub playlistlength: usize,
    pub mixrampdb: Vec<u8>,
    pub state: StateOfPlay,
    pub song: usize,
    pub songid: usize,
    pub time: Vec<u8>,
    pub elapsed: Vec<u8>,
    pub bitrate: usize,
    pub duration: Vec<u8>,
    pub audio: Vec<u8>,
    pub nextsong: usize,
    pub nextsongid: usize,
}

pub ghost struct StatusView {
    pub volume: usize,
    pub repeat: usize,
    pub random: usize,
    pub single: usize,
    pub consume: usize,
    pub partition: Seq<u8>,
    pub playlist: usize,
    pub playlistlength: usize,
    pub mixrampdb: Seq<u8>,
    pub state: StateOfPlay,
    pub song: usize,
    pub songid: usize,
    pub time: Seq<u8>,
    pub elapsed: Seq<u8>,
    pub bitrate: usize,
    pub duration: Seq<u8>,
    pub audio: Seq<u8>,
    pub nextsong: usize,
    pub nextsongid: usize,
}

impl View for StatusSnapshot {
    type V = StatusView;

    open spec fn view(&self) -> StatusView {
        StatusView {
            volume: self.volume,
            repeat: self.repeat,
            random: self.random,
            single: self.single,
            consume: self.consume,
            partition: self.partition@,
            playlist: self.playlist,
            playlistlength: self.playlistlength,
            mixrampdb: self.mixrampdb@,
            state: self.state,
            song: self.song,
            songid: self.songid,
            time: self.time@,
            elapsed: self.elapsed@,
            bitrate: self.bitrate,
            duration: self.duration@,
            audio: self.audio@,
            nextsong: self.nextsong,
            nextsongid: self.nextsongid,
        }
    }
}

/// A status with no field given: volume 100, state stopped, every other
/// number 0 (`"0"` for those kept as text) and every text empty.
pub open spec fn default_status() -> StatusView {
    StatusView {
        volume: 100,
        repeat: 0,
        random: 0,
        single: 0,
        consume: 0,
        partition: Seq::empty(),
        playlist: 0,
        playlistlength: 0,
        mixrampdb: zero_text(),
        state: StateOfPlay::Stop,
        song: 0,
        songid: 0,
        time: Seq::empty(),
        elapsed: zero_text(),
        bitrate: 0,
        duration: zero_text(),
        audio: Seq::empty(),
        nextsong: 0,
        nextsongid: 0,
    }
}

impl StatusSnapshot {
    /// A status with every field at its default.
    pub fn new() -> (r: StatusSnapshot)
        ensures
            r@ == default_status(),
    {
        StatusSnapshot {
            volume: 100,
            repeat: 0,
            random: 0,
            single: 0,
            consume: 0,
            partition: Vec::new(),
            playlist: 0,
            playlistlength: 0,
            mixrampdb: zero(),
            state: StateOfPlay::Stop,
            song: 0,
            songid: 0,
            time: Vec::new(),
            elapsed: zero(),
            bitrate: 0,
            duration: zero(),
            audio: Vec::new(),
            nextsong: 0,
            nextsongid: 0,
        }
    }
}

/// The status keys that the parser reads.
#[derive(Clone, Copy, Debug, PartialEq, Eq, Structural)]
pub enum StatusKey {
    Volume,
    Repeat,
    Random,
    Single,
    Consume,
    Partition,
    Playlist,
    PlaylistLength,
    MixRampDb,
    State,
    Song,
    SongId,
    Time,
    Elapsed,
    Bitrate,
    Duration,
    Audio,
    NextSong,
    NextSongId,
}

/// The status key that `k` names, if any (case-sensitive).
pub open spec fn status_key_of(k: Seq<u8>) -> Option<StatusKey> {
    if k == seq!['v' as u8, 'o' as u8, 'l' as u8, 'u' as u8, 'm' as u8, 'e' as u8] {
        Some(StatusKey::Volume)
    } else if k == seq!['r' as u8, 'e' as u8, 'p' as u8, 'e' as u8, 'a' as u8, 't' as u8] {
        Some(StatusKey::Repeat)
    } else if k == seq!['r' as u8, 'a' as u8, 'n' as u8, 'd' as u8, 'o' as u8, 'm' as u8] {
        Some(StatusKey::Random)
    } else if k == seq!['s' as u8, 'i' as u8, 'n' as u8, 'g' as u8, 'l' as u8, 'e' as u8] {
        Some(StatusKey::Single)
    } else if k == seq!['c' as u8, 'o' as u8, 'n' as u8, 's' as u8, 'u' as u8, 'm' as u8, 'e' as u8] {
        Some(StatusKey::Consume)
    } else if k == seq!['p' as u8, 'a' as u8, 'r' as u8, 't' as u8, 'i' as u8, 't' as u8, 'i' as u8, 'o' as u8, 'n' as u8] {
        Some(StatusKey::Partition)
    } else if k == seq!['p' as u8, 'l' as u8, 'a' as u8, 'y' as u8, 'l' as u8, 'i' as u8, 's' as u8, 't' as u8] {
        Some(StatusKey::Playlist)
    } else if k == seq!['p' as u8, 'l' as u8, 'a' as u8, 'y' as u8, 'l' as u8, 'i' as u8, 's' as u8, 't' as u8, 'l' as u8, 'e' as u8, 'n' as u8, 'g' as u8, 't' as u8, 'h' as u8] {
        Some(StatusKey::PlaylistLength)
    } else if k == seq!['m' as u8, 'i' as u8, 'x' as u8, 'r' as u8, 'a' as u8, 'm' as u8, 'p' as u8, 'd' as u8, 'b' as u8] {
        Some(StatusKey::MixRampDb)
    } else if k == seq!['s' as u8, 't' as u8, 'a' as u8, 't' as u8, 'e' as u8] {
        Some(StatusKey::State)
    } else if k == seq!['s' as u8, 'o' as u8, 'n' as u8, 'g' as u8] {
        Some(StatusKey::Song)
    } else if k == seq!['s' as u8, 'o' as u8, 'n' as u8, 'g' as u8, 'i' as u8, 'd' as u8] {
        Some(StatusKey::SongId)
    } else if k == seq!['t' as u8, 'i' as u8, 'm' as u8, 'e' as u8] {
        Some(StatusKey::Time)
    } else if k == seq!['e' as u8, 'l' as u8, 'a' as u8, 'p' as u8, 's' as u8, 'e' as u8, 'd' as u8] {
        Some(StatusKey::Elapsed)
    } else if k == seq!['b' as u8, 'i' as u8, 't' as u8, 'r' as u8, 'a' as u8, 't' as u8, 'e' as u8] {
        Some(StatusKey::Bitrate)
    } else if k == seq!['d' as u8, 'u' as u8, 'r' as u8, 'a' as u8, 't' as u8, 'i' as u8, 'o' as u8, 'n' as u8] {
        Some(StatusKey::Duration)
    } else if k == seq!['a' as u8, 'u' as u8, 'd' as u8, 'i' as u8, 'o' as u8] {
        Some(StatusKey::Audio)
    } else if k == seq!['n' as u8, 'e' as u8, 'x' as u8, 't' as u8, 's' as u8, 'o' as u8, 'n' as u8, 'g' as u8] {
        Some(StatusKey::NextSong)
    } else if k == seq!['n' as u8, 'e' as u8, 'x' as u8, 't' as u8, 's' as u8, 'o' as u8, 'n' as u8, 'g' as u8, 'i' as u8, 'd' as u8] {
        Some(StatusKey::NextSongId)
    } else {
        None
    }
}

/// Looks up the status key that `k` names.
pub fn status_key(k: &[u8]) -> (r: Option<StatusKey>)
    ensures
        r == status_key_of(k@),
{
    let n0: [u8; 6] = ['v' as u8, 'o' as u8, 'l' as u8, 'u' as u8, 'm' as u8, 'e' as u8];
    assert(n0@ == seq!['v' as u8, 'o' as u8, 'l' as u8, 'u' as u8, 'm' as u8, 'e' as u8]);
    if same_bytes(k, &n0) {
        return Some(StatusKey::Volume);
    }
    let n1: [u8; 6] = ['r' as u8, 'e' as u8, 'p' as u8, 'e' as u8, 'a' as u8, 't' as u8];
    assert(n1@ == seq!['r' as u8, 'e' as u8, 'p' as u8, 'e' as u8, 'a' as u8, 't' as u8]);
    if same_bytes(k, &n1) {
        return Some(StatusKey::Repeat);
    }
    let n2: [u8; 6] = ['r' as u8, 'a' as u8, 'n' as u8, 'd' as u8, 'o' as u8, 'm' as u8];
    assert(n2@ == seq!['r' as u8, 'a' as u8, 'n' as u8, 'd' as u8, 'o' as u8, 'm' as u8]);
    if same_bytes(k, &n2) {
        return Some(StatusKey::Random);
    }
    let n3: [u8; 6] = ['s' as u8, 'i' as u8, 'n' as u8, 'g' as u8, 'l' as u8, 'e' as u8];
    assert(n3@ == seq!['s' as u8, 'i' as u8, 'n' as u8, 'g' as u8, 'l' as u8, 'e' as u8]);
    if same_bytes(k, &n3) {
        return Some(StatusKey::Single);
    }
    let n4: [u8; 7] = ['c' as u8, 'o' as u8, 'n' as u8, 's' as u8, 'u' as u8, 'm' as u8, 'e' as u8];
    assert(n4@ == seq!['c' as u8, 'o' as u8, 'n' as u8, 's' as u8, 'u' as u8, 'm' as u8, 'e' as u8]);
    if same_bytes(k, &n4) {
        return Some(StatusKey::Consume);
    }
    let n5: [u8; 9] = ['p' as u8, 'a' as u8, 'r' as u8, 't' as u8, 'i' as u8, 't' as u8, 'i' as u8, 'o' as u8, 'n' as u8];
    assert(n5@ == seq!['p' as u8, 'a' as u8, 'r' as u8, 't' as u8, 'i' as u8, 't' as u8, 'i' as u8, 'o' as u8, 'n' as u8]);
    if same_bytes(k, &n5) {
        return Some(StatusKey::Partition);
    }
    let n6: [u8; 8] = ['p' as u8, 'l' as u8, 'a' as u8, 'y' as u8, 'l' as u8, 'i' as u8, 's' as u8, 't' as u8];
    assert(n6@ == seq!['p' as u8, 'l' as u8, 'a' as u8, 'y' as u8, 'l' as u8, 'i' as u8, 's' as u8, 't' as u8]);
    if same_bytes(k, &n6) {
        return Some(StatusKey::Playlist);
    }
    let n7: [u8; 14] = ['p' as u8, 'l' as u8, 'a' as u8, 'y' as u8, 'l' as u8, 'i' as u8, 's' as u8, 't' as u8, 'l' as u8, 'e' as u8, 'n' as u8, 'g' as u8, 't' as u8, 'h' as u8];
    assert(n7@ == seq!['p' as u8, 'l' as u8, 'a' as u8, 'y' as u8, 'l' as u8, 'i' as u8, 's' as u8, 't' as u8, 'l' as u8, 'e' as u8, 'n' as u8, 'g' as u8, 't' as u8, 'h' as u8]);
    if same_bytes(k, &n7) {
        return Some(StatusKey::PlaylistLength);
    }
    let n8: [u8; 9] = ['m' as u8, 'i' as u8, 'x' as u8, 'r' as u8, 'a' as u8, 'm' as u8, 'p' as u8, 'd' as u8, 'b' as u8];
    assert(n8@ == seq!['m' as u8, 'i' as u8, 'x' as u8, 'r' as u8, 'a' as u8, 'm' as u8, 'p' as u8, 'd' as u8, 'b' as u8]);
    if same_bytes(k, &n8) {
        return Some(StatusKey::MixRampDb);
    }
    let n9: [u8; 5] = ['s' as u8, 't' as u8, 'a' as u8, 't' as u8, 'e' as u8];
    assert(n9@ == seq!['s' as u8, 't' as u8, 'a' as u8, 't' as u8, 'e' as u8]);
    if same_bytes(k, &n9) {
        return Some(StatusKey::State);
    }
    let n10: [u8; 4] = ['s' as u8, 'o' as u8, 'n' as u8, 'g' as u8];
    assert(n10@ == seq!['s' as u8, 'o' as u8, 'n' as u8, 'g' as u8]);
    if same_bytes(k, &n10) {
        return Some(StatusKey::Song);
    }
    let n11: [u8; 6] = ['s' as u8, 'o' as u8, 'n' as u8, 'g' as u8, 'i' as u8, 'd' as u8];
    assert(n11@ == seq!['s' as u8, 'o' as u8, 'n' as u8, 'g' as u8, 'i' as u8, 'd' as u8]);
    if same_bytes(k, &n11) {
        return Some(StatusKey::SongId);
    }
    let n12: [u8; 4] = ['t' as u8, 'i' as u8, 'm' as u8, 'e' as u8];
    assert(n12@ == seq!['t' as u8, 'i' as u8, 'm' as u8, 'e' as u8]);
    if same_bytes(k, &n12) {
        return Some(StatusKey::Time);
    }
    let n13: [u8; 7] = ['e' as u8, 'l' as u8, 'a' as u8, 'p' as u8, 's' as u8, 'e' as u8, 'd' as u8];
    assert(n13@ == seq!['e' as u8, 'l' as u8, 'a' as u8, 'p' as u8, 's' as u8, 'e' as u8, 'd' as u8]);
    if same_bytes(k, &n13) {
        return Some(StatusKey::Elapsed);
    }
    let n14: [u8; 7] = ['b' as u8, 'i' as u8, 't' as u8, 'r' as u8, 'a' as u8, 't' as u8, 'e' as u8];
    assert(n14@ == seq!['b' as u8, 'i' as u8, 't' as u8, 'r' as u8, 'a' as u8, 't' as u8, 'e' as u8]);
    if same_bytes(k, &n14) {
        return Some(StatusKey::Bitrate);
    }
    let n15: [u8; 8] = ['d' as u8, 'u' as u8, 'r' as u8, 'a' as u8, 't' as u8, 'i' as u8, 'o' as u8, 'n' as u8];
    assert(n15@ == seq!['d' as u8, 'u' as u8, 'r' as u8, 'a' as u8, 't' as u8, 'i' as u8, 'o' as u8, 'n' as u8]);
    if same_bytes(k, &n15) {
        return Some(StatusKey::Duration);
    }
    let n16: [u8; 5] = ['a' as u8, 'u' as u8, 'd' as u8, 'i' as u8, 'o' as u8];
    assert(n16@ == seq!['a' as u8, 'u' as u8, 'd' as u8, 'i' as u8, 'o' as u8]);
    if same_bytes(k, &n16) {
        return Some(StatusKey::Audio);
    }
    let n17: [u8; 8] = ['n' as u8, 'e' as u8, 'x' as u8, 't' as u8, 's' as u8, 'o' as u8, 'n' as u8, 'g' as u8];
    assert(n17@ == seq!['n' as u8, 'e' as u8, 'x' as u8, 't' as u8, 's' as u8, 'o' as u8, 'n' as u8, 'g' as u8]);
    if same_bytes(k, &n17) {
        return Some(StatusKey::NextSong);
    }
    let n18: [u8; 10] = ['n' as u8, 'e' as u8, 'x' as u8, 't' as u8, 's' as u8, 'o' as u8, 'n' as u8, 'g' as u8, 'i' as u8, 'd' as u8];
    assert(n18@ == seq!['n' as u8, 'e' as u8, 'x' as u8, 't' as u8, 's' as u8, 'o' as u8, 'n' as u8, 'g' as u8, 'i' as u8, 'd' as u8]);
    if same_bytes(k, &n18) {
        return Some(StatusKey::NextSongId);
    }
    None
}

/// The record after the field `k` is set from the text `v`; `None` when
/// `v` is not a valid value for that field.
pub open spec fn status_with(s: StatusView, k: StatusKey, v: Seq<u8>) -> Option<StatusView> {
    match k {
        StatusKey::Volume => match unsigned_of(v) {
            Some(n) => Some(StatusView { volume: n, ..s }),
            None => None,
        },
        StatusKey::Repeat => match unsigned_of(v) {
            Some(n) => Some(StatusView { repeat: n, ..s }),
            None => None,
        },
        StatusKey::Random => match unsigned_of(v) {
            Some(n) => Some(StatusView { random: n, ..s }),
            None => None,
        },
        StatusKey::Single => match unsigned_of(v) {
            Some(n) => Some(StatusView { single: n, ..s }),
            None => None,
        },
        StatusKey::Consume => match unsigned_of(v) {
            Some(n) => Some(StatusView { consume: n, ..s }),
            None => None,
        },
        StatusKey::Partition => Some(StatusView { partition: v, ..s }),
        StatusKey::Playlist => match unsigned_of(v) {
            Some(n) => Some(StatusView { playlist: n, ..s }),
            None => None,
        },
        StatusKey::PlaylistLength => match unsigned_of(v) {
            Some(n) => Some(StatusView { playlistlength: n, ..s }),
            None => None,
        },
        StatusKey::MixRampDb => if is_float_text(v) {
            Some(StatusView { mixrampdb: v, ..s })
        } else {
            None
        },
        StatusKey::State => match state_of(v) {
            Some(p) => Some(StatusView { state: p, ..s }),
            None => Some(s),
        },
        StatusKey::Song => match unsigned_of(v) {
            Some(n) => Some(StatusView { song: n, ..s }),
            None => None,
        },
        StatusKey::SongId => match unsigned_of(v) {
            Some(n) => Some(StatusView { songid: n, ..s }),
            None => None,
        },
        StatusKey::Time => Some(StatusView { time: v, ..s }),
        StatusKey::Elapsed => if is_float_text(v) {
            Some(StatusView { elapsed: v, ..s })
        } else {
            None
        },
        StatusKey::Bitrate => match unsigned_of(v) {
            Some(n) => Some(StatusView { bitrate: n, ..s }),
            None => None,
        },
        StatusKey::Duration => if is_float_text(v) {
            Some(StatusView { duration: v, ..s })
        } else {
            None
        },
        StatusKey::Audio => Some(StatusView { audio: v, ..s }),
        StatusKey::NextSong => match unsigned_of(v) {
            Some(n) => Some(StatusView { nextsong: n, ..s }),
            None => None,
        },
        StatusKey::NextSongId => match unsigned_of(v) {
            Some(n) => Some(StatusView { nextsongid: n, ..s }),
            None => None,
        },
    }
}

/// Sets the field `k` of `r` from the text `v`; false, with `r` unchanged,
/// when `v` is not a valid value for that field.
pub fn set_status_field(r: &mut StatusSnapshot, k: StatusKey, v: &[u8]) -> (ok: bool)
    ensures
        ok == status_with(old(r)@, k, v@) is Some,
        ok ==> status_with(old(r)@, k, v@) == Some(final(r)@),
        !ok ==> final(r)@ == old(r)@,
{
    match k {
        StatusKey::Volume => match parse_unsigned(v) {
            Some(n) => {
                r.volume = n;
                true
            },
            None => false,
        },
        StatusKey::Repeat => match parse_unsigned(v) {
            Some(n) => {
                r.repeat = n;
                true
            },
            None => false,
        },
        StatusKey::Random => match parse_unsigned(v) {
            Some(n) => {
                r.random = n;
                true
            },
            None => false,
        },
        StatusKey::Single => match parse_unsigned(v) {
            Some(n) => {
                r.single = n;
                true
            },
            None => false,
        },
        StatusKey::Consume => match parse_unsigned(v) {
            Some(n) => {
                r.consume = n;
                true
            },
            None => false,
        },
        StatusKey::Partition => {
            r.partition = slice_to_vec(v);
            true
        },
        StatusKey::Playlist => match parse_unsigned(v) {
            Some(n) => {
                r.playlist = n;
                true
            },
            None => false,
        },
        StatusKey::PlaylistLength => match parse_unsigned(v) {
            Some(n) => {
                r.playlistlength = n;
                true
            },
            None => false,
        },
        StatusKey::MixRampDb => if check_float(v) {
            r.mixrampdb = slice_to_vec(v);
            true
        } else {
            false
        },
        StatusKey::State => {
            match parse_state(v) {
                Some(p) => {
                    r.state = p;
                },
                None => {},
            }
            true
        },
        StatusKey::Song => match parse_unsigned(v) {
            Some(n) => {
                r.song = n;
                true
            },
            None => false,
        },
        StatusKey::SongId => match parse_unsigned(v) {
            Some(n) => {
                r.songid = n;
                true
            },
            None => false,
        },
        StatusKey::Time => {
            r.time = slice_to_vec(v);
            true
        },
        StatusKey::Elapsed => if check_float(v) {
            r.elapsed = slice_to_vec(v);
            true
        } else {
            false
        },
        StatusKey::Bitrate => match parse_unsigned(v) {
            Some(n) => {
                r.bitrate = n;
                true
            },
            None => false,
        },
        StatusKey::Duration => if check_float(v) {
            r.duration = slice_to_vec(v);
            true
        } else {
            false
        },
        StatusKey::Audio => {
            r.audio = slice_to_vec(v);
            true
        },
        StatusKey::NextSong => match parse_unsigned(v) {
            Some(n) => {
                r.nextsong = n;
                true
            },
            None => false,
        },
        StatusKey::NextSongId => match parse_unsigned(v) {
            Some(n) => {
                r.nextsongid = n;
                true
            },
            None => false,
        },
    }
}
/// The status after one line: a line with a known key sets that field,
/// any other line leaves the status as it is.
pub open spec fn status_line(s: StatusView, line: Seq<u8>) -> Option<StatusView> {
    match status_key_of(field_key(line)) {
        Some(k) => status_with(s, k, field_value(line)),
        None => Some(s),
    }
}

/// The status after the lines of `b` before `end`, scanning from `i` in
/// the line that starts at `ls`; `None` once a value fails to read.
pub open spec fn status_scan(b: Seq<u8>, ls: int, i: int, end: int, s: StatusView) -> Option<
    StatusView,
>
    decreases end - i,
{
    if i < 0 || i >= end || end > b.len() {
        Some(s)
    } else if b[i] == newline() {
        match status_line(s, b.subrange(ls, i)) {
            Some(t) => status_scan(b, i + 1, i + 1, end, t),
            None => None,
        }
    } else {
        status_scan(b, ls, i + 1, end, s)
    }
}

/// What a `status` response reads as: the fields before an `OK`
/// terminator applied in order to the default status; a parse error when a
/// value fails to read; a protocol error for any other framing.
pub open spec fn status_result(b: Seq<u8>) -> Result<StatusView, MpdError> {
    match frame_of(b) {
        Frame::Complete { ack: false, term_start, .. } => match status_scan(
            b,
            0,
            0,
            term_start as int,
            default_status(),
        ) {
            Some(s) => Ok(s),
            None => Err(MpdError::Parse),
        },
        _ => Err(MpdError::Protocol),
    }
}

/// `r` is what parsing `b` as a status response gives.
pub open spec fn status_parsed(b: Seq<u8>, r: Result<StatusSnapshot, MpdError>) -> bool {
    match r {
        Ok(s) => status_result(b) == Ok::<StatusView, MpdError>(s@),
        Err(e) => status_result(b) == Err::<StatusView, MpdError>(e),
    }
}

/// Parses a complete `status` response.
pub fn parse_status(resp: &[u8]) -> (r: Result<StatusSnapshot, MpdError>)
    ensures
        status_parsed(resp@, r),
{
    match frame(resp) {
        Frame::Complete { ack: false, term_start, .. } => {
            let mut st = StatusSnapshot::new();
            let mut ls: usize = 0;
            let mut i: usize = 0;
            while i < term_start
                invariant
                    ls <= i <= term_start <= resp@.len(),
                    frame_of(resp@) matches Frame::Complete { ack: false, term_start: t, .. }
                        && t == term_start,
                    status_scan(resp@, 0, 0, term_start as int, default_status()) == status_scan(
                        resp@,
                        ls as int,
                        i as int,
                        term_start as int,
                        st@,
                    ),
                decreases term_start - i,
            {
                if resp[i] == 0x0a {
                    let line = slice_subrange(resp, ls, i);
                    let (k, v) = split_field(line);
                    match status_key(k) {
                        Some(key) => {
                            if !set_status_field(&mut st, key, v) {
                                return Err(MpdError::Parse);
                            }
                        },
                        None => {},
                    }
                    ls = i + 1;
                }
                i = i + 1;
            }
            Ok(st)
        },
        _ => Err(MpdError::Protocol),
    }
}

/// A line whose key is a status key and whose value does not read as that
/// field's type.
pub open spec fn status_line_invalid(line: Seq<u8>) -> bool {
    status_key_of(field_key(line)) matches Some(k) && status_with(
        default_status(),
        k,
        field_value(line),
    ) is None
}

proof fn lemma_status_with_fails(s: StatusView, k: StatusKey, v: Seq<u8>)
    ensures
        status_with(s, k, v) is None == status_with(default_status(), k, v) is None,
{
}

proof fn lemma_status_scan_fails(
    b: Seq<u8>,
    ls: int,
    i: int,
    end: int,
    s: StatusView,
    fs: int,
    fe: int,
)
    requires
        0 <= ls <= i <= fe < end <= b.len(),
        0 <= fs <= fe,
        b[fe] == newline(),
        forall|j: int| fs <= j < fe ==> b[j] != newline(),
        forall|j: int| ls <= j < i ==> b[j] != newline(),
        fs == ls || (ls < fs && b[fs - 1] == newline()),
        status_line_invalid(b.subrange(fs, fe)),
    ensures
        status_scan(b, ls, i, end, s) is None,
    decreases end - i,
{
    if b[i] == newline() {
        if ls == fs {
            let line = b.subrange(fs, fe);
            let k = status_key_of(field_key(line))->Some_0;
            lemma_status_with_fails(s, k, field_value(line));
        } else {
            match status_line(s, b.subrange(ls, i)) {
                Some(t) => {
                    assert(b[fs - 1] == newline());
                    assert(i <= fs - 1);
                    lemma_status_scan_fails(b, i + 1, i + 1, end, t, fs, fe);
                },
                None => {},
            }
        }
    } else {
        lemma_status_scan_fails(b, ls, i + 1, end, s, fs, fe);
    }
}

/// Parsing a status response is a function of its text: two parses of the
/// same bytes give the same record, or the same error.
pub proof fn lemma_status_parse_deterministic(
    b: Seq<u8>,
    r1: Result<StatusSnapshot, MpdError>,
    r2: Result<StatusSnapshot, MpdError>,
)
    requires
        status_parsed(b, r1),
        status_parsed(b, r2),
    ensures
        r1 is Ok <==> r2 is Ok,
        r1 is Ok ==> r1->Ok_0@ == r2->Ok_0@,
        r1 is Err ==> r1->Err_0 == r2->Err_0,
{
}

/// A response that has no `OK` or `ACK` terminator line, because a line
/// that is neither a field nor a terminator comes first or because none
/// has come, gives a protocol error and no status.
pub proof fn lemma_status_needs_terminator(b: Seq<u8>)
    requires
        !(frame_of(b) is Complete),
    ensures
        status_result(b) == Err::<StatusView, MpdError>(MpdError::Protocol),
{
}

/// A status response with a line, anywhere before its `OK`, whose value
/// does not read as its field's type gives a parse error and no status.
pub proof fn lemma_status_bad_value(b: Seq<u8>, fs: int, fe: int)
    requires
        frame_of(b) matches Frame::Complete { ack: false, term_start, .. } && fe < term_start
            <= b.len(),
        0 <= fs <= fe,
        fs == 0 || b[fs - 1] == newline(),
        b[fe] == newline(),
        forall|j: int| fs <= j < fe ==> b[j] != newline(),
        status_line_invalid(b.subrange(fs, fe)),
    ensures
        status_result(b) == Err::<StatusView, MpdError>(MpdError::Parse),
{
    let ts = frame_of(b)->term_start as int;
    lemma_status_scan_fails(b, 0, 0, ts, default_status(), fs, fe);
}

} // verus!
