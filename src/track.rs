//! The track record: metadata of the current song.
use vstd::prelude::*;
use vstd::slice::{slice_subrange, slice_to_vec};
use crate::frame::{frame, frame_of, newline, Frame};
use crate::model::MpdError;
use crate::text::{
    check_float, field_key, field_value, is_float_text, parse_unsigned, same_bytes, split_field,
    unsigned_of, zero, zero_text,
};

verus! {

/// One answer to a `currentsong` query. `duration` is kept as the text the
/// server sent, once it reads as a number; `time` is the duration in whole seconds.
pub struct TrackInfo {
    pub file: Vec<u8>,
    pub last_modified: Vec<u8>,
    pub artist: Vec<u8>,
    pub title: Vec<u8>,
    pub album: Vec<u8>,
    pub track: usize,
    pub date: usize,
    pub genre: Vec<u8>,
    pub time: usize,
    pub duration: Vec<u8>,
    pub pos: usize,
    pub id: usize,
}

pub ghost struct TrackView {
    pub file: Seq<u8>,
    pub last_modified: Seq<u8>,
    pub artist: Seq<u8>,
    pub title: Seq<u8>,
    pub album: Seq<u8>,
    pub track: usize,
    pub date: usize,
    pub genre: Seq<u8>,
    pub time: usize,
    pub duration: Seq<u8>,
    pub pos: usize,
    pub id: usize,
}

impl View for TrackInfo {
    type V = TrackView;

    open spec fn view(&self) -> TrackView {
        TrackView {
            file: self.file@,
            last_modified: self.last_modified@,
            artist: self.artist@,
            title: self.title@,
            album: self.album@,
            track: self.track,
            date: self.date,
            genre: self.genre@,
            time: self.time,
            duration: self.duration@,
            pos: self.pos,
            id: self.id,
        }
    }
}

/// A track with no field given: every number 0 (`"0"` for the duration,
/// kept as text) and every text empty.
pub open spec fn default_track() -> TrackView {
    TrackView {
        file: Seq::empty(),
        last_modified: Seq::empty(),
        artist: Seq::empty(),
        title: Seq::empty(),
        album: Seq::empty(),
        track: 0,
        date: 0,
        genre: Seq::empty(),
        time: 0,
        duration: zero_text(),
        pos: 0,
        id: 0,
    }
}

impl TrackInfo {
    /// A track with every field at its default.
    pub fn new() -> (r: TrackInfo)
        ensures
            r@ == default_track(),
    {
        TrackInfo {
            file: Vec::new(),
            last_modified: Vec::new(),
            artist: Vec::new(),
            title: Vec::new(),
            album: Vec::new(),
            track: 0,
            date: 0,
            genre: Vec::new(),
            time: 0,
            duration: zero(),
            pos: 0,
            id: 0,
        }
    }
}

/// The track keys that the parser reads.
#[derive(Clone, Copy, Debug, PartialEq, Eq, Structural)]
pub enum TrackKey {
    File,
    LastModified,
    Artist,
    Title,
    Album,
    Track,
    Date,
    Genre,
    Time,
    Duration,
    Pos,
    Id,
}

/// The track key that `k` names, if any (case-sensitive).
pub open spec fn track_key_of(k: Seq<u8>) -> Option<TrackKey> {
    if k == seq!['f' as u8, 'i' as u8, 'l' as u8, 'e' as u8] {
        Some(TrackKey::File)
    } else if k == seq!['L' as u8, 'a' as u8, 's' as u8, 't' as u8, '-' as u8, 'M' as u8, 'o' as u8, 'd' as u8, 'i' as u8, 'f' as u8, 'i' as u8, 'e' as u8, 'd' as u8] {
        Some(TrackKey::LastModified)
    } else if k == seq!['A' as u8, 'r' as u8, 't' as u8, 'i' as u8, 's' as u8, 't' as u8] {
        Some(TrackKey::Artist)
    } else if k == seq!['T' as u8, 'i' as u8, 't' as u8, 'l' as u8, 'e' as u8] {
        Some(TrackKey::Title)
    } else if k == seq!['A' as u8, 'l' as u8, 'b' as u8, 'u' as u8, 'm' as u8] {
        Some(TrackKey::Album)
    } else if k == seq!['T' as u8, 'r' as u8, 'a' as u8, 'c' as u8, 'k' as u8] {
        Some(TrackKey::Track)
    } else if k == seq!['D' as u8, 'a' as u8, 't' as u8, 'e' as u8] {
        Some(TrackKey::Date)
    } else if k == seq!['G' as u8, 'e' as u8, 'n' as u8, 'r' as u8, 'e' as u8] {
        Some(TrackKey::Genre)
    } else if k == seq!['T' as u8, 'i' as u8, 'm' as u8, 'e' as u8] {
        Some(TrackKey::Time)
    } else if k == seq!['d' as u8, 'u' as u8, 'r' as u8, 'a' as u8, 't' as u8, 'i' as u8, 'o' as u8, 'n' as u8] {
        Some(TrackKey::Duration)
    } else if k == seq!['P' as u8, 'o' as u8, 's' as u8] {
        Some(TrackKey::Pos)
    } else if k == seq!['I' as u8, 'd' as u8] {
        Some(TrackKey::Id)
    } else {
        None
    }
}

/// Looks up the track key that `k` names.
pub fn track_key(k: &[u8]) -> (r: Option<TrackKey>)
    ensures
        r == track_key_of(k@),
{
    let n0: [u8; 4] = ['f' as u8, 'i' as u8, 'l' as u8, 'e' as u8];
    assert(n0@ == seq!['f' as u8, 'i' as u8, 'l' as u8, 'e' as u8]);
    if same_bytes(k, &n0) {
        return Some(TrackKey::File);
    }
    let n1: [u8; 13] = ['L' as u8, 'a' as u8, 's' as u8, 't' as u8, '-' as u8, 'M' as u8, 'o' as u8, 'd' as u8, 'i' as u8, 'f' as u8, 'i' as u8, 'e' as u8, 'd' as u8];
    assert(n1@ == seq!['L' as u8, 'a' as u8, 's' as u8, 't' as u8, '-' as u8, 'M' as u8, 'o' as u8, 'd' as u8, 'i' as u8, 'f' as u8, 'i' as u8, 'e' as u8, 'd' as u8]);
    if same_bytes(k, &n1) {
        return Some(TrackKey::LastModified);
    }
    let n2: [u8; 6] = ['A' as u8, 'r' as u8, 't' as u8, 'i' as u8, 's' as u8, 't' as u8];
    assert(n2@ == seq!['A' as u8, 'r' as u8, 't' as u8, 'i' as u8, 's' as u8, 't' as u8]);
    if same_bytes(k, &n2) {
        return Some(TrackKey::Artist);
    }
    let n3: [u8; 5] = ['T' as u8, 'i' as u8, 't' as u8, 'l' as u8, 'e' as u8];
    assert(n3@ == seq!['T' as u8, 'i' as u8, 't' as u8, 'l' as u8, 'e' as u8]);
    if same_bytes(k, &n3) {
        return Some(TrackKey::Title);
    }
    let n4: [u8; 5] = ['A' as u8, 'l' as u8, 'b' as u8, 'u' as u8, 'm' as u8];
    assert(n4@ == seq!['A' as u8, 'l' as u8, 'b' as u8, 'u' as u8, 'm' as u8]);
    if same_bytes(k, &n4) {
        return Some(TrackKey::Album);
    }
    let n5: [u8; 5] = ['T' as u8, 'r' as u8, 'a' as u8, 'c' as u8, 'k' as u8];
    assert(n5@ == seq!['T' as u8, 'r' as u8, 'a' as u8, 'c' as u8, 'k' as u8]);
    if same_bytes(k, &n5) {
        return Some(TrackKey::Track);
    }
    let n6: [u8; 4] = ['D' as u8, 'a' as u8, 't' as u8, 'e' as u8];
    assert(n6@ == seq!['D' as u8, 'a' as u8, 't' as u8, 'e' as u8]);
    if same_bytes(k, &n6) {
        return Some(TrackKey::Date);
    }
    let n7: [u8; 5] = ['G' as u8, 'e' as u8, 'n' as u8, 'r' as u8, 'e' as u8];
    assert(n7@ == seq!['G' as u8, 'e' as u8, 'n' as u8, 'r' as u8, 'e' as u8]);
    if same_bytes(k, &n7) {
        return Some(TrackKey::Genre);
    }
    let n8: [u8; 4] = ['T' as u8, 'i' as u8, 'm' as u8, 'e' as u8];
    assert(n8@ == seq!['T' as u8, 'i' as u8, 'm' as u8, 'e' as u8]);
    if same_bytes(k, &n8) {
        return Some(TrackKey::Time);
    }
    let n9: [u8; 8] = ['d' as u8, 'u' as u8, 'r' as u8, 'a' as u8, 't' as u8, 'i' as u8, 'o' as u8, 'n' as u8];
    assert(n9@ == seq!['d' as u8, 'u' as u8, 'r' as u8, 'a' as u8, 't' as u8, 'i' as u8, 'o' as u8, 'n' as u8]);
    if same_bytes(k, &n9) {
        return Some(TrackKey::Duration);
    }
    let n10: [u8; 3] = ['P' as u8, 'o' as u8, 's' as u8];
    assert(n10@ == seq!['P' as u8, 'o' as u8, 's' as u8]);
    if same_bytes(k, &n10) {
        return Some(TrackKey::Pos);
    }
    let n11: [u8; 2] = ['I' as u8, 'd' as u8];
    assert(n11@ == seq!['I' as u8, 'd' as u8]);
    if same_bytes(k, &n11) {
        return Some(TrackKey::Id);
    }
    None
}

/// The record after the field `k` is set from the text `v`; `None` when
/// `v` is not a valid value for that field.
pub open spec fn track_with(s: TrackView, k: TrackKey, v: Seq<u8>) -> Option<TrackView> {
    match k {
        TrackKey::File => Some(TrackView { file: v, ..s }),
        TrackKey::LastModified => Some(TrackView { last_modified: v, ..s }),
        TrackKey::Artist => Some(TrackView { artist: v, ..s }),
        TrackKey::Title => Some(TrackView { title: v, ..s }),
        TrackKey::Album => Some(TrackView { album: v, ..s }),
        TrackKey::Track => match unsigned_of(v) {
            Some(n) => Some(TrackView { track: n, ..s }),
            None => None,
        },
        TrackKey::Date => match unsigned_of(v) {
            Some(n) => Some(TrackView { date: n, ..s }),
            None => None,
        },
        TrackKey::Genre => Some(TrackView { genre: v, ..s }),
        TrackKey::Time => match unsigned_of(v) {
            Some(n) => Some(TrackView { time: n, ..s }),
            None => None,
        },
        TrackKey::Duration => if is_float_text(v) {
            Some(TrackView { duration: v, ..s })
        } else {
            None
        },
        TrackKey::Pos => match unsigned_of(v) {
            Some(n) => Some(TrackView { pos: n, ..s }),
            None => None,
        },
        TrackKey::Id => match unsigned_of(v) {
            Some(n) => Some(TrackView { id: n, ..s }),
            None => None,
        },
    }
}

/// Sets the field `k` of `r` from the text `v`; false, with `r` unchanged,
/// when `v` is not a valid value for that field.
pub fn set_track_field(r: &mut TrackInfo, k: TrackKey, v: &[u8]) -> (ok: bool)
    ensures
        ok == track_with(old(r)@, k, v@) is Some,
        ok ==> track_with(old(r)@, k, v@) == Some(final(r)@),
        !ok ==> final(r)@ == old(r)@,
{
    match k {
        TrackKey::File => {
            r.file = slice_to_vec(v);
            true
        },
        TrackKey::LastModified => {
            r.last_modified = slice_to_vec(v);
            true
        },
        TrackKey::Artist => {
            r.artist = slice_to_vec(v);
            true
        },
        TrackKey::Title => {
            r.title = slice_to_vec(v);
            true
        },
        TrackKey::Album => {
            r.album = slice_to_vec(v);
            true
        },
        TrackKey::Track => match parse_unsigned(v) {
            Some(n) => {
                r.track = n;
                true
            },
            None => false,
        },
        TrackKey::Date => match parse_unsigned(v) {
            Some(n) => {
                r.date = n;
                true
            },
            None => false,
        },
        TrackKey::Genre => {
            r.genre = slice_to_vec(v);
            true
        },
        TrackKey::Time => match parse_unsigned(v) {
            Some(n) => {
                r.time = n;
                true
            },
            None => false,
        },
        TrackKey::Duration => if check_float(v) {
            r.duration = slice_to_vec(v);
            true
        } else {
            false
        },
        TrackKey::Pos => match parse_unsigned(v) {
            Some(n) => {
                r.pos = n;
                true
            },
            None => false,
        },
        TrackKey::Id => match parse_unsigned(v) {
            Some(n) => {
                r.id = n;
                true
            },
            None => false,
        },
    }
}
/// The track after one line: a line with a known key sets that field,
/// any other line leaves the track as it is.
pub open spec fn track_line(s: TrackView, line: Seq<u8>) -> Option<TrackView> {
    match track_key_of(field_key(line)) {
        Some(k) => track_with(s, k, field_value(line)),
        None => Some(s),
    }
}

/// The track after the lines of `b` before `end`, scanning from `i` in the
/// line that starts at `ls`; `None` once a value fails to read.
pub open spec fn track_scan(b: Seq<u8>, ls: int, i: int, end: int, s: TrackView) -> Option<
    TrackView,
>
    decreases end - i,
{
    if i < 0 || i >= end || end > b.len() {
        Some(s)
    } else if b[i] == newline() {
        match track_line(s, b.subrange(ls, i)) {
            Some(t) => track_scan(b, i + 1, i + 1, end, t),
            None => None,
        }
    } else {
        track_scan(b, ls, i + 1, end, s)
    }
}

/// What a `currentsong` response reads as: the fields before an `OK`
/// terminator applied in order to the default track; a parse error when a
/// value fails to read; a protocol error for any other framing.
pub open spec fn track_result(b: Seq<u8>) -> Result<TrackView, MpdError> {
    match frame_of(b) {
        Frame::Complete { ack: false, term_start, .. } => match track_scan(
            b,
            0,
            0,
            term_start as int,
            default_track(),
        ) {
            Some(s) => Ok(s),
            None => Err(MpdError::Parse),
        },
        _ => Err(MpdError::Protocol),
    }
}

/// `r` is what parsing `b` as a `currentsong` response gives.
pub open spec fn track_parsed(b: Seq<u8>, r: Result<TrackInfo, MpdError>) -> bool {
    match r {
        Ok(s) => track_result(b) == Ok::<TrackView, MpdError>(s@),
        Err(e) => track_result(b) == Err::<TrackView, MpdError>(e),
    }
}

/// Parses a complete `currentsong` response.
pub fn parse_track(resp: &[u8]) -> (r: Result<TrackInfo, MpdError>)
    ensures
        track_parsed(resp@, r),
{
    match frame(resp) {
        Frame::Complete { ack: false, term_start, .. } => {
            let mut tr = TrackInfo::new();
            let mut ls: usize = 0;
            let mut i: usize = 0;
            while i < term_start
                invariant
                    ls <= i <= term_start <= resp@.len(),
                    frame_of(resp@) matches Frame::Complete { ack: false, term_start: t, .. }
                        && t == term_start,
                    track_scan(resp@, 0, 0, term_start as int, default_track()) == track_scan(
                        resp@,
                        ls as int,
                        i as int,
                        term_start as int,
                        tr@,
                    ),
                decreases term_start - i,
            {
                if resp[i] == 0x0a {
                    let line = slice_subrange(resp, ls, i);
                    let (k, v) = split_field(line);
                    match track_key(k) {
                        Some(key) => {
                            if !set_track_field(&mut tr, key, v) {
                                return Err(MpdError::Parse);
                            }
                        },
                        None => {},
                    }
                    ls = i + 1;
                }
                i = i + 1;
            }
            Ok(tr)
        },
        _ => Err(MpdError::Protocol),
    }
}

/// The reply that describes a track: `<artist> - <title>`.
pub open spec fn reply_text(t: TrackView) -> Seq<u8> {
    t.artist + seq![' ' as u8, '-' as u8, ' ' as u8] + t.title
}

/// Formats the reply that describes a track.
pub fn format_reply(t: &TrackInfo) -> (r: Vec<u8>)
    ensures
        r@ == reply_text(t@),
{
    let mut out = t.artist.clone();
    out.push(' ' as u8);
    out.push('-' as u8);
    out.push(' ' as u8);
    let mut i: usize = 0;
    while i < t.title.len()
        invariant
            i <= t.title@.len(),
            out@ == t.artist@ + seq![' ' as u8, '-' as u8, ' ' as u8] + t.title@.subrange(
                0,
                i as int,
            ),
        decreases t.title@.len() - i,
    {
        proof {
            assert(t.title@.subrange(0, i + 1) =~= t.title@.subrange(0, i as int).push(
                t.title@[i as int],
            ));
        }
        out.push(t.title[i]);
        i = i + 1;
    }
    proof {
        assert(t.title@.subrange(0, t.title@.len() as int) =~= t.title@);
    }
    out
}

/// Parsing a `currentsong` response is a function of its text: two parses
/// of the same bytes give the same record, or the same error.
pub proof fn lemma_track_parse_deterministic(
    b: Seq<u8>,
    r1: Result<TrackInfo, MpdError>,
    r2: Result<TrackInfo, MpdError>,
)
    requires
        track_parsed(b, r1),
        track_parsed(b, r2),
    ensures
        r1 is Ok <==> r2 is Ok,
        r1 is Ok ==> r1->Ok_0@ == r2->Ok_0@,
        r1 is Err ==> r1->Err_0 == r2->Err_0,
{
}

/// A response that has no `OK` or `ACK` terminator line gives a protocol
/// error and no track.
pub proof fn lemma_track_needs_terminator(b: Seq<u8>)
    requires
        !(frame_of(b) is Complete),
    ensures
        track_result(b) == Err::<TrackView, MpdError>(MpdError::Protocol),
{
}

} // verus!
