//! Framing of server responses: a response is a run of `key: value` lines
//! closed by a terminator line, `OK` on success or `ACK ...` on failure.
//! Any other line before the terminator belongs to the response; the field
//! parsers ignore lines that hold no colon.
use vstd::prelude::*;
use vstd::slice::{slice_subrange, slice_to_vec};
use crate::text::{first_index, find_byte, has_prefix, same_bytes, starts_with};

verus! {

/// Where a buffer stands with respect to one complete response.
#[derive(Clone, Copy, Debug, PartialEq, Eq, Structural)]
pub enum Frame {
    /// No terminator line has arrived yet.
    Incomplete,
    /// A full response: its terminator line starts at `term_start` and the
    /// response ends (after that line's newline) at `end`.
    Complete { ack: bool, term_start: usize, end: usize },
}

pub open spec fn newline() -> u8 {
    0x0a
}

pub open spec fn ok_text() -> Seq<u8> {
    seq!['O' as u8, 'K' as u8]
}

pub open spec fn ack_text() -> Seq<u8> {
    seq!['A' as u8, 'C' as u8, 'K' as u8]
}

pub open spec fn greeting_text() -> Seq<u8> {
    seq!['O' as u8, 'K' as u8, ' ' as u8, 'M' as u8, 'P' as u8, 'D' as u8]
}

/// The success terminator: a line that is exactly `OK`.
pub open spec fn is_ok_line(line: Seq<u8>) -> bool {
    line == ok_text()
}

/// The failure terminator: a line that begins with `ACK`.
pub open spec fn is_ack_line(line: Seq<u8>) -> bool {
    starts_with(line, ack_text())
}

/// Framing of `b`, scanning from position `i` inside the line that starts
/// at `ls`.
pub open spec fn frame_scan(b: Seq<u8>, ls: int, i: int) -> Frame
    decreases b.len() - i,
{
    if i < 0 || i >= b.len() {
        Frame::Incomplete
    } else if b[i] == newline() {
        let line = b.subrange(ls, i);
        if is_ok_line(line) {
            Frame::Complete { ack: false, term_start: ls as usize, end: (i + 1) as usize }
        } else if is_ack_line(line) {
            Frame::Complete { ack: true, term_start: ls as usize, end: (i + 1) as usize }
        } else {
            frame_scan(b, i + 1, i + 1)
        }
    } else {
        frame_scan(b, ls, i + 1)
    }
}

/// Whether a line is the success terminator.
pub fn check_ok_line(line: &[u8]) -> (r: bool)
    ensures
        r == is_ok_line(line@),
{
    let ok: [u8; 2] = ['O' as u8, 'K' as u8];
    assert(ok@ == ok_text());
    same_bytes(line, &ok)
}

/// Whether a line is the failure terminator.
pub fn check_ack_line(line: &[u8]) -> (r: bool)
    ensures
        r == is_ack_line(line@),
{
    let ack: [u8; 3] = ['A' as u8, 'C' as u8, 'K' as u8];
    assert(ack@ == ack_text());
    has_prefix(line, &ack)
}

/// Framing of the response at the front of `b`.
pub open spec fn frame_of(b: Seq<u8>) -> Frame {
    frame_scan(b, 0, 0)
}

/// Finds the end of the response at the front of `buf`: the first line that
/// is `OK` or begins with `ACK` ends it.
pub fn frame(buf: &[u8]) -> (r: Frame)
    ensures
        r == frame_of(buf@),
        r matches Frame::Complete { term_start, end, .. } ==> term_start < end <= buf@.len(),
{
    let mut ls: usize = 0;
    let mut i: usize = 0;
    while i < buf.len()
        invariant
            ls <= i <= buf@.len(),
            frame_of(buf@) == frame_scan(buf@, ls as int, i as int),
        decreases buf@.len() - i,
    {
        if buf[i] == 0x0a {
            let line = slice_subrange(buf, ls, i);
            if check_ok_line(line) {
                return Frame::Complete { ack: false, term_start: ls, end: i + 1 };
            } else if check_ack_line(line) {
                return Frame::Complete { ack: true, term_start: ls, end: i + 1 };
            } else {
                ls = i + 1;
            }
        }
        i = i + 1;
    }
    Frame::Incomplete
}

/// The message of an `ACK [code@index] {command} message` line at the
/// front of `t`: what follows the first `}` after the first `{`, less the
/// one character after that `}`, up to the end of the line. `None` when the
/// line has no end, no `{` or no `}` after it.
pub open spec fn ack_message_of(t: Seq<u8>) -> Option<Seq<u8>> {
    let nl = first_index(t, newline(), 0);
    let open = first_index(t, '{' as u8, 0);
    let close = first_index(t, '}' as u8, open);
    if nl < t.len() && open < nl && close < nl {
        Some(t.subrange(if close + 2 <= nl { close + 2 } else { nl }, nl))
    } else {
        None
    }
}

/// Extracts the human-readable message from an `ACK` line.
pub fn ack_message(t: &[u8]) -> (r: Option<Vec<u8>>)
    ensures
        r matches Some(m) ==> ack_message_of(t@) == Some(m@),
        r is None ==> ack_message_of(t@) is None,
{
    let nl = find_byte(t, 0x0a, 0);
    let open = find_byte(t, '{' as u8, 0);
    if nl >= t.len() || open >= nl {
        return None;
    }
    let close = find_byte(t, '}' as u8, open);
    if close >= nl {
        return None;
    }
    let from = if close + 2 <= nl {
        close + 2
    } else {
        nl
    };
    Some(slice_to_vec(slice_subrange(t, from, nl)))
}

/// The server's greeting: a first line that begins with `OK MPD`.
pub open spec fn is_greeting(line: Seq<u8>) -> bool {
    starts_with(line, greeting_text())
}

/// Whether a line is the server's greeting.
pub fn check_greeting(line: &[u8]) -> (r: bool)
    ensures
        r == is_greeting(line@),
{
    let g: [u8; 6] = ['O' as u8, 'K' as u8, ' ' as u8, 'M' as u8, 'P' as u8, 'D' as u8];
    assert(g@ == greeting_text());
    has_prefix(line, &g)
}

} // verus!
