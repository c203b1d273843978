//! The playback state that the server reports, and the kinds of failure.
use vstd::prelude::*;
use crate::text::same_bytes;

verus! {

/// The transport state of the server: stopped, paused or playing.
#[derive(Clone, Copy, Debug, PartialEq, Eq, Structural)]
pub enum StateOfPlay {
    Stop,
    Pause,
    Play,
}

/// Why an operation failed.
#[derive(Clone, Copy, Debug, PartialEq, Eq, Structural)]
pub enum MpdError {
    /// The socket could not be reached, or the greeting was missing or wrong.
    Connection,
    /// Writing to or reading from the socket failed.
    Transport,
    /// The server's response has no recognised shape, or is too long.
    Protocol,
    /// A field value does not read as the type of its field.
    Parse,
}

/// The playback state that a `state` value names: `stop`, `pause` or `play`.
pub open spec fn state_of(v: Seq<u8>) -> Option<StateOfPlay> {
    if v == seq!['s' as u8, 't' as u8, 'o' as u8, 'p' as u8] {
        Some(StateOfPlay::Stop)
    } else if v == seq!['p' as u8, 'a' as u8, 'u' as u8, 's' as u8, 'e' as u8] {
        Some(StateOfPlay::Pause)
    } else if v == seq!['p' as u8, 'l' as u8, 'a' as u8, 'y' as u8] {
        Some(StateOfPlay::Play)
    } else {
        None
    }
}

/// Reads a `state` value.
pub fn parse_state(v: &[u8]) -> (r: Option<StateOfPlay>)
    ensures
        r == state_of(v@),
{
    let stop: [u8; 4] = ['s' as u8, 't' as u8, 'o' as u8, 'p' as u8];
    let pause: [u8; 5] = ['p' as u8, 'a' as u8, 'u' as u8, 's' as u8, 'e' as u8];
    let play: [u8; 4] = ['p' as u8, 'l' as u8, 'a' as u8, 'y' as u8];
    assert(stop@ == seq!['s' as u8, 't' as u8, 'o' as u8, 'p' as u8]);
    assert(pause@ == seq!['p' as u8, 'a' as u8, 'u' as u8, 's' as u8, 'e' as u8]);
    assert(play@ == seq!['p' as u8, 'l' as u8, 'a' as u8, 'y' as u8]);
    if same_bytes(v, &stop) {
        Some(StateOfPlay::Stop)
    } else if same_bytes(v, &pause) {
        Some(StateOfPlay::Pause)
    } else if same_bytes(v, &play) {
        Some(StateOfPlay::Play)
    } else {
        None
    }
}

} // verus!
