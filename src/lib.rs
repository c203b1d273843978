//! Client-side handling of a music server's line-based control protocol:
//! framing of responses, parsing of status and track records, and the
//! decisions of a command session.
use vstd::prelude::*;

pub mod frame;
pub mod model;
pub mod session;
pub mod status;
pub mod text;
pub mod track;

pub use model::{MpdError, StateOfPlay};
pub use session::{Action, Command, Connection, Pending};
pub use status::StatusSnapshot;
pub use track::TrackInfo;

verus! {

} // verus!
