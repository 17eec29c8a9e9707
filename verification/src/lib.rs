//! A verified core for sharing one live process session among many viewers.
//!
//! Every viewer of a session sees the same ordered transcript: lines the
//! process prints, interleaved with lines any viewer types. The modules here
//! hold the verified logic of that bridge; the asynchronous plumbing around a
//! real process and real connections lives outside the library.
//!
//! - [`history`]: the bounded FIFO log used to catch late joiners up.
//! - [`hub`]: the single ordered ingestion point and its fan-out to
//!   subscribers, with the fail-fast slow-consumer policy.
//! - [`supervisor`]: the decision logic around the process's input writer and
//!   output reader tasks (line framing, trimming, failure latching).
//! - [`bridge`]: one viewer's attachment: snapshot replay, outbound relay,
//!   and inbound loopback of viewer input.
//! - [`viewer`]: the viewer-side line editor that turns key events into
//!   submitted input lines.
//! - [`ansi`]: the viewer-side parser that splits a message into colored
//!   spans along ANSI color escape sequences.

use vstd::prelude::*;

pub mod ansi;
pub mod bridge;
pub mod history;
pub mod hub;
pub mod supervisor;
pub mod viewer;

verus! {

/// Default capacity of the shared history buffer: how many of the most
/// recent messages are replayed to a newly attaching viewer.
pub const MAX_MESSAGES: usize = 256;

} // verus!
