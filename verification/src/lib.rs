//! A channel that carries a single message, once.
//!
//! `Oneshot` holds the message, the flag word and those who wait. `Sender`, `Receiver` and
//! `Peeker` are its ends: each knows which channel it belongs to and is handed that channel when
//! it acts. `laws`, `steps`, `runs`, `waking` and `history` hold what is true of the channel: of each
//! thing that is done to it, and of any course of things.

pub mod flags;
pub mod history;
pub mod laws;
pub mod oneshot;
pub mod peeker;
pub mod queue;
pub mod recver;
pub mod runs;
pub mod sender;
pub mod steps;
pub mod text;
pub mod waking;

pub use flags::{Flags, FlagsView};
pub use oneshot::{Answers, ChanView, Oneshot, Polled, RecvFuture};
pub use peeker::{PeekAsync, PeekFuture, Peeker};
pub use queue::{WakeQueue, Waiter};
pub use recver::{ReceiveAsync, Receiver, RxError};
pub use sender::{SendTask, Sender, TxError};
