//! The decisions of a Bluetooth Low Energy advertisement watcher.
//!
//! A watcher drives one scanning session of the platform's radio stack: it has the session
//! listen for advertisements, if wished only for those of peripherals that advertise given
//! services, and passes each advertisement that the session hands over to the caller's
//! callback.
//!
//! The session itself is out of this crate's reach. The crate decides which calls are
//! made on it, in which order, and what follows from each answer; the caller makes the
//! calls. [`watcher`] holds the watcher and its operations, [`calls`] the calls,
//! [`error`] the errors and the reading of the platform's answers, [`guid`] the
//! platform's layout of a service identifier, [`session`] a model of what the calls do
//! to a session, and [`laws`] what is proved of all this.
//!
//! A watcher is disarmed or armed. Three things are settled here that the platform
//! leaves open:
//! - a start on an armed watcher first disarms the session and then starts anew;
//! - a stop on a disarmed watcher succeeds without a call;
//! - a stop that fails leaves the watcher armed.

pub mod calls;
pub mod error;
pub mod filter;
pub mod guid;
pub mod laws;
pub mod session;
pub mod watcher;

pub use calls::{NativeCall, ScanningMode};
pub use error::{NativeOutcome, WatcherError};
pub use filter::ScanFilter;
pub use guid::Guid;
pub use watcher::{Attempt, BLEWatcher, Step, WatcherState};
