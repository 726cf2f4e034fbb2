//! Two alarm clocks ("tomorrow" and "usual") edited locally and kept
//! eventually consistent with a remote store over an unreliable network.
//!
//! Values carry a provenance tag: `Pending` for a value authored locally
//! and not yet confirmed, `Synced` for a value the remote store confirmed.
//! The session applies user edits optimistically and pushes them; a
//! reconciler accepts an asynchronous confirmation only while the
//! acknowledged value is still the slot's current value, so a stale
//! acknowledgment can never overwrite a newer edit; failed network intents
//! are captured exactly and re-issued unchanged after a fixed delay.

pub mod api;
pub mod clock;
pub mod session;

pub use api::{Api, Error, PushRequest};
pub use clock::{AlarmTime, Clocks, Slot, Time};
pub use session::{Action, Alarm, Intent, Message};
