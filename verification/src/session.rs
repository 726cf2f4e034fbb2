//! The session: the two live clock slots and the state machine that maps
//! every incoming message to a state change and a follow-up action.
//!
//! A single logical thread owns the two slots.  User intents mutate the
//! edited slot optimistically and push it; network results come back as
//! messages and are reconciled against the current state, so that a stale
//! acknowledgment can never overwrite a newer local edit.

use crate::api::Error;
use crate::clock::{time_eq, valid_time, AlarmTime, Clocks, Slot, Time};
use vstd::prelude::*;

verus! {

/// The fixed delay before a failed intent is re-issued, in milliseconds.
/// There is no backoff and no cap: retries go on until one succeeds or a
/// fresh edit makes the old intent moot.
pub const RETRY_DELAY_MS: u64 = 2000;

/// A network intent captured exactly as it was issued, so that a retry
/// reproduces the original request rather than re-reading current state.
#[derive(Clone, Copy, Debug, PartialEq)]
pub enum Intent {
    /// The combined startup fetch of both slots.
    Fetch,
    /// A push of this clock value, as it was when the push was issued.
    Push(Clocks),
}

/// Everything the session can be told: user intents and network results.
#[derive(Clone, Debug, PartialEq)]
pub enum Message {
    /// Clear the edited slot.
    Clear,
    /// Add this many hours to the edited slot.
    AdjHour(i8),
    /// Add this many minutes to the edited slot.
    AdjMinute(i8),
    /// Re-issue the startup fetch after a failure.
    ReTryGetAlarms,
    /// Exchange which slot is being edited.
    SwapEdit,
    /// Re-issue a failed push, with the value captured at the first try.
    ReTrySync(Clocks),
    /// The remote store acknowledged a push of exactly this value.
    Synced(Clocks),
    /// The remote snapshot of both slots: tomorrow's time, then the usual
    /// time.
    RemoteAlarms(Time, Time),
    /// A fetch or push failed, with the intent that failed.
    RemoteError(Error, Intent),
}

impl Message {
    /// Times carried by a fetched snapshot lie within the clock's ranges;
    /// the boundary that decodes payloads guarantees this.
    pub open spec fn wf(self) -> bool {
        match self {
            Message::RemoteAlarms(t, u) => valid_time(t) && valid_time(u),
            _ => true,
        }
    }
}

/// What the caller must do next on the session's behalf.
#[derive(Clone, Copy, Debug, PartialEq)]
pub enum Action {
    /// Nothing.
    Idle,
    /// Transmit this clock value to the endpoint matching its slot.
    Push(Clocks),
    /// Fetch the remote snapshot of both slots.
    FetchBoth,
    /// Re-issue the intent after the fixed retry delay.
    RetryAfterDelay(Intent),
}

/// The session state: the slot currently being edited, the other slot, and
/// the most recent network error, if any (a new error replaces the old).
#[derive(Clone, Debug, PartialEq)]
pub struct Alarm {
    pub editing: Clocks,
    pub other: Clocks,
    pub last_error: Option<Error>,
}

impl Alarm {
    /// The two slots hold valid times and have distinct identities.
    pub open spec fn wf(self) -> bool {
        &&& self.editing.wf()
        &&& self.other.wf()
        &&& self.editing.spec_slot() != self.other.spec_slot()
    }

    /// The state every session starts in: both slots unset and locally
    /// authored, the "tomorrow" slot being edited.
    pub open spec fn spec_init() -> Alarm {
        Alarm {
            editing: Clocks::Tomorrow(AlarmTime::Pending(None)),
            other: Clocks::Usually(AlarmTime::Pending(None)),
            last_error: None,
        }
    }

    /// Clearing: the edited slot keeps its identity, its value becomes
    /// unset and locally authored.
    pub open spec fn spec_clear(self) -> Alarm {
        Alarm { editing: self.editing.spec_with_alarm(AlarmTime::Pending(None)), ..self }
    }

    /// Exchanging which slot is edited; both values are kept whole.
    pub open spec fn spec_swap(self) -> Alarm {
        Alarm { editing: self.other, other: self.editing, ..self }
    }

    /// Default inheritance: when the "tomorrow" slot is edited, is unset,
    /// and the "usual" slot holds a confirmed value, that value is seeded
    /// as the adjustment base.  The provenance tag is kept.
    pub open spec fn spec_seed_tomorrow(self) -> Alarm {
        if self.editing is Tomorrow && self.editing.spec_time() is None {
            match self.other.spec_alarm() {
                AlarmTime::Synced(Some(d)) => Alarm {
                    editing: self.editing.spec_with_alarm(
                        self.editing.spec_alarm().spec_retime(Some(d)),
                    ),
                    ..self
                },
                _ => self,
            }
        } else {
            self
        }
    }

    /// Default collapse: when the "tomorrow" slot is edited and its value
    /// now equals the usual value exactly, it falls back to unset ("no
    /// override; follow usual").  This never applies to the "usual" slot.
    pub open spec fn spec_collapse_tomorrow(self) -> Alarm {
        if self.editing is Tomorrow && self.editing.spec_time() == self.other.spec_time() {
            Alarm {
                editing: self.editing.spec_with_alarm(
                    self.editing.spec_alarm().spec_retime(None),
                ),
                ..self
            }
        } else {
            self
        }
    }

    /// An hour adjustment of the edited slot, bracketed by the seeding and
    /// collapse of the "tomorrow" default.
    pub open spec fn spec_adjust_editing_hour(self, n: int) -> Alarm {
        let s = self.spec_seed_tomorrow();
        let s2 = Alarm {
            editing: s.editing.spec_with_alarm(s.editing.spec_alarm().spec_adjust_hour(n)),
            ..s
        };
        s2.spec_collapse_tomorrow()
    }

    /// A minute adjustment of the edited slot, bracketed by the seeding and
    /// collapse of the "tomorrow" default.
    pub open spec fn spec_adjust_editing_min(self, n: int) -> Alarm {
        let s = self.spec_seed_tomorrow();
        let s2 = Alarm {
            editing: s.editing.spec_with_alarm(s.editing.spec_alarm().spec_adjust_min(n)),
            ..s
        };
        s2.spec_collapse_tomorrow()
    }

    /// The stale-acknowledgment rule: an acknowledgment promotes the slot
    /// whose identity it matches to `Synced`, and only when the
    /// acknowledged value still equals that slot's current value (the
    /// comparison ignores provenance).  Otherwise it is discarded silently:
    /// the user has edited since, and confirming the old value would
    /// overwrite the newer edit.
    pub open spec fn spec_reconcile(self, ack: Clocks) -> Alarm {
        if ack.spec_slot() == self.editing.spec_slot()
            && ack.spec_time() == self.editing.spec_time() {
            Alarm { editing: ack.spec_set_synced(), ..self }
        } else if ack.spec_slot() == self.other.spec_slot()
            && ack.spec_time() == self.other.spec_time() {
            Alarm { other: ack.spec_set_synced(), ..self }
        } else {
            self
        }
    }

    /// A fetched snapshot is ground truth: both slots are overwritten as
    /// confirmed, each keeping the role (edited or not) its identity
    /// currently plays.  There is no staleness check on this path.
    pub open spec fn spec_snapshot(self, tomorrow: Time, usually: Time) -> Alarm {
        if self.editing is Tomorrow {
            Alarm {
                editing: Clocks::Tomorrow(AlarmTime::Synced(tomorrow)),
                other: Clocks::Usually(AlarmTime::Synced(usually)),
                ..self
            }
        } else {
            Alarm {
                editing: Clocks::Usually(AlarmTime::Synced(usually)),
                other: Clocks::Tomorrow(AlarmTime::Synced(tomorrow)),
                ..self
            }
        }
    }

    /// The whole state machine: the state after a message and the action
    /// the caller must take for it.
    pub open spec fn spec_update(self, message: Message) -> (Alarm, Action) {
        match message {
            Message::Clear => {
                let s = self.spec_clear();
                (s, Action::Push(s.editing))
            },
            Message::AdjHour(h) => {
                let s = self.spec_adjust_editing_hour(h as int);
                (s, Action::Push(s.editing))
            },
            Message::AdjMinute(m) => {
                let s = self.spec_adjust_editing_min(m as int);
                (s, Action::Push(s.editing))
            },
            Message::ReTryGetAlarms => (self, Action::FetchBoth),
            Message::SwapEdit => (self.spec_swap(), Action::Idle),
            Message::ReTrySync(c) => (self, Action::Push(c)),
            Message::Synced(c) => (self.spec_reconcile(c), Action::Idle),
            Message::RemoteAlarms(t, u) => (self.spec_snapshot(t, u), Action::Idle),
            Message::RemoteError(e, i) => (
                Alarm { last_error: Some(e), ..self },
                Action::RetryAfterDelay(i),
            ),
        }
    }

    /// A fresh session, together with the startup fetch it must trigger.
    pub fn new() -> (r: (Alarm, Action))
        ensures
            r.0 == Alarm::spec_init(),
            r.1 == Action::FetchBoth,
            r.0.wf(),
    {
        let alarm = Alarm {
            editing: Clocks::Tomorrow(AlarmTime::Pending(None)),
            other: Clocks::Usually(AlarmTime::Pending(None)),
            last_error: None,
        };
        (alarm, Action::FetchBoth)
    }

    /// Apply one message and return the action it calls for.
    pub fn update(&mut self, message: Message) -> (act: Action)
        requires
            old(self).wf(),
            message.wf(),
        ensures
            *final(self) == old(self).spec_update(message).0,
            act == old(self).spec_update(message).1,
            final(self).wf(),
    {
        match message {
            Message::Clear => {
                self.editing.set_none();
                Action::Push(self.editing)
            },
            Message::AdjHour(h) => {
                self.tomorrow_to_default_if_none();
                self.editing.inner_mut().adjust_hour(h);
                self.tomorrow_to_none_if_default();
                Action::Push(self.editing)
            },
            Message::AdjMinute(m) => {
                self.tomorrow_to_default_if_none();
                self.editing.inner_mut().adjust_min(m);
                self.tomorrow_to_none_if_default();
                Action::Push(self.editing)
            },
            Message::ReTryGetAlarms => Action::FetchBoth,
            Message::SwapEdit => {
                let e = self.editing;
                self.editing = self.other;
                self.other = e;
                Action::Idle
            },
            Message::ReTrySync(c) => Action::Push(c),
            Message::Synced(c) => {
                self.set_synced(c);
                Action::Idle
            },
            Message::RemoteAlarms(t, u) => {
                self.set_remote_times(t, u);
                Action::Idle
            },
            Message::RemoteError(e, i) => {
                self.last_error = Some(e);
                Action::RetryAfterDelay(i)
            },
        }
    }

    /// Overwrite both slots with the fetched snapshot, as confirmed values;
    /// slot identity follows whichever role each identity currently plays.
    fn set_remote_times(&mut self, tomorrow: Time, usually: Time)
        ensures
            *final(self) == old(self).spec_snapshot(tomorrow, usually),
    {
        match self.editing {
            Clocks::Tomorrow(_) => {
                self.editing = Clocks::Tomorrow(AlarmTime::Synced(tomorrow));
                self.other = Clocks::Usually(AlarmTime::Synced(usually));
            },
            Clocks::Usually(_) => {
                self.editing = Clocks::Usually(AlarmTime::Synced(usually));
                self.other = Clocks::Tomorrow(AlarmTime::Synced(tomorrow));
            },
        }
    }

    /// Apply a push acknowledgment under the stale-acknowledgment rule.
    fn set_synced(&mut self, clock: Clocks)
        ensures
            *final(self) == old(self).spec_reconcile(clock),
    {
        let ack_slot = clock.slot();
        if ack_slot == self.editing.slot()
            && time_eq(*clock.inner().inner(), *self.editing.inner().inner()) {
            self.editing = clock.set_synced();
        } else if ack_slot == self.other.slot()
            && time_eq(*clock.inner().inner(), *self.other.inner().inner()) {
            self.other = clock.set_synced();
        }
    }

    /// Seed the "tomorrow" slot with the confirmed usual value before an
    /// adjustment, when tomorrow is edited and unset.
    pub fn tomorrow_to_default_if_none(&mut self)
        ensures
            *final(self) == old(self).spec_seed_tomorrow(),
    {
        if self.editing.slot() == Slot::Tomorrow && self.editing.inner().inner().is_none() {
            if let AlarmTime::Synced(Some(d)) = *self.other.inner() {
                *self.editing.inner_mut().inner_mut() = Some(d);
            }
        }
    }

    /// Collapse the "tomorrow" slot back to unset after an adjustment, when
    /// its value equals the usual value exactly.
    pub fn tomorrow_to_none_if_default(&mut self)
        ensures
            *final(self) == old(self).spec_collapse_tomorrow(),
    {
        if self.editing.slot() == Slot::Tomorrow {
            let e: Time = *self.editing.inner().inner();
            let d: Time = *self.other.inner().inner();
            if time_eq(e, d) {
                *self.editing.inner_mut().inner_mut() = None;
            }
        }
    }
}

/// Swapping which slot is edited twice returns both slots, and the whole
/// session, to exactly their original identity and value.
pub proof fn lemma_swap_twice(s: Alarm)
    ensures
        s.spec_swap().spec_swap() == s,
{
}

/// An acknowledgment can never change a slot's identity or value, and
/// never touches the error display: the reconciler either retags one slot
/// as confirmed, keeping its value, or discards the acknowledgment.
pub proof fn lemma_reconcile_preserves_values(s: Alarm, ack: Clocks)
    ensures
        s.spec_reconcile(ack).editing.spec_slot() == s.editing.spec_slot(),
        s.spec_reconcile(ack).editing.spec_time() == s.editing.spec_time(),
        s.spec_reconcile(ack).other.spec_slot() == s.other.spec_slot(),
        s.spec_reconcile(ack).other.spec_time() == s.other.spec_time(),
        s.spec_reconcile(ack).last_error == s.last_error,
{
}

/// The correctness-critical invariant of the whole design: an
/// acknowledgment changes the session at all only by promoting the slot
/// whose identity it targets to confirmed, and only while the acknowledged
/// value is still that slot's current value.
pub proof fn lemma_promotion_only_when_current(s: Alarm, ack: Clocks)
    ensures
        s.spec_reconcile(ack) != s ==> {
            ||| (ack.spec_slot() == s.editing.spec_slot()
                && ack.spec_time() == s.editing.spec_time()
                && s.spec_reconcile(ack) == (Alarm { editing: s.editing.spec_set_synced(), ..s }))
            ||| (ack.spec_slot() == s.other.spec_slot()
                && ack.spec_time() == s.other.spec_time()
                && s.spec_reconcile(ack) == (Alarm { other: s.other.spec_set_synced(), ..s }))
        },
{
}

/// A retried push re-issues exactly the captured failed intent: the session
/// is left untouched and the pushed value is the one first captured, not a
/// re-read of current state.
pub proof fn lemma_retry_reproduces_payload(s: Alarm, c: Clocks)
    ensures
        s.spec_update(Message::ReTrySync(c)).0 == s,
        s.spec_update(Message::ReTrySync(c)).1 == Action::Push(c),
{
}

} // verus!
