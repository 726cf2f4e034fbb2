//! The remote store's contract: credentials, the payload codec, and the
//! mapping from network outcomes onto session messages.
//!
//! The transport itself (HTTP, timeouts) lives outside the library; here
//! stand the parts that decide something: which slot a push addresses, the
//! exact bytes a value is sent as, what a fetched payload means, and which
//! message each outcome turns into.

use crate::clock::{valid_time, Clocks, Slot, Time};
use crate::session::{Intent, Message};
use vstd::prelude::*;
use vstd::string::*;

verus! {

/// The fixed timeout the transport must apply to every remote call, in
/// seconds; running into it surfaces as the same outcome as a connection
/// failure.
pub const REQUEST_TIMEOUT_SECS: u64 = 2;

/// A failed remote call, carried with a human-readable description.  The
/// most recent error replaces any prior one; none is fatal.
#[derive(Clone, Debug, PartialEq)]
pub enum Error {
    /// Transport-level failure: DNS, refused connection, timeout.
    ConnectionError(String),
    /// The endpoint was reachable but rejected the call, or answered with
    /// a payload that does not decode to a time.
    RemoteRejection(String),
}

impl Error {
    /// The human-readable description, whatever the kind.
    pub open spec fn spec_message(self) -> Seq<char> {
        match self {
            Error::ConnectionError(s) => s@,
            Error::RemoteRejection(s) => s@,
        }
    }

    /// The human-readable description, whatever the kind.
    pub fn message(&self) -> (r: &String)
        ensures
            r@ == self.spec_message(),
    {
        match self {
            Error::ConnectionError(s) => s,
            Error::RemoteRejection(s) => s,
        }
    }
}

/// The credentials and base location of the remote store, fixed once at
/// startup and attached to every call.
#[derive(Clone, Debug)]
pub struct Api {
    pub url: String,
    pub username: String,
    pub password: String,
}

/// One push, ready for transport: the slot whose endpoint it addresses and
/// the exact payload bytes.
#[derive(Clone, Debug, PartialEq)]
pub struct PushRequest {
    pub slot: Slot,
    pub body: Vec<u8>,
}

/// The exact bytes the payload encoding produces for a time: a tag byte
/// (0 for unset, 1 for a pair), then the hour byte and the minute byte.
pub open spec fn spec_time_bytes(t: Time) -> Seq<u8> {
    match t {
        None => seq![0u8],
        Some((h, m)) => seq![1u8, h, m],
    }
}

/// The exact result of reading a time back from payload bytes: the tag
/// byte says whether a pair follows; trailing bytes are tolerated; an
/// empty payload, a tag above 1, or a truncated pair is rejected.
pub open spec fn spec_decode_time(s: Seq<u8>) -> Option<Time> {
    if s.len() >= 1 && s[0] == 0 {
        Some(None)
    } else if s.len() >= 3 && s[0] == 1 {
        Some(Some((s[1], s[2])))
    } else {
        None
    }
}

/// Relies on `bincode::serialize` with its default configuration: an
/// `Option` is written as one tag byte (0 for `None`, 1 for `Some`)
/// followed by the value, a `(u8, u8)` pair as its two bytes; writing into
/// a fresh `Vec` with no size limit cannot fail.
#[verifier::external_body]
fn encode_time(t: &Time) -> (r: Vec<u8>)
    ensures
        r@ == spec_time_bytes(*t),
{
    bincode::serialize(t).unwrap()
}

/// Relies on `bincode::deserialize` with its default configuration: it
/// reads the option's tag byte (failing on empty input and on a tag above
/// 1), then for tag 1 the two value bytes (failing on shorter input), and
/// tolerates trailing bytes.
#[verifier::external_body]
fn decode_time(bytes: &[u8]) -> (r: Option<Time>)
    ensures
        r == spec_decode_time(bytes@),
{
    bincode::deserialize(bytes).ok()
}

/// What a fetched payload means: the decoded time, provided it lies
/// within the clock's ranges; anything else is not a time.
pub open spec fn spec_parse_time(s: Seq<u8>) -> Option<Time> {
    match spec_decode_time(s) {
        Some(t) => if valid_time(t) {
            Some(t)
        } else {
            None
        },
        None => None,
    }
}

/// Decoding the bytes the encoder produced gives back exactly the encoded
/// time, for every valid time: what a push sends, a fetch reads back
/// unchanged.
pub proof fn lemma_time_codec_round_trip(t: Time)
    requires
        valid_time(t),
    ensures
        spec_decode_time(spec_time_bytes(t)) == Some(t),
        spec_parse_time(spec_time_bytes(t)) == Some(t),
{
}

/// Decode a fetched payload, or report it as a rejection by the remote
/// store when it is not a valid encoding of a time within range.
pub fn parse_time(bytes: &[u8]) -> (r: Result<Time, Error>)
    ensures
        (match spec_parse_time(bytes@) {
            Some(t) => r == Ok::<Time, Error>(t),
            None => r matches Err(Error::RemoteRejection(s)) && s@ == "invalid time payload"@,
        }),
{
    match decode_time(bytes) {
        Some(t) => {
            let in_range = match t {
                Some((h, m)) => h < 24 && m < 60,
                None => true,
            };
            if in_range {
                Ok(t)
            } else {
                Err(Error::RemoteRejection(String::from_str("invalid time payload")))
            }
        },
        None => Err(Error::RemoteRejection(String::from_str("invalid time payload"))),
    }
}

impl Api {
    /// Package the base location and the credential pair supplied once at
    /// startup.
    pub fn from(url: String, username: String, password: String) -> (r: Self)
        ensures
            r.url@ == url@,
            r.username@ == username@,
            r.password@ == password@,
    {
        Self { url, username, password }
    }

    /// Build the push of one clock's current value: the payload for the
    /// endpoint matching the clock's slot identity.  The request depends
    /// only on the value captured in `clock`, never on other state, so a
    /// retried intent reproduces the same request byte-for-byte.
    pub fn sync(&self, clock: Clocks) -> (req: PushRequest)
        ensures
            req.slot == clock.spec_slot(),
            req.body@ == spec_time_bytes(clock.spec_time()),
    {
        let body = encode_time(clock.inner().inner());
        PushRequest { slot: clock.slot(), body }
    }

    /// Map the outcome of the combined startup fetch onto the message the
    /// session consumes: the snapshot on success, otherwise the error
    /// paired with the fetch intent so it can be retried unchanged.
    pub fn fetch_done(res: Result<(Time, Time), Error>) -> (msg: Message)
        ensures
            msg == (match res {
                Ok((t, u)) => Message::RemoteAlarms(t, u),
                Err(e) => Message::RemoteError(e, Intent::Fetch),
            }),
    {
        match res {
            Ok((t, u)) => Message::RemoteAlarms(t, u),
            Err(e) => Message::RemoteError(e, Intent::Fetch),
        }
    }

    /// Map the outcome of a push onto the message the session consumes: an
    /// acknowledgment carrying exactly the pushed slot and value, or the
    /// error paired with the push intent so it can be retried unchanged.
    pub fn sync_done(clock: Clocks, res: Result<(), Error>) -> (msg: Message)
        ensures
            msg == (match res {
                Ok(_) => Message::Synced(clock),
                Err(e) => Message::RemoteError(e, Intent::Push(clock)),
            }),
    {
        match res {
            Ok(_) => Message::Synced(clock),
            Err(e) => Message::RemoteError(e, Intent::Push(clock)),
        }
    }
}

impl Intent {
    /// The message that re-issues this intent, exactly as first captured.
    pub fn as_message(self) -> (msg: Message)
        ensures
            msg == (match self {
                Intent::Fetch => Message::ReTryGetAlarms,
                Intent::Push(c) => Message::ReTrySync(c),
            }),
    {
        match self {
            Intent::Fetch => Message::ReTryGetAlarms,
            Intent::Push(c) => Message::ReTrySync(c),
        }
    }
}

} // verus!
