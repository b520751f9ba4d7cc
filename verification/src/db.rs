//! The schema source's lifecycle, as a state machine over plain values.
//!
//! A schema source owns one live database connection and at most one
//! background listener task. The connecting, listening and aborting
//! themselves are I/O and run outside this library; the functions here decide
//! every step — whether to reconnect, which channels to subscribe, what a
//! received notification means, and what closing must abort — and the
//! surrounding process carries the decisions out.

use vstd::prelude::*;
use crate::strutil::str_eq;

verus! {

/// The state of one schema source: the connection identity and whether its
/// background listener was started.
#[derive(Debug)]
pub struct DbConnection {
    pub connection_string: String,
    pub listening: bool,
}

/// What closing a source obliges the caller to do: abort the background
/// listener only if one was ever started.
#[derive(Clone, Copy, PartialEq, Eq, Structural, Debug)]
pub struct CloseAction {
    pub abort_listener: bool,
}

/// What the background listener receives: a notification payload, or a
/// receive failure.
#[derive(Debug)]
pub enum ListenerEvent {
    Notification { payload: String },
    ReceiveError { message: String },
}

/// What the listener does next: rebuild the snapshot, ignore the payload, or
/// stop listening for good.
#[derive(Clone, Copy, PartialEq, Eq, Structural, Debug)]
pub enum ListenerAction {
    ReloadSchema,
    Ignore,
    Stop,
}

/// The payload that triggers a schema rebuild; every other payload is
/// ignored.
pub open spec fn reload_sentinel() -> Seq<char> {
    "reload schema"@
}

/// The listener's step function: exactly the sentinel payload triggers a
/// rebuild, any other payload is ignored, and a receive failure stops the
/// listener without retry.
pub open spec fn spec_listener_action(e: ListenerEvent) -> ListenerAction {
    match e {
        ListenerEvent::Notification { payload } => if payload@ == reload_sentinel() {
            ListenerAction::ReloadSchema
        } else {
            ListenerAction::Ignore
        },
        ListenerEvent::ReceiveError { message: _ } => ListenerAction::Stop,
    }
}

/// What closing a source in a given state requires.
pub open spec fn spec_close(c: DbConnection) -> CloseAction {
    CloseAction { abort_listener: c.listening }
}

impl DbConnection {
    /// The state of a freshly connected source: no listener yet.
    pub fn new(connection_string: String) -> (r: DbConnection)
        ensures
            r.connection_string@ == connection_string@,
            !r.listening,
    {
        DbConnection { connection_string, listening: false }
    }

    /// The identity check the session uses to avoid a redundant reconnect.
    pub fn connected_to(&self, connection_string: &str) -> (r: bool)
        ensures
            r == (connection_string@ == self.connection_string@),
    {
        str_eq(connection_string, self.connection_string.as_str())
    }

    /// Start the single background listener: the source must not already
    /// have one. Returns the two notification channels the listener
    /// subscribes to.
    pub fn start_listening(&mut self) -> (channels: Vec<String>)
        requires
            !old(self).listening,
        ensures
            final(self).listening,
            final(self).connection_string == old(self).connection_string,
            channels@.len() == 2,
            channels@[0]@ == "postgres_lsp"@,
            channels@[1]@ == "pgrst"@,
    {
        self.listening = true;
        let mut channels: Vec<String> = Vec::new();
        channels.push(String::from_str("postgres_lsp"));
        channels.push(String::from_str("pgrst"));
        channels
    }

    /// Close the source. Safe whether or not the listener ever started: the
    /// returned action asks for an abort exactly when one is running, and
    /// the pool is drained in either case.
    pub fn close(self) -> (r: CloseAction)
        ensures
            r == spec_close(self),
    {
        CloseAction { abort_listener: self.listening }
    }
}

/// Decide the listener's reaction to one received event.
pub fn listener_step(event: &ListenerEvent) -> (a: ListenerAction)
    ensures
        a == spec_listener_action(*event),
{
    match event {
        ListenerEvent::Notification { payload } => {
            if str_eq(payload.as_str(), "reload schema") {
                ListenerAction::ReloadSchema
            } else {
                ListenerAction::Ignore
            }
        },
        ListenerEvent::ReceiveError { message: _ } => ListenerAction::Stop,
    }
}

/// Close cleanliness: closing a source whose listener was never started
/// aborts nothing, so it cannot fail; closing one with a live listener
/// demands the hard abort.
pub proof fn lemma_close_cleanliness(c: DbConnection)
    ensures
        !c.listening ==> !spec_close(c).abort_listener,
        c.listening ==> spec_close(c).abort_listener,
{
}

} // verus!
