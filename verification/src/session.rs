//! The session context: the one handle that `connect` selects and that later
//! commands read.
//!
//! The store is a single slot. It is empty until the first `connect`, holds
//! the handle of the latest `connect` from then on, and is never cleared.
//! The program around the library keeps one store behind a lock and releases
//! the lock before it waits on the backend.

use crate::error::CommandError;
use vstd::prelude::*;

verus! {

/// The single-slot store for the active signing context.
#[derive(Debug, Clone)]
pub struct SessionContext {
    handle: Option<String>,
}

impl View for SessionContext {
    type V = Option<Seq<char>>;

    closed spec fn view(&self) -> Option<Seq<char>> {
        match self.handle {
            Some(handle) => Some(handle@),
            None => None,
        }
    }
}

/// The handle for a command that cannot run without one, from what the
/// store holds.
pub open spec fn required(held: Option<Seq<char>>) -> Result<Seq<char>, CommandError> {
    match held {
        Some(handle) => Ok(handle),
        None => Err(CommandError::ContextNotInitialized),
    }
}

/// What the store holds after `handle` has been set, whatever it held
/// before.
pub open spec fn after_connect(held: Option<Seq<char>>, handle: Seq<char>) -> Option<Seq<char>> {
    Some(handle)
}

/// What the store holds after `handles` have been set in order, starting
/// from `start`.
pub open spec fn after_connects(start: Option<Seq<char>>, handles: Seq<Seq<char>>) -> Option<
    Seq<char>,
>
    decreases handles.len(),
{
    if handles.len() == 0 {
        start
    } else {
        after_connect(after_connects(start, handles.drop_last()), handles.last())
    }
}

impl SessionContext {
    /// The store as it is when the process starts: empty.
    pub fn new() -> (r: Self)
        ensures
            r@ is None,
    {
        SessionContext { handle: None }
    }

    /// Replaces whatever the store holds by `handle`.
    pub fn set(&mut self, handle: String)
        ensures
            final(self)@ == after_connect(old(self)@, handle@),
    {
        self.handle = Some(handle);
    }

    /// The handle of the latest `set`, or nothing if there was none.
    pub fn get(&self) -> (r: Option<String>)
        ensures
            match r {
                Some(handle) => self@ == Some(handle@),
                None => self@ is None,
            },
    {
        match &self.handle {
            Some(handle) => Some(handle.clone()),
            None => None,
        }
    }

    /// The handle for a command that cannot run without one. An empty store
    /// is an error; it never stands in for a `connect`.
    pub fn require(&self) -> (r: Result<String, CommandError>)
        ensures
            match required(self@) {
                Ok(handle) => r matches Ok(found) && found@ == handle,
                Err(e) => r matches Err(failure) && failure == e,
            },
    {
        match &self.handle {
            Some(handle) => Ok(handle.clone()),
            None => Err(CommandError::ContextNotInitialized),
        }
    }
}

/// However many handles were set before, and whatever the store held at the
/// start, a read after at least one `set` sees the handle set last.
pub proof fn lemma_latest_connect_wins(start: Option<Seq<char>>, handles: Seq<Seq<char>>)
    requires
        handles.len() > 0,
    ensures
        after_connects(start, handles) == Some(handles.last()),
{
}

/// Before any `set`, a command that needs the handle fails, and says that
/// the context is not initialized.
pub proof fn lemma_no_context_before_connect()
    ensures
        required(after_connects(None, Seq::empty())) matches Err(e) && e
            == CommandError::ContextNotInitialized,
{
}

} // verus!
