//! The store that owns the one session record.

use vstd::prelude::*;
use crate::session::{SessionState, text_of, texts};

verus! {

/// Owner of the one session record. Every operation is a single step on the
/// whole record: a caller sees it before the step or after it, never between.
pub struct SessionStore {
    destinations: Vec<String>,
    active: Option<String>,
    activated_at: i64,
    deadline: i64,
    last_activity: i64,
}

impl View for SessionStore {
    type V = SessionState;

    closed spec fn view(&self) -> SessionState {
        SessionState {
            destinations: texts(self.destinations@),
            active: text_of(self.active),
            activated_at: self.activated_at as int,
            deadline: self.deadline as int,
            last_activity: self.last_activity as int,
        }
    }
}

impl SessionStore {
    /// A store holding the empty session.
    pub fn new() -> (store: SessionStore)
        ensures
            store@ == SessionState::empty(),
    {
        let store = SessionStore {
            destinations: Vec::new(),
            active: None,
            activated_at: 0,
            deadline: 0,
            last_activity: 0,
        };
        assert(texts(store.destinations@) =~= Seq::empty());
        store
    }

    /// A snapshot of the destination list.
    pub fn destinations(&self) -> (list: Vec<String>)
        ensures
            texts(list@) == self@.destinations,
    {
        let list = self.destinations.clone();
        assert(texts(list@) =~= texts(self.destinations@));
        list
    }

    /// Replaces the destination list and leaves the active destination alone.
    pub fn set_destinations(&mut self, list: Vec<String>)
        ensures
            final(self)@ == old(self)@.with_destinations(texts(list@)),
    {
        self.destinations = list;
    }

    /// The active destination, or `None` while nothing was ever activated.
    pub fn active_destination(&self) -> (active: Option<String>)
        ensures
            text_of(active) == self@.active,
    {
        match &self.active {
            Some(destination) => Some(destination.clone()),
            None => None,
        }
    }

    /// Whether `destination` is the active one, by exact text.
    pub fn is_active(&self, destination: &String) -> (yes: bool)
        ensures
            yes == self@.is_active(destination@),
    {
        match &self.active {
            Some(active) => *active == *destination,
            None => false,
        }
    }

    /// Makes `destination` the active one, showing from `now` until `deadline`.
    pub fn activate(&mut self, destination: String, deadline: i64, now: i64)
        ensures
            final(self)@ == old(self)@.activated(destination@, deadline as int, now as int),
    {
        self.active = Some(destination);
        self.activated_at = now;
        self.deadline = deadline;
    }

    /// When the active destination's display window ends.
    pub fn rotation_deadline(&self) -> (deadline: i64)
        ensures
            deadline == self@.deadline,
    {
        self.deadline
    }

    /// When the active destination was activated.
    pub fn activated_at(&self) -> (at: i64)
        ensures
            at == self@.activated_at,
    {
        self.activated_at
    }

    /// The latest idle-reset signal.
    pub fn last_activity(&self) -> (at: i64)
        ensures
            at == self@.last_activity,
    {
        self.last_activity
    }

    /// Records an idle-reset signal stamped `now`.
    pub fn touch(&mut self, now: i64)
        ensures
            final(self)@ == old(self)@.touched(now as int),
    {
        if now > self.last_activity {
            self.last_activity = now;
        }
    }
}

} // verus!
