//! The commands that event sources invoke.
//!
//! A command that needs the display host comes in two halves. The first
//! decides, from the session and from what the host reported, what the host
//! is to do. The caller has the host do it, outside any lock, and hands the
//! outcome to the second half, which alone changes the session.

use vstd::prelude::*;
use crate::activity::{ActivitySignal, Notification, notification_views, notifications_for};
use crate::destination::{parsed_url, resolve_destination};
use crate::display::{HostOutcome, Navigation, SurfaceAction, INITIAL_DESTINATION};
use crate::error::CommandError;
use crate::overlay::{OverlayModel, overlay_of};
use crate::session::{SessionState, texts};
use crate::store::SessionStore;

verus! {

/// The command surface over one [`SessionStore`].
pub struct CommandBridge {
    store: SessionStore,
}

impl View for CommandBridge {
    type V = SessionState;

    closed spec fn view(&self) -> SessionState {
        self.store@
    }
}

impl CommandBridge {
    /// A bridge over `store`.
    pub fn new(store: SessionStore) -> (bridge: CommandBridge)
        ensures
            bridge@ == store@,
    {
        CommandBridge { store }
    }

    /// The store behind the bridge, for reading.
    pub fn store(&self) -> (store: &SessionStore)
        ensures
            store@ == self@,
    {
        &self.store
    }

    /// Starts or restarts the session with `destinations`.
    ///
    /// The list is stored and its first entry, if any, becomes the active
    /// destination; the rotation window is left as it is, and so is what
    /// the surface shows. The host is asked to create the surface only where
    /// it reported none, and to reload it otherwise. The session is updated
    /// whatever the host then makes of the request.
    pub fn initialize_session(&mut self, destinations: Vec<String>, surface_exists: bool) -> (action:
        SurfaceAction)
        ensures
            final(self)@ == old(self)@.initialized(texts(destinations@)),
            final(self)@.active_is_listed(),
            action.answers(surface_exists),
    {
        let first: Option<String> = if destinations.len() > 0 {
            Some(destinations[0].clone())
        } else {
            None
        };
        let action = if surface_exists {
            SurfaceAction::Reload
        } else {
            SurfaceAction::Create { initial: INITIAL_DESTINATION.to_owned() }
        };
        self.store.set_destinations(destinations);
        match first {
            Some(destination) => {
                let deadline: i64 = self.store.rotation_deadline();
                let activated_at: i64 = self.store.activated_at();
                self.store.activate(destination, deadline, activated_at);
            },
            None => {},
        }
        action
    }

    /// Accepts or turns down a navigation to `destination`, to be shown
    /// until `deadline`. The session is not changed: see
    /// [`CommandBridge::conclude_navigation`].
    pub fn navigate(&self, destination: String, deadline: i64, surface_exists: bool) -> (planned:
        Result<Navigation, CommandError>)
        ensures
            !surface_exists ==> planned == Err::<Navigation, CommandError>(
                CommandError::SurfaceNotFound,
            ),
            surface_exists && parsed_url(destination@) is None ==> planned == Err::<
                Navigation,
                CommandError,
            >(CommandError::InvalidDestination),
            surface_exists && parsed_url(destination@) is Some ==> planned is Ok
                && planned->Ok_0.destination@ == destination@
                && planned->Ok_0.target@ == parsed_url(destination@)->Some_0
                && planned->Ok_0.deadline == deadline,
    {
        let resolved = resolve_destination(destination.as_str());
        Navigation::plan(surface_exists, destination, deadline, resolved)
    }

    /// Finishes a navigation once the host has answered, at `now`.
    ///
    /// Where the host completed it, the destination is activated with its
    /// deadline in one step and the navigation counts as activity. Where the
    /// host failed, the session stays exactly as it was.
    pub fn conclude_navigation(&mut self, navigation: Navigation, outcome: HostOutcome, now: i64) -> (result:
        Result<(), CommandError>)
        ensures
            outcome == HostOutcome::Completed ==> result is Ok && final(self)@ == old(
                self,
            )@.navigated(navigation.destination@, navigation.deadline as int, now as int),
            outcome == HostOutcome::Failed ==> result == Err::<(), CommandError>(
                CommandError::DelegationFailure,
            ) && final(self)@ == old(self)@,
    {
        match outcome.into_result() {
            Ok(()) => {
                self.store.activate(navigation.destination, navigation.deadline, now);
                self.store.touch(now);
                Ok(())
            },
            Err(e) => Err(e),
        }
    }

    /// The overlay snapshot at `now`.
    pub fn query_overlay_model(&self, now: i64) -> (model: OverlayModel)
        ensures
            model@ == overlay_of(self@, now as int),
    {
        OverlayModel::snapshot(&self.store, now)
    }

    /// When the active destination's display window ends.
    pub fn rotation_deadline(&self) -> (deadline: i64)
        ensures
            deadline == self@.deadline,
    {
        self.store.rotation_deadline()
    }

    /// Records an activity signal stamped `now` and names what to announce.
    pub fn record_activity(&mut self, signal: ActivitySignal, now: i64) -> (notes: Vec<Notification>)
        ensures
            final(self)@ == old(self)@.touched(now as int),
            notification_views(notes@) == notifications_for(signal@),
    {
        crate::activity::record_activity(&mut self.store, signal, now)
    }
}

} // verus!
