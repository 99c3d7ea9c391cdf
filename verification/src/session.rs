//! The session as a mathematical value, the steps that change it, and what
//! holds of every session those steps can reach.

use vstd::prelude::*;

verus! {

/// The text of every string of `list`, in order.
pub open spec fn texts(list: Seq<String>) -> Seq<Seq<char>> {
    Seq::new(list.len(), |i: int| list[i]@)
}

/// The text of an optional string.
pub open spec fn text_of(value: Option<String>) -> Option<Seq<char>> {
    match value {
        Some(s) => Some(s@),
        None => None,
    }
}

/// The session as a mathematical value: what is showing, since when, until
/// when, and when somebody last touched the display.
pub struct SessionState {
    /// Destinations in display order; a destination is its exact text.
    pub destinations: Seq<Seq<char>>,
    /// The destination that counts as showing, if one was ever activated.
    pub active: Option<Seq<char>>,
    /// When the active destination was activated.
    pub activated_at: int,
    /// When the active destination's display window ends.
    pub deadline: int,
    /// The latest idle-reset signal.
    pub last_activity: int,
}

impl SessionState {
    /// The session of a process that has done nothing yet.
    pub open spec fn empty() -> SessionState {
        SessionState {
            destinations: Seq::empty(),
            active: None,
            activated_at: 0,
            deadline: 0,
            last_activity: 0,
        }
    }

    /// The destination list replaced wholesale; nothing else moves.
    pub open spec fn with_destinations(self, list: Seq<Seq<char>>) -> SessionState {
        SessionState { destinations: list, ..self }
    }

    /// One activation: destination, start and deadline change together.
    pub open spec fn activated(self, destination: Seq<char>, deadline: int, now: int) -> SessionState {
        SessionState { active: Some(destination), activated_at: now, deadline, ..self }
    }

    /// An idle-reset signal stamped `now`: the later timestamp wins.
    pub open spec fn touched(self, now: int) -> SessionState {
        SessionState {
            last_activity: if now > self.last_activity { now } else { self.last_activity },
            ..self
        }
    }

    /// A session initialization with `list`: the list is replaced and, where
    /// it is not empty, its first entry is activated under the window that
    /// is already running. An empty list leaves the active destination.
    pub open spec fn initialized(self, list: Seq<Seq<char>>) -> SessionState {
        if list.len() > 0 {
            self.with_destinations(list).activated(list[0], self.deadline, self.activated_at)
        } else {
            self.with_destinations(list)
        }
    }

    /// A navigation that took effect at `now`: the destination is activated
    /// until `deadline`, and navigating counts as activity.
    pub open spec fn navigated(self, destination: Seq<char>, deadline: int, now: int) -> SessionState {
        self.activated(destination, deadline, now).touched(now)
    }

    /// Whether `destination` is the active one. Activation is by value, so
    /// every list entry with the active text counts.
    pub open spec fn is_active(self, destination: Seq<char>) -> bool {
        self.active == Some(destination)
    }

    /// With a non-empty list, the active destination is one of its entries.
    pub open spec fn active_is_listed(self) -> bool {
        self.destinations.len() > 0 ==> self.active is Some && self.destinations.contains(
            self.active.unwrap(),
        )
    }
}

/// One step of the store on the session.
pub enum StoreStep {
    /// The destination list is replaced.
    SetDestinations { list: Seq<Seq<char>> },
    /// A destination is activated at `now`, to show until `deadline`.
    Activate { destination: Seq<char>, deadline: int, now: int },
    /// An idle-reset signal stamped `now` is recorded.
    Touch { now: int },
}

impl SessionState {
    /// The session after one step of the store.
    pub open spec fn step(self, step: StoreStep) -> SessionState {
        match step {
            StoreStep::SetDestinations { list } => self.with_destinations(list),
            StoreStep::Activate { destination, deadline, now } => self.activated(
                destination,
                deadline,
                now,
            ),
            StoreStep::Touch { now } => self.touched(now),
        }
    }

    /// The session after `steps`, taken in order.
    pub open spec fn run(self, steps: Seq<StoreStep>) -> SessionState
        decreases steps.len(),
    {
        if steps.len() == 0 {
            self
        } else {
            self.run(steps.drop_last()).step(steps.last())
        }
    }

    /// The steps of the store that make up an initialization with `list`.
    pub open spec fn initialization_steps(self, list: Seq<Seq<char>>) -> Seq<StoreStep> {
        if list.len() > 0 {
            seq![
                StoreStep::SetDestinations { list },
                StoreStep::Activate {
                    destination: list[0],
                    deadline: self.deadline,
                    now: self.activated_at,
                },
            ]
        } else {
            seq![StoreStep::SetDestinations { list }]
        }
    }

    /// The steps of the store that make up a navigation taking effect.
    pub open spec fn navigation_steps(destination: Seq<char>, deadline: int, now: int) -> Seq<
        StoreStep,
    > {
        seq![StoreStep::Activate { destination, deadline, now }, StoreStep::Touch { now }]
    }
}

/// Whatever steps the store has taken since the empty session, the active
/// destination, its start and its deadline are those of one single
/// activation, the latest one; and while nothing was activated there is no
/// active destination and the window is still the empty one. No state pairs
/// the destination of one activation with the deadline of another.
pub proof fn lemma_window_comes_from_one_activation(steps: Seq<StoreStep>)
    ensures
        ({
            let session = SessionState::empty().run(steps);
            match session.active {
                Some(destination) => exists|i: int|
                    0 <= i < steps.len() && #[trigger] steps[i] == (StoreStep::Activate {
                        destination,
                        deadline: session.deadline,
                        now: session.activated_at,
                    }) && forall|j: int| i < j < steps.len() ==> !(#[trigger] steps[j] is Activate),
                None => session.deadline == 0 && session.activated_at == 0 && forall|i: int|
                    0 <= i < steps.len() ==> !(#[trigger] steps[i] is Activate),
            }
        }),
    decreases steps.len(),
{
    if steps.len() > 0 {
        let before = steps.drop_last();
        lemma_window_comes_from_one_activation(before);
        let earlier = SessionState::empty().run(before);
        let session = SessionState::empty().run(steps);
        assert(session == earlier.step(steps.last()));
        assert(forall|i: int| 0 <= i < before.len() ==> before[i] == steps[i]);
        match steps.last() {
            StoreStep::Activate { destination, deadline, now } => {
                assert(steps[steps.len() - 1] == (StoreStep::Activate { destination, deadline, now }));
            },
            _ => {
                match earlier.active {
                    Some(destination) => {
                        let i = choose|i: int|
                            0 <= i < before.len() && #[trigger] before[i] == (StoreStep::Activate {
                                destination,
                                deadline: earlier.deadline,
                                now: earlier.activated_at,
                            }) && forall|j: int|
                                i < j < before.len() ==> !(#[trigger] before[j] is Activate);
                        assert(steps[i] == before[i]);
                        assert forall|j: int| i < j < steps.len() implies !(
                        #[trigger] steps[j] is Activate) by {
                            if j < before.len() {
                                assert(before[j] == steps[j]);
                            }
                        }
                    },
                    None => {
                        assert forall|i: int| 0 <= i < steps.len() implies !(
                        #[trigger] steps[i] is Activate) by {
                            if i < before.len() {
                                assert(before[i] == steps[i]);
                            }
                        }
                    },
                }
            },
        }
    }
}

/// An initialization and a navigation are nothing but steps of the store,
/// so what holds after any run of steps holds after any run of commands.
pub proof fn lemma_commands_are_store_steps(
    session: SessionState,
    list: Seq<Seq<char>>,
    destination: Seq<char>,
    deadline: int,
    now: int,
)
    ensures
        session.initialized(list) == session.run(session.initialization_steps(list)),
        session.navigated(destination, deadline, now) == session.run(
            SessionState::navigation_steps(destination, deadline, now),
        ),
{
    let init = session.initialization_steps(list);
    if list.len() > 0 {
        assert(init.drop_last() =~= seq![StoreStep::SetDestinations { list }]);
        assert(init.drop_last().drop_last() =~= Seq::<StoreStep>::empty());
        assert(session.run(init.drop_last().drop_last()) == session);
        assert(session.run(init.drop_last()) == session.with_destinations(list));
    } else {
        assert(init.drop_last() =~= Seq::<StoreStep>::empty());
        assert(session.run(init.drop_last()) == session);
    }
    let nav = SessionState::navigation_steps(destination, deadline, now);
    assert(nav.drop_last() =~= seq![StoreStep::Activate { destination, deadline, now }]);
    assert(nav.drop_last().drop_last() =~= Seq::<StoreStep>::empty());
    assert(session.run(nav.drop_last().drop_last()) == session);
    assert(session.run(nav.drop_last()) == session.activated(destination, deadline, now));
}

/// One command that changes the session, as the session sees it.
pub enum CommandStep {
    /// The session is initialized with `list`.
    Initialize { list: Seq<Seq<char>> },
    /// A navigation the host completed takes effect at `now`.
    Navigate { destination: Seq<char>, deadline: int, now: int },
    /// An activity signal stamped `now` is recorded.
    Activity { now: int },
}

impl SessionState {
    /// The session after one command.
    pub open spec fn command(self, command: CommandStep) -> SessionState {
        match command {
            CommandStep::Initialize { list } => self.initialized(list),
            CommandStep::Navigate { destination, deadline, now } => self.navigated(
                destination,
                deadline,
                now,
            ),
            CommandStep::Activity { now } => self.touched(now),
        }
    }

    /// The session after `commands`, taken in order.
    pub open spec fn commands(self, commands: Seq<CommandStep>) -> SessionState
        decreases commands.len(),
    {
        if commands.len() == 0 {
            self
        } else {
            self.commands(commands.drop_last()).command(commands.last())
        }
    }
}

/// Running two lists of steps one after the other is running their
/// concatenation.
proof fn lemma_run_appends(session: SessionState, head: Seq<StoreStep>, tail: Seq<StoreStep>)
    ensures
        session.run(head + tail) == session.run(head).run(tail),
    decreases tail.len(),
{
    if tail.len() == 0 {
        assert(head + tail =~= head);
    } else {
        lemma_run_appends(session, head, tail.drop_last());
        assert((head + tail).drop_last() =~= head + tail.drop_last());
        assert((head + tail).last() == tail.last());
    }
}

/// Whatever commands were given since the empty session, the session is one
/// that steps of the store lead to. What holds after every run of steps,
/// [`lemma_window_comes_from_one_activation`] above all, holds after every
/// run of commands.
pub proof fn lemma_commands_stay_within_store_steps(commands: Seq<CommandStep>)
    ensures
        exists|steps: Seq<StoreStep>|
            SessionState::empty().commands(commands) == #[trigger] SessionState::empty().run(steps),
    decreases commands.len(),
{
    if commands.len() == 0 {
        assert(SessionState::empty().commands(commands) == SessionState::empty().run(
            Seq::<StoreStep>::empty(),
        ));
    } else {
        lemma_commands_stay_within_store_steps(commands.drop_last());
        let before = SessionState::empty().commands(commands.drop_last());
        let head = choose|steps: Seq<StoreStep>|
            before == #[trigger] SessionState::empty().run(steps);
        let tail = match commands.last() {
            CommandStep::Initialize { list } => before.initialization_steps(list),
            CommandStep::Navigate { destination, deadline, now } => SessionState::navigation_steps(
                destination,
                deadline,
                now,
            ),
            CommandStep::Activity { now } => seq![StoreStep::Touch { now }],
        };
        match commands.last() {
            CommandStep::Initialize { list } => {
                lemma_commands_are_store_steps(before, list, Seq::empty(), 0, 0);
            },
            CommandStep::Navigate { destination, deadline, now } => {
                lemma_commands_are_store_steps(before, Seq::empty(), destination, deadline, now);
            },
            CommandStep::Activity { now } => {
                assert(tail.drop_last() =~= Seq::<StoreStep>::empty());
                assert(before.run(tail.drop_last()) == before);
            },
        }
        assert(before.command(commands.last()) == before.run(tail));
        lemma_run_appends(SessionState::empty(), head, tail);
        assert(SessionState::empty().commands(commands) == SessionState::empty().run(head + tail));
    }
}

/// Initializing again with the same list changes nothing more.
pub proof fn lemma_initialization_is_idempotent(session: SessionState, list: Seq<Seq<char>>)
    ensures
        session.initialized(list).initialized(list) == session.initialized(list),
        session.initialized(list).destinations == list,
        session.initialized(list).deadline == session.deadline,
        session.initialized(list).activated_at == session.activated_at,
        session.initialized(list).last_activity == session.last_activity,
{
}

/// Two idle resets leave the same session in whichever order they arrive,
/// with the idle timestamp at the latest of the two stamps unless the
/// session already held a later one.
pub proof fn lemma_idle_resets_commute(session: SessionState, first: int, second: int)
    ensures
        session.touched(first).touched(second) == session.touched(second).touched(first),
        session.touched(first).touched(second).last_activity >= session.last_activity,
        session.last_activity <= first || session.last_activity <= second ==> session.touched(
            first,
        ).touched(second).last_activity == if first >= second {
            first
        } else {
            second
        },
{
}

/// An initialization always leaves the active destination on the list, idle
/// resets never take it off, and a navigation keeps it there when it goes
/// to a listed destination.
pub proof fn lemma_active_stays_listed(
    session: SessionState,
    list: Seq<Seq<char>>,
    destination: Seq<char>,
    deadline: int,
    now: int,
)
    ensures
        SessionState::empty().active_is_listed(),
        session.initialized(list).active_is_listed(),
        session.active_is_listed() ==> session.touched(now).active_is_listed(),
        (session.destinations.len() > 0 ==> session.destinations.contains(destination))
            ==> session.navigated(destination, deadline, now).active_is_listed(),
{
    if list.len() > 0 {
        assert(list.contains(list[0]));
    }
}

} // verus!
