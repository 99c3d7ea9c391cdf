//! What the display host is asked to do, and what it answers.
//!
//! The host owns the one surface, labelled [`SURFACE_LABEL`]. A command
//! decides on a request from the session and from what the host reported;
//! the caller has the host carry it out and hands the outcome back.

use vstd::prelude::*;
use crate::error::CommandError;

verus! {

/// Label of the only surface this crate ever asks for.
pub const SURFACE_LABEL: &'static str = "screen";

/// Address every new surface opens on. Initialization never navigates: the
/// surface shows this page until the first navigation is completed.
pub const INITIAL_DESTINATION: &'static str = "https://google.com";

/// What initialization asks of the host.
#[derive(Clone, Debug, PartialEq, Eq)]
pub enum SurfaceAction {
    /// No surface exists: create it, opening on `initial`.
    Create { initial: String },
    /// The surface exists: reload it in place.
    Reload,
}

/// How the host fared with a request.
#[derive(Clone, Copy, Debug, PartialEq, Eq, Structural)]
pub enum HostOutcome {
    /// The request was carried out.
    Completed,
    /// The host could not carry it out.
    Failed,
}

/// An accepted navigation, waiting for the host. The host loads `target`
/// into the surface and sets the surface's title to `destination`; the
/// session changes only once the host reports [`HostOutcome::Completed`].
#[derive(Clone, Debug, PartialEq, Eq)]
pub struct Navigation {
    /// The destination as the caller gave it.
    pub destination: String,
    /// The address the destination resolved to.
    pub target: String,
    /// When the destination's display window is to end.
    pub deadline: i64,
}

impl SurfaceAction {
    /// Whether this is the request initialization makes of a host that
    /// reported `surface_exists`: a creation on [`INITIAL_DESTINATION`] where
    /// there is no surface, a reload where there is one.
    pub open spec fn answers(self, surface_exists: bool) -> bool {
        match self {
            SurfaceAction::Create { initial } => !surface_exists && initial@
                == INITIAL_DESTINATION@,
            SurfaceAction::Reload => surface_exists,
        }
    }
}

/// The display host as far as surfaces go.
pub struct HostModel {
    /// Surfaces that exist now.
    pub live: nat,
    /// Surfaces ever created.
    pub created: nat,
}

/// One initialization as the host saw it.
pub struct Round {
    /// What the host was asked to do.
    pub action: SurfaceAction,
    /// How the host fared.
    pub outcome: HostOutcome,
}

impl HostModel {
    /// A host that has not created anything yet.
    pub open spec fn fresh() -> HostModel {
        HostModel { live: 0, created: 0 }
    }

    /// What the host reports when asked whether the surface exists.
    pub open spec fn surface_exists(self) -> bool {
        self.live > 0
    }

    /// The host after a request: only a creation that was completed adds a
    /// surface; a reload, or a request that failed, adds none.
    pub open spec fn perform(self, action: SurfaceAction, outcome: HostOutcome) -> HostModel {
        if action is Create && outcome == HostOutcome::Completed {
            HostModel { live: self.live + 1, created: self.created + 1 }
        } else {
            self
        }
    }

    /// The host after `rounds` of initialization, starting fresh.
    pub open spec fn after(rounds: Seq<Round>) -> HostModel
        decreases rounds.len(),
    {
        if rounds.len() == 0 {
            HostModel::fresh()
        } else {
            HostModel::after(rounds.drop_last()).perform(rounds.last().action, rounds.last().outcome)
        }
    }
}

/// Every request of `rounds` is the one initialization makes of the host as
/// it stood before that round.
pub open spec fn requests_follow_host(rounds: Seq<Round>) -> bool
    decreases rounds.len(),
{
    rounds.len() > 0 ==> requests_follow_host(rounds.drop_last()) && rounds.last().action.answers(
        HostModel::after(rounds.drop_last()).surface_exists(),
    )
}

/// However often the session is initialized, and whatever luck the host
/// has, the host never holds more than one surface and never creates a
/// second one. The surface is there exactly from the
/// first initialization that the host completed, and it stays.
pub proof fn lemma_at_most_one_surface(rounds: Seq<Round>)
    requires
        requests_follow_host(rounds),
    ensures
        HostModel::after(rounds).live <= 1,
        HostModel::after(rounds).created == HostModel::after(rounds).live,
        HostModel::after(rounds).surface_exists() <==> exists|i: int|
            0 <= i < rounds.len() && (#[trigger] rounds[i]).outcome == HostOutcome::Completed,
    decreases rounds.len(),
{
    if rounds.len() > 0 {
        let before = rounds.drop_last();
        lemma_at_most_one_surface(before);
        assert(forall|i: int| 0 <= i < before.len() ==> before[i] == rounds[i]);
        if HostModel::after(before).surface_exists() {
            let i = choose|i: int|
                0 <= i < before.len() && (#[trigger] before[i]).outcome == HostOutcome::Completed;
            assert(rounds[i].outcome == HostOutcome::Completed);
        } else if rounds.last().outcome == HostOutcome::Completed {
            assert(rounds[rounds.len() - 1].outcome == HostOutcome::Completed);
        } else {
            assert forall|i: int| 0 <= i < rounds.len() implies (#[trigger] rounds[i]).outcome
                != HostOutcome::Completed by {
                if i < before.len() {
                    assert(before[i] == rounds[i]);
                }
            }
        }
    }
}

/// Two initializations in a row against a host that completes both: the
/// first creates the surface, the second reloads it, and one surface was
/// created in all.
pub proof fn lemma_second_initialization_reuses_surface(first: Round, second: Round)
    requires
        requests_follow_host(seq![first, second]),
        first.outcome == HostOutcome::Completed,
        second.outcome == HostOutcome::Completed,
    ensures
        first.action is Create,
        second.action is Reload,
        HostModel::after(seq![first, second]).created == 1,
        HostModel::after(seq![first, second]).live == 1,
{
    let both = seq![first, second];
    let one = both.drop_last();
    assert(one =~= seq![first]);
    assert(one.drop_last() =~= Seq::<Round>::empty());
    assert(HostModel::after(one.drop_last()) == HostModel::fresh());
    assert(requests_follow_host(one));
    assert(one.last() == first);
    assert(both.last() == second);
    assert(HostModel::after(one) == HostModel::fresh().perform(first.action, first.outcome));
}

impl HostOutcome {
    /// A failed request becomes the caller's `DelegationFailure`.
    pub fn into_result(self) -> (result: Result<(), CommandError>)
        ensures
            result == match self {
                HostOutcome::Completed => Ok::<(), CommandError>(()),
                HostOutcome::Failed => Err::<(), CommandError>(CommandError::DelegationFailure),
            },
    {
        match self {
            HostOutcome::Completed => Ok(()),
            HostOutcome::Failed => Err(CommandError::DelegationFailure),
        }
    }
}

impl Navigation {
    /// The title the surface gets: the destination as the caller gave it.
    pub fn title(&self) -> (title: &str)
        ensures
            title@ == self.destination@,
    {
        self.destination.as_str()
    }

    /// Decides a navigation request from what the host reported and from
    /// what the destination resolved to. A missing surface is reported
    /// before a destination that did not resolve.
    pub fn plan(
        surface_exists: bool,
        destination: String,
        deadline: i64,
        resolved: Result<String, CommandError>,
    ) -> (planned: Result<Navigation, CommandError>)
        ensures
            !surface_exists ==> planned == Err::<Navigation, CommandError>(
                CommandError::SurfaceNotFound,
            ),
            surface_exists && resolved is Err ==> planned == Err::<Navigation, CommandError>(
                resolved->Err_0,
            ),
            surface_exists && resolved is Ok ==> planned == Ok::<Navigation, CommandError>(
                (Navigation { destination, target: resolved->Ok_0, deadline }),
            ),
    {
        if !surface_exists {
            return Err(CommandError::SurfaceNotFound);
        }
        match resolved {
            Ok(target) => Ok(Navigation { destination, target, deadline }),
            Err(e) => Err(e),
        }
    }
}

} // verus!
