//! The snapshot handed to whoever draws the navigation overlay.
//!
//! The snapshot is data only: which destinations there are, which of them
//! is active, and how far the rotation window has run. Markup is the
//! renderer's business.

use vstd::prelude::*;
use crate::rotation::{percent, percent_at};
use crate::session::{SessionState, texts};
use crate::store::SessionStore;

verus! {

/// One destination of the overlay.
#[derive(Clone, Debug, PartialEq, Eq)]
pub struct OverlayEntry {
    /// The destination's text.
    pub url: String,
    /// Whether it is the active destination.
    pub is_active: bool,
}

/// Everything the overlay shows.
#[derive(Clone, Debug, PartialEq, Eq)]
pub struct OverlayModel {
    /// The destinations in display order.
    pub destinations: Vec<OverlayEntry>,
    /// Elapsed share of the rotation window, 0 to 100.
    pub progress_percent: u8,
}

/// An [`OverlayEntry`] as a mathematical value.
pub struct EntryView {
    pub url: Seq<char>,
    pub is_active: bool,
}

/// An [`OverlayModel`] as a mathematical value.
pub struct OverlayView {
    pub destinations: Seq<EntryView>,
    pub progress_percent: int,
}

impl View for OverlayEntry {
    type V = EntryView;

    open spec fn view(&self) -> EntryView {
        EntryView { url: self.url@, is_active: self.is_active }
    }
}

impl View for OverlayModel {
    type V = OverlayView;

    open spec fn view(&self) -> OverlayView {
        OverlayView {
            destinations: Seq::new(self.destinations@.len(), |i: int| self.destinations@[i]@),
            progress_percent: self.progress_percent as int,
        }
    }
}

/// The overlay of `session` at `now`: one entry per destination, in order,
/// active where its text is the active destination's, and the progress of
/// the rotation window.
pub open spec fn overlay_of(session: SessionState, now: int) -> OverlayView {
    OverlayView {
        destinations: Seq::new(
            session.destinations.len(),
            |i: int|
                EntryView {
                    url: session.destinations[i],
                    is_active: session.is_active(session.destinations[i]),
                },
        ),
        progress_percent: percent_at(now, session.activated_at, session.deadline),
    }
}

impl OverlayModel {
    /// Takes the overlay of the session in `store` at `now`.
    pub fn snapshot(store: &SessionStore, now: i64) -> (model: OverlayModel)
        ensures
            model@ == overlay_of(store@, now as int),
    {
        let list = store.destinations();
        let mut entries: Vec<OverlayEntry> = Vec::new();
        let mut i: usize = 0;
        while i < list.len()
            invariant
                i <= list.len(),
                texts(list@) == store@.destinations,
                entries@.len() == i,
                forall|j: int|
                    0 <= j < i ==> (#[trigger] entries@[j])@ == (EntryView {
                        url: store@.destinations[j],
                        is_active: store@.is_active(store@.destinations[j]),
                    }),
            decreases list.len() - i,
        {
            let url = list[i].clone();
            assert(url@ == texts(list@)[i as int]);
            let is_active: bool = store.is_active(&url);
            entries.push(OverlayEntry { url, is_active });
            i += 1;
        }
        let progress_percent: u8 = percent(now, store.activated_at(), store.rotation_deadline());
        let model = OverlayModel { destinations: entries, progress_percent };
        assert(model@.destinations =~= overlay_of(store@, now as int).destinations);
        model
    }
}

} // verus!
