//! What is drawn on top of the view: at most one overlay, and always the
//! one that takes the keys.

use crate::app::App;
use crate::input::KeyInput;
use crate::model::AppState;
use crate::state::AppView;
use vstd::prelude::*;

verus! {

/// What is drawn over the view.
#[derive(Clone, Copy, Debug, PartialEq, Eq, Structural)]
pub enum Overlay {
    GeometricMatch,
    AssetDetails,
    Search,
    Help,
}

impl AppView {
    /// The overlay that is drawn: the modal that is open, the match modal
    /// before the details modal before the search modal where more than one
    /// is open; the help where no modal is open and the help is shown.
    pub open spec fn overlay(self) -> Option<Overlay> {
        if self.show_geometric_match_modal {
            Some(Overlay::GeometricMatch)
        } else if self.show_asset_details_modal {
            Some(Overlay::AssetDetails)
        } else if self.show_search_modal {
            Some(Overlay::Search)
        } else if self.current_state == AppState::Help {
            Some(Overlay::Help)
        } else {
            None
        }
    }
}

impl App {
    /// The overlay that is drawn, if one is.
    pub fn overlay(&self) -> (r: Option<Overlay>)
        ensures
            r == self@.overlay(),
    {
        if self.show_geometric_match_modal {
            Some(Overlay::GeometricMatch)
        } else if self.show_asset_details_modal {
            Some(Overlay::AssetDetails)
        } else if self.show_search_modal {
            Some(Overlay::Search)
        } else if self.current_state == AppState::Help {
            Some(Overlay::Help)
        } else {
            None
        }
    }
}

/// The overlay that is drawn is the one that takes the keys: a modal is
/// drawn exactly when a modal is open, and a key goes to the modal that is
/// drawn and to nothing else.
pub proof fn law_the_overlay_takes_the_keys(s: AppView, key: KeyInput)
    ensures
        s.modal_open() <==> (s.overlay() is Some && s.overlay() != Some(Overlay::Help)),
        s.overlay() == Some(Overlay::GeometricMatch) ==> s.after_key(key) == s.after_match_key(
            key,
        ),
        s.overlay() == Some(Overlay::AssetDetails) ==> s.after_key(key) == s.after_details_key(
            key,
        ),
        s.overlay() == Some(Overlay::Search) ==> s.after_key(key) == s.after_search_key(key),
{
}

} // verus!
