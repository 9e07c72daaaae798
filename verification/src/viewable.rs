//! The widget interface: anything that can produce a drawable view.

use vstd::prelude::*;

verus! {

/// All views in a view group share a common `ViewGroupId`.
///
/// The active, in-focus view group is the one that handles input events.
pub type ViewGroupId = usize;

/// A widget that can produce a view of itself with implicit geometry.
pub trait Viewable {
    /// The view the widget produces.
    type ViewType;

    /// The view group this widget's views belong to, if any.
    fn view_group_id(&self) -> Option<ViewGroupId>;

    /// Produces the widget's view at its configured position and size.
    fn view(&self) -> Self::ViewType;
}

} // verus!
