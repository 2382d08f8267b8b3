//! What the visible half of a component implements.

use vstd::prelude::*;

use crate::state::{Relm, Update};

verus! {

/// A component with a view: it owns a native root and builds it from its
/// model.
pub trait Widget: Update {
    /// The type of the native root handle.
    type Root;

    /// The type of the native container that takes this widget; `()` for a
    /// widget that is never attached.
    type Parent;

    /// Second phase of view construction, for what needs the native objects
    /// to exist already.
    fn init_view(self) -> (ready: Self)
        default_ensures
            ready == self,
    {
        self
    }

    /// Called once, right after the root was attached to `parent`, for what
    /// depends on the parent.
    fn on_add(self, parent: &Self::Parent) -> (placed: Self)
        default_ensures
            placed == self,
    {
        self
    }

    /// Names the region of a custom container that this widget goes into;
    /// `None` stands for the container's default region.
    fn parent_id() -> (id: Option<&'static str>)
        default_ensures
            id is None,
    {
        None
    }

    /// The native root of the view. Asking has no effect, and asking again
    /// gives the same handle.
    fn root(&self) -> Self::Root;

    /// Builds the view from the initial model.
    fn view(relm: &Relm<Self>, model: Self::Model) -> Self;
}

/// Access to the streams and native widgets inside a component, for tests
/// of components whose view is generated.
pub trait WidgetTest: Widget {
    /// Holds the streams of the child components.
    type Streams;

    /// Holds the native widgets of the view.
    type Widgets;

    /// The streams of the child components.
    fn get_streams(&self) -> Self::Streams;

    /// The native widgets of the view.
    fn get_widgets(&self) -> Self::Widgets;
}

} // verus!
