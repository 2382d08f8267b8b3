//! A Model-Update-View component engine for a native widget toolkit.
//!
//! Each component owns its state, receives typed messages through its own
//! [`EventStream`], and turns one state into the next in `update`. A parent
//! attaches a child's root into its native container and keeps the returned
//! [`Component`]; the run loop drains each component's stream in arrival
//! order. A [`Resolver`] lets a synchronous toolkit callback answer code that
//! waits on the loop.
//!
//! The toolkit itself stays outside: the engine sees a root handle that it
//! stores and hands on, a container that attaches and detaches, and a loop
//! that calls `dispatch`.

pub mod callback;
pub mod component;
pub mod container;
pub mod state;
pub mod stream;
pub mod widget;

pub use crate::callback::Resolver;
pub use crate::component::{create_component, create_widget, execute, init_component};
pub use crate::component::{Component, Execution};
pub use crate::container::{Container, ContainerComponent, ContainerExt, ContainerWidget};
pub use crate::state::{DisplayVariant, IntoOption, Relm, Update, UpdateNew};
pub use crate::stream::EventStream;
pub use crate::widget::{Widget, WidgetTest};
