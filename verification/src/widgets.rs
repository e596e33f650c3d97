//! The widget vocabulary: leaves, containers and composition adapters.

pub mod empty;
pub mod spacer;
pub mod container;
pub mod wrap;
pub mod listener;
pub mod style;
pub mod text;
pub mod state_widget;
pub mod background;
pub mod button;

pub use empty::Empty;
pub use spacer::Spacer;
pub use container::Container;
pub use wrap::{Wrapper, WrapperResponse, WrapperWidget, Padding, PrefSizeWrapper, Stacked, AB, statcked};
pub use listener::{EventModifier, ClickListener, event_listener, event_filter, click_listener};
pub use state_widget::StateWidgetImpl;
pub use background::{BackgroundWrapper, background};
pub use text::{Label, DynLabel, TextInput};
pub use style::{Fill, Background, Style, StyleAtlas, DynamicStyle, StaticStyle, MouseState, StyleState, Sheet, get_style, default_style, button_style, textfield_style};
pub use button::button;
