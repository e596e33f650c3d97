//! A retained-mode GUI widget toolkit core: preferred-size negotiation,
//! box layouts, event routing, dirty-region tracking and version-stamped
//! application state, all with machine-checked contracts.
//!
//! Geometry is measured in integer layout units. Every coordinate a
//! well-formed value carries stays within [`geom::COORD_LIMIT`], so sums
//! of two coordinates never overflow; the combinators saturate at that
//! bound, and the layout laws hold wherever the exact sums stay
//! representable.

pub mod context;
pub mod event;
pub mod flex;
pub mod geom;
pub mod layout;
pub mod paint;
pub mod size;
pub mod state;
pub mod widget;
pub mod widget_graph;
pub mod widgets;
pub mod window;

pub use context::WidgetContext;
pub use event::{Event, MouseEvent, KeyEvent, KeyCode, Change, EventResponse};
pub use flex::{Spacing, MainPref, MainPlace};
pub use geom::{Size, Vec2, Rect};
pub use layout::{Layout, ListLayout, ChildMeta, HBox, VBox, Index};
pub use paint::{Painter, PaintCmd, Color};
pub use size::{Grow, Grow2, PrefSize};
pub use state::{StateID, StateManager, ListenerID, CloneState, StateInner, Key, Lens, Id, Then, State};
pub use widget::Widget;
pub use widget_graph::{WidgetGraph, StateRoot, Env};
pub use widgets::{Empty, Spacer, Container, Wrapper, WrapperResponse, WrapperWidget, Padding, PrefSizeWrapper, Stacked, AB, statcked, EventModifier, ClickListener, event_listener, event_filter, click_listener, StateWidgetImpl};
pub use window::{WindowBuilder, WindowInput, MinSize, KeyAction};
