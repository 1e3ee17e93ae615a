//! An editable rich-text box: the decisions behind its focus, blinking
//! cursor, key bindings, mouse gestures and text content.
pub mod binding;
pub mod content;
pub mod focus;
pub mod keyboard;
pub mod layout;
pub mod state;
pub mod style;
pub mod update;

pub use binding::{motion, Binding, CursorMotion, KeyPress};
pub use content::{Content, Line, LineEnding};
pub use focus::{Focus, CURSOR_BLINK_INTERVAL_MILLIS};
pub use keyboard::{Key, Modifiers, Named, Status};
pub use layout::layout_background;
pub use state::{Effect, Request, State};
pub use style::Style;
pub use update::{ClickKind, Event, ScrollDelta, Update};
