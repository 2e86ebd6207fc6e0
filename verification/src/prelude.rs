//! The types that a plugin needs, in one place.

pub use crate::api::{CVar, CVarValue, HostCall, LogLevel, NumericBool, API};
pub use crate::application::Application;
pub use crate::display::{Display, DockOrientation, Space, SpaceType};
pub use crate::event::{
    Carried, DisplayID, Event, HandleEvent, Lifecycle, Outcome, RawData, Subscription,
};
pub use crate::payload::Payload;
pub use crate::raw::{
    Handle, ProcessSerialNumber, RawApplication, RawDisplay, RawObserver, RawPayload, RawSpace,
    RawWindow, Scalar,
};
pub use crate::window::{Window, WindowFlag};
pub use crate::ChunkWMError;
