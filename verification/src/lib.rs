//! A thin, platform-independent core for a native windowing toolkit.
//!
//! Nothing here talks to the window system. Every operation either describes
//! what the platform is to be asked, as a plain value, or interprets what the
//! platform answered. The caller performs the call in between.

pub mod application;
pub mod builder;
pub mod controls;
pub mod event;
pub mod platform;
pub mod registry;
pub mod text;
pub mod window;

pub use application::{Application, LoopAction, LoopEvent, LoopState, Phase};
pub use builder::WindowBuilder;
pub use controls::{Button, Checkbox, Edit, Frame, ListBox};
pub use event::{Event, WindowEventHandler};
pub use platform::{Handle, Payload, PlatformError, Request};
pub use registry::{Disposition, Registry};
pub use text::{from_wchar, to_wchar};
pub use window::Window;
