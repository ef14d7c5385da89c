//! Modal dialogs for a reactive interface: one overlay at a time, opened by
//! handles and shown by a collector.

pub mod collector;
pub mod hooks;
pub mod laws;
pub mod machine;
pub mod modal;
pub mod view;

pub use collector::CloseFn;
pub use collector::Collector;
pub use collector::Frame;
pub use collector::Renderer;
pub use hooks::_use_modal;
pub use modal::Modal;
pub use view::Rendered;
