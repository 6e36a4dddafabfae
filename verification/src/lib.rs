//! The start-up of a worker object built around a message port.
//!
//! The host carries out every request and reports how each went; this
//! library decides what is asked of the host, in which order, and when the
//! construction is complete or abandoned.

pub mod app;
pub mod console;
pub mod progress;
pub mod request;
pub mod value;

pub use app::WasmApp;
pub use console::{error_doing_weird_stuff, ConsoleCall, ConsoleCallView};
pub use progress::Progress;
pub use request::{Request, RequestView};
pub use value::{Value, ValueView};
