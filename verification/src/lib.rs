//! Opening a URL or a local file in a web browser.
//!
//! The library decides; it never touches the machine. Whoever uses it reads
//! the environment into an [`Environment`], calls [`open`] with a [`Host`]
//! that has no replies yet, and then, as long as a [`Step::Ask`] comes back,
//! carries out the request, adds the reply to the host and calls again.

pub mod android;
pub mod browser;
pub mod desktop_entry;
pub mod dry_run;
pub mod error;
pub mod host;
pub mod ios;
pub mod launch;
pub mod macos;
pub mod open;
pub mod options;
pub mod target;
pub mod template;
pub mod text;
pub mod token;
pub mod unix;
pub mod wasm;
pub mod windows;
pub mod wsl;

pub use crate::browser::Browser;
pub use crate::browser::ParseBrowserError;
pub use crate::error::Error;
pub use crate::error::ErrorKind;
pub use crate::host::CandidateCommand;
pub use crate::host::Environment;
pub use crate::host::Host;
pub use crate::host::Platform;
pub use crate::host::Reply;
pub use crate::host::Request;
pub use crate::host::Script;
pub use crate::host::Step;
pub use crate::open::open;
pub use crate::open::open_browser;
pub use crate::open::open_browser_with_options;
pub use crate::open::open_target;
pub use crate::options::BrowserOptions;
pub use crate::target::Target;
