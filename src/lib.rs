//! Decisions of a command-line tool that renders a page in a headless
//! browser and saves the resulting HTML, plus an optional screenshot.
//!
//! The browser does all of the rendering; this library holds the choices made
//! around it: the options and their defaults, where a browser is looked for,
//! how a screenshot's image format follows from its file name, which user
//! agent is sent, and the order of the steps of one rendering session.

pub mod browser;
pub mod cli;
pub mod emulation;
pub mod screenshot;
pub mod session;

pub use browser::{browser_candidates, first_present, install_hints, launch_flags, located_browser};
pub use cli::{Cli, DEFAULT_OUTPUT};
pub use emulation::{
    script_execution_params, screenshot_params, UserAgentOverride, ACCEPT_LANGUAGE, CAPTURE_FULL_PAGE,
    DEFAULT_USER_AGENT, PLATFORM, RUN_SCRIPTS, VIEWPORT_HEIGHT, VIEWPORT_WIDTH,
};
pub use screenshot::{extension_format, screenshot_format, ScreenshotFormat};
pub use session::{next_step, Session, Step};
