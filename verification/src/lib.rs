//! Download-on-demand LanguageTool grammar checking for offline desktop apps.
//!
//! LanguageTool is never bundled with an application. When the user enables it, it is downloaded
//! (with a Java runtime, if no suitable one is on the system) into the local application data
//! directory of the user. While the app runs, its HTTP server runs as a child process on a port of
//! the loopback interface, and texts are checked by requests to it.
//!
//! ```text
//! NotInstalled -> Downloading -> Installing -> Stopped
//!                                                 |
//!                                              start()
//!                                                 |
//!                                             Starting -> Ready
//!                                                           |
//!                                                         stop()
//!                                                           |
//!                                                        Stopped
//! ```
//!
//! Any step can lead to `Error`.
//!
//! This crate holds every decision and none of the I/O. What takes more than one piece of outside
//! work, such as [`provision::Provisioner`], is a machine: it says what is to be done next, is told
//! what came of it, and so on until it has come to an end.

pub mod client;
pub mod config;
pub mod digest;
pub mod engine;
pub mod error;
pub mod java;
pub mod laws;
pub mod layout;
pub mod lifecycle;
pub mod order;
pub mod provision;
pub mod resolve;
pub mod state;
pub mod task;
pub mod text;
pub mod unzip;

pub use client::GrammarMatch;
pub use config::EngineConfig;
pub use engine::LanguageToolEngine;
pub use error::Error;
pub use state::EngineState;
