//! Status subcommands of the prover command-line tool: the closed set of
//! status queries, the dispatch that turns one of them into exactly one
//! collaborator call, and the single error type that every outcome is
//! reported in.
pub mod errors;
pub mod status;

pub use errors::{BatchError, CLIErrors};
pub use status::{Collaborator, Dispatch, Event, Request, StatusCommand};
