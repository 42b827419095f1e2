//! One-directional synchronisation of tracker bugs into repository issues.
//!
//! A bug and an issue belong together when the issue's title carries the
//! bug's identifier in square brackets. The crate decides, for every bug,
//! whether an issue has to be created or amended, and drives a run step by
//! step; a caller performs the transport.

pub mod text;
pub mod decimal;
pub mod query;
pub mod key;
pub mod record;
pub mod reconcile;
pub mod settings;
pub mod endpoint;
pub mod run;
pub mod percent;

pub use percent::encode;
