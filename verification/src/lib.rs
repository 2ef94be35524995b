//! Listing of running compute instances: the rules that turn optional command
//! line inputs into a filtered list request, and a nested response into the
//! lines shown to the user.

pub mod args;
pub mod cli;
pub mod connection;
pub mod credentials;
pub mod error;
pub mod filter;
pub mod instance;
pub mod options;
pub mod pipeline;
pub mod presenter;
pub mod region;
pub mod summary;
pub mod text;
pub mod walker;

pub use crate::args::Args;
