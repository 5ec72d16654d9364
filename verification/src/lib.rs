//! The core of an interactive shell front-end: classification of submitted
//! lines, interpretation of captured command output, and the session state
//! that ties them together.

pub mod classifier;
pub mod delegate;
pub mod directory;
pub mod execution;
pub mod interpreter;
pub mod output;
pub mod session;
pub mod text;
