//! A dotfile linker.
//!
//! The library reads nothing from the machine itself: it holds the fixed
//! mapping table from configuration entry names to link destinations, the
//! per-entry link decisions, and the semantics of a whole linking run over a
//! model of the relevant filesystem state. Every function is verified: the
//! contracts say exactly which links a run creates, which entries it skips,
//! and on which inputs it fails with which error. A thin unverified shell
//! performs the actual directory listing and symlink creation, feeding plain
//! values to the functions here and carrying out the actions they decide.

pub mod errors;
pub mod linker;
pub mod table;


