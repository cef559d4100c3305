//! Container bootstrap: the ordered kernel actions that turn a freshly cloned
//! process into an isolated, restricted container, with the decisions between
//! them verified.

pub mod action;
pub mod devnum;
pub mod filter;
pub mod mounts;
pub mod privilege;
pub mod runner;
pub mod shell;
