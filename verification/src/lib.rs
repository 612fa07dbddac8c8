//! A small journal of text posts: the rules of the `dablog` command line,
//! its posts table and the commands that act on it.

pub mod cli;
pub mod clock;
pub mod editor;
pub mod fault;
pub mod ident;
pub mod laws;
pub mod post;
pub mod session;
pub mod storage;
pub mod store;
pub mod table;
