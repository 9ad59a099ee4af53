//! The editor as a server and its clients: requests, command lines, and the
//! two platforms on which they run.

pub mod command;
pub mod common;
pub mod options;
pub mod unix;
pub mod win;
