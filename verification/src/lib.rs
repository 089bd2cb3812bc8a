//! Run a command on the SSH local host from the remote host: the library
//! holds the protocol between client and server and every decision that the
//! client, the server and their output pumps take.
use vstd::prelude::*;

pub mod args;
pub mod client;
pub mod credential;
pub mod laws;
pub mod protocol;
pub mod pump;
pub mod server;
pub mod socket;

verus! {

/// Size of the buffer that output pumps read into.
pub const BUFFER_SIZE: usize = 4096;

} // verus!
