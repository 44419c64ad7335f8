//! HTTP/3 client configuration: the settings a client announces in its
//! SETTINGS frame, how they are built and read back, QPACK decoder stream
//! bookkeeping and the mapping of datagram errors.
use vstd::prelude::*;

pub mod frame;
pub mod config;
pub mod client;
pub mod qpack;
pub mod datagram;

verus! {
} // verus!
