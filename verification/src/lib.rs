//! A live video streaming core: raw captured frames are converted from
//! 4-channel BGRA to 3-channel RGB, compressed to JPEG, framed as
//! length-prefixed packets, and fanned out to any number of subscribers
//! through a bounded-backlog broadcast distributor.

use vstd::prelude::*;

pub mod capture_helper;
pub mod captures;
pub mod distributor;
pub mod frame_compressor;
pub mod packet;
pub mod stage;

verus! {

} // verus!
