//! Packet buffers for a kernel-bypass network path.
//!
//! One mapped arena is cut into slots of equal size. Each slot is handed out
//! as a buffer that tracks how many bytes in front of the packet are reserved
//! (the headroom) and how many bytes of packet data it holds (the length).
//! The kernel and the program find a slot by its offset from the arena's base
//! address.

pub mod buf;
pub mod buf_mmap;
pub mod layout;
pub mod mmap_area;
pub mod text;

use vstd::prelude::*;

verus! {

/// The number of bytes at the start of every slot that the kernel keeps for
/// itself; a fresh buffer starts with this headroom.
pub const AF_XDP_RESERVED: u64 = 256;

} // verus!
