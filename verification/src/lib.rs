//! Two minimal dynamic containers built over an explicitly managed,
//! slab-style owned buffer: a growable array with push/pop at the tail
//! (stack discipline) and a FIFO queue with append at the tail and
//! removal from an advancing head index.
//!
//! Both containers manage capacity themselves: storage is acquired
//! lazily, grown by doubling on demand, and live elements always occupy
//! a contiguous range of slots. The queue never reclaims slots its head
//! has passed; its capacity is consumed permanently until the whole
//! structure is dropped.

pub mod array;
pub mod laws;
pub mod queue;
pub mod render;
