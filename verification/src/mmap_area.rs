//! The arena: one mapping, cut once into slots that never overlap.
//!
//! The arena itself asks nothing of the operating system. It says which
//! mapping it needs ([`map_request`]), takes what the system gave
//! ([`MmapArea::new`]) and says what has to be given back at the end
//! ([`MmapArea::release`]).
//!
//! # Sharing an arena between threads
//!
//! Once `new` has returned an arena, no field of it changes: the fields are
//! private, every method takes `&self`, and none of them writes. Any number
//! of threads may therefore read one arena through an `Arc` at the same
//! time, with no lock between them. That is all the safety of sharing rests
//! on: that nothing is written after construction, not that readers are kept
//! apart at run time. A lock is left out on purpose. Buffers come back from
//! the kernel at line rate and the base address is read for each of them, so
//! a lock would be fought over on the hottest path there is.
//!
//! The arena keeps the base of the mapping as a number and holds no value of
//! `T`, so nothing in it can be reached through it and changed from another
//! thread.

use std::marker::PhantomData;
use std::sync::Arc;
use vstd::prelude::*;
use crate::buf::Buf;
use crate::buf_mmap::BufMmap;
use crate::layout::lemma_slot_inside;
use crate::layout::slot_bytes;
use crate::layout::slot_start;
use crate::text::decimal;
use crate::text::decimal_text;
use crate::AF_XDP_RESERVED;

verus! {

/// The address that stands for "no mapping". An arena whose base is this
/// address has nothing to give back.
pub const MAP_FAILED: usize = usize::MAX;

/// Why an arena could not be made.
#[derive(Debug)]
pub enum MmapError {
    /// The system did not provide the mapping that was asked for.
    Failed,
}

/// Configuration options for an arena.
#[derive(Debug)]
pub struct MmapAreaOptions {
    /// Ask for a mapping backed by huge pages.
    pub huge_tlb: bool,
}

impl Default for MmapAreaOptions {
    fn default() -> (options: Self)
        ensures
            !options.huge_tlb,
    {
        MmapAreaOptions { huge_tlb: false }
    }
}

/// The mapping that an arena needs, in the terms in which a system is asked
/// for one.
#[derive(Debug)]
pub struct MapRequest {
    /// Length of the mapping in bytes.
    pub len: usize,
    /// The memory can be read.
    pub readable: bool,
    /// The memory can be written.
    pub writable: bool,
    /// Writes stay with this process and reach no file.
    pub private: bool,
    /// No file stands behind the mapping; it starts as zeros.
    pub anonymous: bool,
    /// Huge pages back the mapping, which eases the load on the TLB under
    /// high packet rates.
    pub huge_tlb: bool,
}

/// A mapping to give back to the system.
#[derive(Debug)]
pub struct MappedRegion {
    /// Base address of the mapping.
    pub addr: usize,
    /// Length of the mapping in bytes.
    pub len: usize,
}

/// The mapping of `len` bytes that an arena asks for under `options`:
/// anonymous, private, readable and writable.
pub open spec fn arena_request(len: usize, options: MmapAreaOptions) -> MapRequest {
    MapRequest {
        len,
        readable: true,
        writable: true,
        private: true,
        anonymous: true,
        huge_tlb: options.huge_tlb,
    }
}

/// The mapping to ask for, for `buf_num` slots of `buf_len` bytes each. A
/// size that no address can reach is a mapping that cannot be had.
pub fn map_request(buf_num: usize, buf_len: usize, options: &MmapAreaOptions) -> (r: Result<
    MapRequest,
    MmapError,
>)
    ensures
        r is Ok <==> buf_num * buf_len <= usize::MAX,
        r matches Ok(request) ==> request == arena_request((buf_num * buf_len) as usize, *options),
        r matches Err(e) ==> e == MmapError::Failed,
{
    match buf_num.checked_mul(buf_len) {
        Some(len) => Ok(
            MapRequest {
                len,
                readable: true,
                writable: true,
                private: true,
                anonymous: true,
                huge_tlb: options.huge_tlb,
            },
        ),
        None => Err(MmapError::Failed),
    }
}

/// The line that reports a release call that failed with error number
/// `errno`.
pub open spec fn unmap_failure_text(errno: i32) -> Seq<char> {
    "munmap failed errno: "@ + decimal_text(errno as i128)
}

/// Calls `errno::errno`, which reads the error number that the last failed
/// system call of this thread left, and takes the number out of the value.
/// Nothing is claimed of the number.
#[verifier::external_body]
fn last_errno() -> (errno: i32) {
    errno::errno().0
}

/// What there is to log once the system has answered the release call with
/// `status` and left the error number `errno`: nothing after a success, one
/// line after a failure. A failed release is reported and goes no further:
/// nobody is left who could mend it.
pub fn unmap_report(status: i32, errno: i32) -> (report: Option<String>)
    ensures
        status == 0 <==> report is None,
        report matches Some(text) ==> text@ == unmap_failure_text(errno),
{
    if status == 0 {
        return None;
    }
    let mut text = "munmap failed errno: ".to_owned();
    text.push_str(decimal(errno as i128).as_str());
    Some(text)
}

/// What there is to log once the system has answered the release call with
/// `status`. To be called right after that call: after a failure it reads
/// the error number that the call left.
pub fn unmap_failure(status: i32) -> (report: Option<String>)
    ensures
        status == 0 <==> report is None,
        report matches Some(text) ==> exists|errno: i32|
            text@ == #[trigger] unmap_failure_text(errno),
{
    if status == 0 {
        return None;
    }
    unmap_report(status, last_errno())
}

/// Whether `buf_num` slots of `buf_len` bytes can each hold the reserve at
/// their start: what [`MmapArea::new`] asks for.
pub fn slots_hold_reserve(buf_num: usize, buf_len: usize) -> (ok: bool)
    ensures
        ok <==> buf_num == 0 || buf_len >= AF_XDP_RESERVED,
{
    buf_num == 0 || buf_len as u64 >= AF_XDP_RESERVED
}

/// What buffer `i` of an arena is when the arena has just been made over the
/// bytes `arena`.
pub open spec fn fresh<'a, T: std::default::Default>(
    buf: BufMmap<'a, T>,
    i: int,
    buf_len: usize,
    arena: Seq<u8>,
) -> bool {
    &&& buf.spec_addr() == slot_start(i, buf_len as int)
    &&& buf@.slot == slot_bytes(arena, i, buf_len as int)
    &&& buf@.headroom == AF_XDP_RESERVED
    &&& buf@.len == 0
    &&& call_ensures(T::default, (), buf@.user)
}

/// A mapped arena of `buf_num` slots of `buf_len` bytes each.
#[derive(Debug)]
pub struct MmapArea<'a, T: std::default::Default + std::marker::Copy> {
    phantom: PhantomData<&'a T>,
    buf_num: usize,
    buf_len: usize,
    ptr: usize,
}

impl<'a, T: std::default::Default + std::marker::Copy> MmapArea<'a, T> {
    #[verifier::type_invariant]
    spec fn sized(self) -> bool {
        self.ptr != MAP_FAILED ==> self.buf_num * self.buf_len <= usize::MAX
    }

    /// The number of slots.
    pub closed spec fn spec_buf_num(&self) -> usize {
        self.buf_num
    }

    /// The size of a slot in bytes.
    pub closed spec fn spec_buf_len(&self) -> usize {
        self.buf_len
    }

    /// The base address of the mapping.
    pub closed spec fn spec_ptr(&self) -> usize {
        self.ptr
    }

    /// Makes the arena over the mapping that the system gave for
    /// [`map_request`]: `bytes` is the mapped memory and `addr` its base
    /// address, or [`MAP_FAILED`] where the system gave none.
    ///
    /// A slot must hold the reserve at its start, so slots smaller than the
    /// reserve are not to be asked for ([`slots_hold_reserve`] tests that).
    ///
    /// Slot `i` becomes buffer `i`, and every buffer starts with its headroom
    /// and length inside its slot. What is left in a buffer when it goes is
    /// what the arena holds at that slot: the arena ends up as the slots laid
    /// end to end, in order.
    pub fn new(buf_num: usize, buf_len: usize, addr: usize, bytes: &'a mut [u8]) -> (r: Result<
        (Arc<MmapArea<'a, T>>, Vec<BufMmap<'a, T>>),
        MmapError,
    >)
        requires
            buf_num == 0 || buf_len >= AF_XDP_RESERVED,
        ensures
            r is Ok <==> addr != MAP_FAILED && old(bytes)@.len() == buf_num * buf_len,
            r matches Err(e) ==> e == MmapError::Failed && final(bytes)@ == old(bytes)@,
            r matches Ok((area, bufs)) ==> {
                &&& area.spec_buf_num() == buf_num
                &&& area.spec_buf_len() == buf_len
                &&& area.spec_ptr() == addr
                &&& bufs@.len() == buf_num
                &&& forall|i: int|
                    0 <= i < buf_num ==> fresh(#[trigger] bufs@[i], i, buf_len, old(bytes)@)
                &&& forall|i: int| 0 <= i < buf_num ==> (#[trigger] bufs@[i])@.slot.len() == buf_len
                &&& forall|i: int|
                    0 <= i < buf_num ==> (#[trigger] bufs@[i])@.wf() && bufs@[i]@.payload().len()
                        == buf_len - AF_XDP_RESERVED
                &&& final(bytes)@ == Seq::new(
                    buf_num as nat,
                    |i: int| final(bufs@[i].region())@,
                ).flatten()
            },
    {
        if addr == MAP_FAILED {
            return Err(MmapError::Failed);
        }
        let mapped = bytes.len();
        match buf_num.checked_mul(buf_len) {
            Some(total) => {
                if total != mapped {
                    return Err(MmapError::Failed);
                }
            },
            None => {
                return Err(MmapError::Failed);
            },
        }
        let ma = Arc::new(MmapArea { buf_num, buf_len, ptr: addr, phantom: PhantomData });

        let mut bufs: Vec<BufMmap<'a, T>> = Vec::with_capacity(buf_num);
        let mut rest = bytes;
        let mut i: usize = 0;
        assert(Seq::new(0nat, |k: int| final(bufs@[k].region())@) =~= Seq::<Seq<u8>>::empty());
        assert(old(bytes)@.subrange(0, buf_num * buf_len) == old(bytes)@);
        while i < buf_num
            invariant
                i <= buf_num,
                bufs@.len() == i,
                buf_num == 0 || buf_len >= AF_XDP_RESERVED,
                buf_num * buf_len == old(bytes)@.len() <= usize::MAX,
                rest@ == old(bytes)@.subrange(i * buf_len, buf_num * buf_len),
                forall|k: int| 0 <= k < i ==> fresh(#[trigger] bufs@[k], k, buf_len, old(bytes)@),
                final(bytes)@ == Seq::new(i as nat, |k: int| final(bufs@[k].region())@).flatten()
                    + final(rest)@,
            decreases buf_num - i,
        {
            proof {
                lemma_slot_inside(i as int, buf_num as int, buf_len as int);
            }
            let ghost landed = Seq::new(i as nat, |k: int| final(bufs@[k].region())@);
            let ghost made = bufs@;
            let (slot, tail) = rest.split_at_mut(buf_len);
            assert(slot@ =~= slot_bytes(old(bytes)@, i as int, buf_len as int));
            assert(tail@ =~= old(bytes)@.subrange((i + 1) * buf_len, buf_num * buf_len));
            let ghost fate = final(slot)@;
            let offset = (i * buf_len) as u64;
            let buf = BufMmap::new(offset, AF_XDP_RESERVED as usize, slot, T::default());
            bufs.push(buf);
            rest = tail;
            i = i + 1;
            proof {
                assert(bufs@ == made.push(buf));
                assert(Seq::new(i as nat, |k: int| final(bufs@[k].region())@) =~= landed.push(
                    fate,
                ));
                landed.lemma_flatten_push(fate);
                assert(landed.flatten() + (fate + final(rest)@) =~= landed.flatten() + fate
                    + final(rest)@);
            }
        }
        proof {
            assert forall|k: int| 0 <= k < buf_num implies (#[trigger] bufs@[k])@.slot.len()
                == buf_len by {
                lemma_slot_inside(k, buf_num as int, buf_len as int);
                assert(fresh(bufs@[k], k, buf_len, old(bytes)@));
            }
        }
        Ok((ma, bufs))
    }

    /// The base address of the mapping. The rings need it to turn a slot's
    /// offset into the address that the kernel sees; nothing else should.
    pub fn get_ptr(&self) -> (ptr: usize)
        ensures
            ptr == self.spec_ptr(),
    {
        self.ptr
    }

    /// The number of slots.
    pub fn get_buf_num(&self) -> (buf_num: usize)
        ensures
            buf_num == self.spec_buf_num(),
    {
        self.buf_num
    }

    /// The size of a slot in bytes.
    pub fn get_buf_len(&self) -> (buf_len: usize)
        ensures
            buf_len == self.spec_buf_len(),
    {
        self.buf_len
    }

    /// What the owner gives back to the system when the arena goes: the
    /// whole mapping, or nothing where the arena never had one.
    pub fn release(&self) -> (r: Option<MappedRegion>)
        ensures
            self.spec_ptr() == MAP_FAILED <==> r is None,
            r matches Some(region) ==> region.addr == self.spec_ptr() && region.len
                == self.spec_buf_num() * self.spec_buf_len(),
    {
        proof {
            use_type_invariant(self);
        }
        if self.ptr == MAP_FAILED {
            return None;
        }
        Some(MappedRegion { addr: self.ptr, len: self.buf_num * self.buf_len })
    }
}

} // verus!
