//! What every packet buffer offers, whatever memory stands behind it.

use vstd::prelude::*;

verus! {

/// The state of a buffer as contracts see it.
pub struct BufModel<T> {
    /// Every byte of the slot, the headroom included.
    pub slot: Seq<u8>,
    /// Bytes at the start of the slot that come before the packet data.
    pub headroom: usize,
    /// Bytes of packet data, counted from the end of the headroom.
    pub len: u16,
    /// The value that the owner of the buffer keeps with it.
    pub user: T,
}

impl<T> BufModel<T> {
    /// Headroom and packet data together lie inside the slot.
    pub open spec fn wf(self) -> bool {
        self.headroom + self.len <= self.slot.len()
    }

    /// The bytes that follow the headroom.
    pub open spec fn capacity(self) -> int {
        self.slot.len() - self.headroom
    }

    /// The capacity exists and a length can express it.
    pub open spec fn has_capacity(self) -> bool {
        0 <= self.capacity() <= u16::MAX
    }

    /// The part of the slot in front of the packet data.
    pub open spec fn reserved(self) -> Seq<u8> {
        self.slot.subrange(0, self.headroom as int)
    }

    /// The part of the slot from the end of the headroom on.
    pub open spec fn payload(self) -> Seq<u8> {
        self.slot.subrange(self.headroom as int, self.slot.len() as int)
    }

    /// The packet itself: the first `len` bytes of the payload.
    pub open spec fn packet(self) -> Seq<u8> {
        self.slot.subrange(self.headroom as int, self.headroom + self.len)
    }
}

/// The slot is the headroom followed by the payload, and the capacity is the
/// size of the payload: the size of the slot less the headroom.
pub proof fn lemma_capacity<T>(m: BufModel<T>)
    requires
        m.headroom <= m.slot.len(),
    ensures
        m.capacity() == m.slot.len() - m.headroom,
        m.payload().len() == m.capacity(),
        m.reserved().len() == m.headroom,
        m.reserved() + m.payload() == m.slot,
        m.wf() ==> m.len <= m.capacity() && m.packet() == m.payload().subrange(0, m.len as int),
{
    assert(m.reserved() + m.payload() =~= m.slot);
    if m.wf() {
        assert(m.packet() =~= m.payload().subrange(0, m.len as int));
    }
}

/// What is written over the payload is what is read back from it. The
/// write leaves the headroom bytes, the size of the slot and the capacity as
/// they were, so a buffer whose headroom and length fit its slot stays one.
pub proof fn lemma_payload_written<T>(before: BufModel<T>, written: Seq<u8>)
    requires
        before.headroom <= before.slot.len(),
        written.len() == before.payload().len(),
    ensures
        ({
            let after = BufModel { slot: before.reserved() + written, ..before };
            &&& after.payload() == written
            &&& after.reserved() == before.reserved()
            &&& after.slot.len() == before.slot.len()
            &&& after.capacity() == before.capacity()
            &&& before.wf() ==> after.wf()
        }),
{
    let after = BufModel { slot: before.reserved() + written, ..before };
    assert(after.payload() =~= written);
    assert(after.reserved() =~= before.reserved());
}

/// A packet buffer.
///
/// Pipelines written against this trait run on mapped memory and, in tests,
/// on any other implementation. Every method states what it does to the
/// model, so code that is generic over `Buf` can be verified once.
pub trait Buf<T> where T: std::default::Default {
    /// The buffer as contracts see it. A verified implementation says here
    /// what its state is; one that is not verified has nothing to say.
    open spec fn view(&self) -> BufModel<T> {
        arbitrary()
    }

    /// The bytes of the slot that follow the headroom.
    fn get_data(&self) -> (data: &[u8])
        requires
            self@.headroom <= self@.slot.len(),
        ensures
            data@ == self@.payload(),
    ;

    /// The bytes of the slot that follow the headroom, for writing. What the
    /// caller leaves in them is what the slot holds afterwards; the headroom
    /// bytes stay as they were.
    fn get_data_mut(&mut self) -> (data: &mut [u8])
        requires
            old(self)@.headroom <= old(self)@.slot.len(),
        ensures
            data@ == old(self)@.payload(),
            final(self)@ == (BufModel { slot: old(self)@.reserved() + final(data)@, ..old(self)@ }),
            old(self)@.wf() && final(data)@.len() == data@.len() ==> final(self)@.wf(),
    ;

    /// Every byte of the slot, the headroom included.
    fn get_data_with_headroom(&self) -> (data: &[u8])
        ensures
            data@ == self@.slot,
    ;

    /// Every byte of the slot, the headroom included, for writing.
    fn get_data_with_headroom_mut(&mut self) -> (data: &mut [u8])
        ensures
            data@ == old(self)@.slot,
            final(self)@ == (BufModel { slot: final(data)@, ..old(self)@ }),
            old(self)@.wf() && final(data)@.len() == data@.len() ==> final(self)@.wf(),
    ;

    /// The size of the slot less the headroom.
    fn get_capacity(&self) -> (capacity: u16)
        requires
            self@.has_capacity(),
        ensures
            capacity == self@.capacity(),
    ;

    /// The number of bytes of packet data.
    fn get_len(&self) -> (len: u16)
        ensures
            len == self@.len,
    ;

    /// Moves the start of the packet data. The new headroom must leave room
    /// for the packet data that the buffer holds.
    fn set_headroom(&mut self, headroom: usize)
        requires
            headroom + old(self)@.len <= old(self)@.slot.len(),
        ensures
            final(self)@ == (BufModel { headroom, ..old(self)@ }),
            final(self)@.wf(),
    ;

    /// The number of bytes in front of the packet data.
    fn get_headroom(&self) -> (headroom: usize)
        ensures
            headroom == self@.headroom,
    ;

    /// Declares how many bytes of packet data the buffer holds: at most its
    /// capacity.
    fn set_len(&mut self, len: u16)
        requires
            old(self)@.has_capacity(),
            len <= old(self)@.capacity(),
        ensures
            final(self)@ == (BufModel { len, ..old(self)@ }),
            final(self)@.wf(),
    ;

    /// The value kept with the buffer.
    fn get_user(&self) -> (user: &T)
        ensures
            *user == self@.user,
    ;

    /// The value kept with the buffer, for writing.
    fn get_user_mut(&mut self) -> (user: &mut T)
        ensures
            *user == old(self)@.user,
            final(self)@ == (BufModel { user: *final(user), ..old(self)@ }),
            old(self)@.wf() ==> final(self)@.wf(),
    ;
}

/// Whether the headroom ends inside the slot, so that the buffer has a
/// payload: what `get_data` and `get_data_mut` ask for.
pub fn has_payload<T: std::default::Default, B: Buf<T>>(buf: &B) -> (ok: bool)
    ensures
        ok <==> buf@.headroom <= buf@.slot.len(),
{
    buf.get_headroom() <= buf.get_data_with_headroom().len()
}

/// Whether the buffer has a capacity that a length can express: what
/// `get_capacity` asks for.
pub fn has_capacity<T: std::default::Default, B: Buf<T>>(buf: &B) -> (ok: bool)
    ensures
        ok <==> buf@.has_capacity(),
{
    let size = buf.get_data_with_headroom().len();
    let headroom = buf.get_headroom();
    headroom <= size && size - headroom <= 0xffff
}

/// Whether the buffer can hold `len` bytes of packet data: what `set_len`
/// asks for.
pub fn len_fits<T: std::default::Default, B: Buf<T>>(buf: &B, len: u16) -> (ok: bool)
    ensures
        ok <==> buf@.has_capacity() && len <= buf@.capacity(),
{
    has_capacity(buf) && len <= buf.get_capacity()
}

/// Whether a headroom of `headroom` bytes leaves room in the slot for the
/// packet data that the buffer holds: what `set_headroom` asks for.
pub fn headroom_fits<T: std::default::Default, B: Buf<T>>(buf: &B, headroom: usize) -> (ok: bool)
    ensures
        ok <==> headroom + buf@.len <= buf@.slot.len(),
{
    let size = buf.get_data_with_headroom().len();
    let len = buf.get_len() as usize;
    len <= size && headroom <= size - len
}

} // verus!
