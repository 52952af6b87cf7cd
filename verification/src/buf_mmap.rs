//! The buffer that stands on one slot of a mapped arena.

use vstd::prelude::*;
use crate::buf::Buf;
use crate::buf::BufModel;
use crate::text::address;
use crate::text::decimal;
use crate::text::decimal_text;

verus! {

/// The line that describes a buffer in a log, where `data` is the text of
/// the address at which its slot lies.
pub open spec fn description(
    addr: u64,
    len: u16,
    capacity: u16,
    headroom: usize,
    data: Seq<char>,
) -> Seq<char> {
    "BufMMap addr="@ + decimal_text(addr as i128) + " len="@ + decimal_text(len as i128)
        + " capacity="@ + decimal_text(capacity as i128) + " headroom="@ + decimal_text(
        headroom as i128,
    ) + " data="@ + data
}

/// A buffer on one slot of a mapped arena.
///
/// The buffer borrows its slot and owns no memory: dropping it frees nothing
/// and leaves the slot's bytes as they are.
#[derive(Debug)]
pub struct BufMmap<'a, T> where T: std::default::Default {
    /// Offset of the slot from the base of the arena.
    pub(crate) addr: u64,
    /// Bytes of packet data.
    pub(crate) len: u16,
    /// Bytes in front of the packet data.
    pub(crate) headroom: usize,
    /// The slot.
    pub(crate) data: &'a mut [u8],
    /// The value kept with the buffer.
    pub(crate) user: T,
}

impl<'a, T> BufMmap<'a, T> where T: std::default::Default {
    /// Offset of the slot from the base of the arena.
    pub closed spec fn spec_addr(&self) -> u64 {
        self.addr
    }

    /// The borrow of the slot: what the slot holds now and, through `final`,
    /// what it is left holding once the buffer is gone.
    pub closed spec fn region(&self) -> &'a mut [u8] {
        self.data
    }

    /// An empty buffer on the slot `data`, which lies `addr` bytes into its
    /// arena. The headroom must end inside the slot.
    pub fn new(addr: u64, headroom: usize, data: &'a mut [u8], user: T) -> (buf: Self)
        requires
            headroom <= old(data)@.len(),
        ensures
            buf@ == (BufModel { slot: old(data)@, headroom, len: 0, user }),
            buf@.wf(),
            buf.spec_addr() == addr,
            final(buf.region())@ == final(data)@,
    {
        BufMmap { addr, len: 0, headroom, data, user }
    }

    /// Offset of the slot from the base of the arena. It never changes.
    pub fn get_addr(&self) -> (addr: u64)
        ensures
            addr == self.spec_addr(),
    {
        self.addr
    }

    /// The line that describes the buffer in a log, where `data` is the text
    /// of the address at which its slot lies.
    pub fn describe(&self, data: &str) -> (text: String)
        requires
            self@.has_capacity(),
        ensures
            text@ == description(
                self.spec_addr(),
                self@.len,
                self@.capacity() as u16,
                self@.headroom,
                data@,
            ),
    {
        let mut text = "BufMMap addr=".to_owned();
        text.push_str(decimal(self.addr as i128).as_str());
        text.push_str(" len=");
        text.push_str(decimal(self.len as i128).as_str());
        text.push_str(" capacity=");
        text.push_str(decimal(self.get_capacity() as i128).as_str());
        text.push_str(" headroom=");
        text.push_str(decimal(self.headroom as i128).as_str());
        text.push_str(" data=");
        text.push_str(data);
        text
    }

    /// The line that describes the buffer in a log: offset, length,
    /// capacity, headroom and the address of the slot. It is for people to
    /// read; no decision should rest on it.
    pub fn to_string(&self) -> (text: String)
        requires
            self@.has_capacity(),
            self@.slot.len() > 0,
        ensures
            exists|data: Seq<char>|
                text@ == #[trigger] description(
                    self.spec_addr(),
                    self@.len,
                    self@.capacity() as u16,
                    self@.headroom,
                    data,
                ),
    {
        let data = address(&self.data[0]);
        self.describe(data.as_str())
    }

    /// A buffer that is gone leaves in its slot what it held last.
    pub proof fn lemma_dropped_leaves_slot(self)
        requires
            has_resolved(self),
        ensures
            final(self.region())@ == self@.slot,
    {
    }
}

impl<'a, T> Buf<T> for BufMmap<'a, T> where T: std::default::Default {
    closed spec fn view(&self) -> BufModel<T> {
        BufModel { slot: self.data@, headroom: self.headroom, len: self.len, user: self.user }
    }

    fn get_data(&self) -> (data: &[u8]) {
        let end = self.data.len();
        &self.data[self.headroom..end]
    }

    fn get_data_mut(&mut self) -> (data: &mut [u8])
        ensures
            final(self).spec_addr() == old(self).spec_addr(),
            final(final(self).region())@ == final(old(self).region())@,
    {
        let (_, data) = self.data.split_at_mut(self.headroom);
        data
    }

    fn get_data_with_headroom(&self) -> (data: &[u8]) {
        &*self.data
    }

    fn get_data_with_headroom_mut(&mut self) -> (data: &mut [u8])
        ensures
            final(self).spec_addr() == old(self).spec_addr(),
            final(final(self).region())@ == final(old(self).region())@,
    {
        &mut *self.data
    }

    fn get_capacity(&self) -> (capacity: u16) {
        (self.data.len() - self.headroom) as u16
    }

    fn get_len(&self) -> (len: u16) {
        self.len
    }

    fn set_headroom(&mut self, headroom: usize)
        ensures
            final(self).spec_addr() == old(self).spec_addr(),
            final(final(self).region())@ == final(old(self).region())@,
    {
        self.headroom = headroom;
    }

    fn get_headroom(&self) -> (headroom: usize) {
        self.headroom
    }

    fn set_len(&mut self, len: u16)
        ensures
            final(self).spec_addr() == old(self).spec_addr(),
            final(final(self).region())@ == final(old(self).region())@,
    {
        self.len = len;
    }

    fn get_user(&self) -> (user: &T) {
        &self.user
    }

    fn get_user_mut(&mut self) -> (user: &mut T)
        ensures
            final(self).spec_addr() == old(self).spec_addr(),
            final(final(self).region())@ == final(old(self).region())@,
    {
        &mut self.user
    }
}

} // verus!
