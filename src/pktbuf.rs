use vstd::prelude::*;
use crate::types::{RouterError, MAX_MTU};
use crate::header::{parse_header, header_valid, header_of};

verus! {

/// The outcome of copying packet `p` into a buffer.
pub open spec fn set_result(p: Seq<u8>) -> Result<(), RouterError> {
    if !header_valid(p) {
        Err(RouterError::InvalidInput)
    } else if p.len() > MAX_MTU {
        Err(RouterError::NoSpace)
    } else {
        Ok(())
    }
}

/// A packet held in a fixed buffer of `MAX_MTU` bytes, with its length
/// and the destination endpoint read from its header.
///
/// Only the first `len` bytes are the packet; the tail is not cleared.
pub struct PktBuf {
    data: [u8; MAX_MTU],
    len: usize,
    dest: mctp::Eid,
}

impl PktBuf {
    /// The length never exceeds the buffer.
    pub closed spec fn wf(&self) -> bool {
        self.len <= MAX_MTU
    }

    /// The packet bytes.
    pub closed spec fn bytes(&self) -> Seq<u8> {
        self.data@.subrange(0, self.len as int)
    }

    /// The whole buffer, tail included.
    pub closed spec fn raw(&self) -> Seq<u8> {
        self.data@
    }

    /// This buffer with its storage replaced by `d`.
    pub closed spec fn with_raw(&self, d: [u8; MAX_MTU]) -> PktBuf {
        PktBuf { data: d, ..*self }
    }

    pub closed spec fn dest_eid(&self) -> mctp::Eid {
        self.dest
    }

    /// An empty buffer.
    pub fn new() -> (r: PktBuf)
        ensures
            r.wf(),
            r.bytes().len() == 0,
            r.dest_eid() == mctp::Eid(0),
    {
        PktBuf { data: [0u8; MAX_MTU], len: 0, dest: mctp::Eid(0) }
    }

    /// Copies a whole packet in and records its destination.
    ///
    /// On error the buffer is left as it was.
    pub fn set(&mut self, pkt: &[u8]) -> (r: Result<(), RouterError>)
        requires
            old(self).wf(),
        ensures
            final(self).wf(),
            r == set_result(pkt@),
            r is Ok ==> final(self).bytes() == pkt@ && final(self).dest_eid() == mctp::Eid(
                header_of(pkt@).dest,
            ),
            r is Err ==> *final(self) == *old(self),
    {
        let hdr = match parse_header(pkt) {
            Ok(h) => h,
            Err(e) => return Err(e),
        };
        if pkt.len() > MAX_MTU {
            return Err(RouterError::NoSpace);
        }
        let mut i: usize = 0;
        while i < pkt.len()
            invariant
                i <= pkt@.len() <= MAX_MTU,
                self.len <= MAX_MTU,
                forall|j: int| 0 <= j < i ==> self.data@[j] == pkt@[j],
            decreases pkt@.len() - i,
        {
            self.data[i] = pkt[i];
            i = i + 1;
        }
        self.len = pkt.len();
        self.dest = mctp::Eid(hdr.dest);
        assert(self.bytes() =~= pkt@);
        Ok(())
    }

    /// Records a packet that was written in place into `data`.
    pub fn commit(&mut self, len: usize, dest: mctp::Eid)
        requires
            len <= MAX_MTU,
        ensures
            final(self).wf(),
            final(self).bytes() == old(self).raw().subrange(0, len as int),
            final(self).dest_eid() == dest,
            final(self).raw() == old(self).raw(),
    {
        self.len = len;
        self.dest = dest;
    }

    /// The whole storage, for a packet to be written in place before
    /// `commit`.
    pub fn buffer_mut(&mut self) -> (r: &mut [u8; MAX_MTU])
        ensures
            r@ == old(self).raw(),
            *final(self) == old(self).with_raw(*final(r)),
            final(self).raw() == final(r)@,
            final(self).wf() == old(self).wf(),
            final(self).dest_eid() == old(self).dest_eid(),
    {
        &mut self.data
    }

    /// The packet bytes.
    pub fn as_slice(&self) -> (r: &[u8])
        requires
            self.wf(),
        ensures
            r@ == self.bytes(),
    {
        self.data.as_slice().split_at(self.len).0
    }

    /// The destination endpoint of the packet.
    pub fn dest(&self) -> (r: mctp::Eid)
        ensures
            r == self.dest_eid(),
    {
        self.dest
    }
}

} // verus!
