use vstd::prelude::*;
use crate::types::RouterError;

verus! {

/// Length of the MCTP transport header.
pub const HEADER_LEN: usize = 4;

/// The header version this router understands.
pub const HEADER_VERSION: u8 = 1;

/// The fields of an MCTP transport header.
#[derive(Debug, Clone, Copy, PartialEq, Eq)]
pub struct Header {
    pub dest: u8,
    pub source: u8,
    pub som: bool,
    pub eom: bool,
    pub seq: u8,
    pub tag_owner: bool,
    pub tag: u8,
}

/// A packet starts with a header of the known version.
pub open spec fn header_valid(p: Seq<u8>) -> bool {
    p.len() >= HEADER_LEN && p[0] & 0x0f == HEADER_VERSION
}

/// The header fields that the first bytes of `p` hold.
pub open spec fn header_of(p: Seq<u8>) -> Header {
    Header {
        dest: p[1],
        source: p[2],
        som: p[3] & 0x80 != 0,
        eom: p[3] & 0x40 != 0,
        seq: (p[3] >> 4u8) & 0x03,
        tag_owner: p[3] & 0x08 != 0,
        tag: p[3] & 0x07,
    }
}

/// Parses the transport header at the start of a packet.
pub fn parse_header(pkt: &[u8]) -> (r: Result<Header, RouterError>)
    ensures
        r is Ok <==> header_valid(pkt@),
        r is Ok ==> r->Ok_0 == header_of(pkt@),
        r is Err ==> r->Err_0 == RouterError::InvalidInput,
{
    if pkt.len() < HEADER_LEN || pkt[0] & 0x0f != HEADER_VERSION {
        return Err(RouterError::InvalidInput);
    }
    let flags = pkt[3];
    Ok(Header {
        dest: pkt[1],
        source: pkt[2],
        som: flags & 0x80 != 0,
        eom: flags & 0x40 != 0,
        seq: (flags >> 4u8) & 0x03,
        tag_owner: flags & 0x08 != 0,
        tag: flags & 0x07,
    })
}

} // verus!
