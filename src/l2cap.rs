//! L2CAP basic frames: channel identifiers and a builder that lays out the
//! frame header (payload length and channel id, both little-endian), an
//! optional protocol/service multiplexer (PSM) and the payload.
use vstd::prelude::*;

use crate::gap::le_u16;

verus! {

/// Null channel identifier; must not be used.
pub const CID_NULL: u16 = 0x0000;

/// Legacy L2CAP signaling channel.
pub const CID_SIGNALING: u16 = 0x0001;

/// Legacy connectionless channel.
pub const CID_CONNECTIONLESS: u16 = 0x0002;

/// Attribute protocol (ATT) channel.
pub const CID_ATT: u16 = 0x0004;

/// LE L2CAP signaling channel.
pub const CID_LE_SIGNALING: u16 = 0x0005;

/// LE security manager channel.
pub const CID_LE_SECURITY_MANAGER: u16 = 0x0006;

/// Size of the basic frame header: payload length and channel id.
pub const HEADER_LENGTH: usize = 4;

/// Shortest PSM a connectionless frame carries.
pub const MIN_PSM_LENGTH: usize = 2;

/// An L2CAP channel, named by its channel identifier (CID).
#[derive(Copy, Clone, PartialEq, Eq, Structural, Debug)]
pub struct Channel {
    pub cid: u16,
}

impl Channel {
    /// The channel with this identifier.
    pub fn new(cid: u16) -> (r: Self)
        ensures
            r.cid == cid,
    {
        Channel { cid }
    }

    /// Whether the identifier is in the range of assigned fixed channels.
    pub fn is_assigned(&self) -> (r: bool)
        ensures
            r == (0x0020 <= self.cid <= 0x003E),
    {
        0x0020 <= self.cid && self.cid <= 0x003E
    }

    /// Whether the identifier is in the LE dynamically allocated range.
    pub fn is_dynamic(&self) -> (r: bool)
        ensures
            r == (0x0040 <= self.cid <= 0x007F),
    {
        0x0040 <= self.cid && self.cid <= 0x007F
    }

    /// Whether frames on this channel belong to a connection.
    pub fn is_connection_oriented(&self) -> (r: bool)
        ensures
            r == (self.cid != CID_CONNECTIONLESS),
    {
        !self.is_connectionless()
    }

    /// Whether this is the connectionless channel.
    pub fn is_connectionless(&self) -> (r: bool)
        ensures
            r == (self.cid == CID_CONNECTIONLESS),
    {
        self.cid == CID_CONNECTIONLESS
    }

    /// Whether this is one of the signaling channels.
    pub fn is_signaling(&self) -> (r: bool)
        ensures
            r == (self.cid == CID_SIGNALING || self.cid == CID_LE_SIGNALING),
    {
        self.cid == CID_SIGNALING || self.cid == CID_LE_SIGNALING
    }
}

/// Builds a basic frame in a caller's buffer: `new` writes the channel id,
/// `psm` and `payload` write their bytes, `build` gives the frame length.
pub struct Builder {
    pub channel: Channel,
    pub payload_length: usize,
    /// connectionless channels use a PSM
    pub psm_length: usize,
}

impl Builder {
    pub open spec fn wf(&self) -> bool {
        &&& self.psm_length <= u16::MAX
        &&& self.payload_length <= u16::MAX
    }

    /// Where the payload starts: after the header, and after the PSM on a
    /// connectionless channel.
    pub open spec fn payload_offset(&self) -> int {
        if self.channel.cid != CID_CONNECTIONLESS {
            HEADER_LENGTH as int
        } else {
            HEADER_LENGTH + self.psm_length
        }
    }

    /// Starts a frame on `channel`: writes its identifier into bytes 2 and 3.
    pub fn new(channel: Channel, buffer: &mut [u8]) -> (r: Self)
        requires
            old(buffer)@.len() >= HEADER_LENGTH,
        ensures
            r.channel == channel,
            r.payload_length == 0,
            r.psm_length == 0,
            r.wf(),
            final(buffer)@ == old(buffer)@.subrange(0, 2) + le_u16(channel.cid) + old(buffer)@.subrange(
                4,
                old(buffer)@.len() as int,
            ),
    {
        let ghost b0 = buffer@;
        buffer[2] = channel.cid as u8;
        buffer[3] = (channel.cid >> 8u16) as u8;
        assert(buffer@ =~= b0.subrange(0, 2) + le_u16(channel.cid) + b0.subrange(4, b0.len() as int));
        Builder { channel, payload_length: 0, psm_length: 0 }
    }

    /// Sets the PSM: writes it right after the header.
    pub fn psm(self, buffer: &mut [u8], psm: &[u8]) -> (r: Self)
        requires
            self.wf(),
            self.channel.cid != CID_CONNECTIONLESS,
            psm@.len() <= u16::MAX,
            HEADER_LENGTH + psm@.len() <= old(buffer)@.len(),
        ensures
            r.wf(),
            r.channel == self.channel,
            r.payload_length == self.payload_length,
            r.psm_length == psm@.len(),
            final(buffer)@ == old(buffer)@.subrange(0, HEADER_LENGTH as int) + psm@ + old(buffer)@.subrange(
                HEADER_LENGTH + psm@.len(),
                old(buffer)@.len() as int,
            ),
    {
        copy_into(buffer, HEADER_LENGTH, psm);
        Builder { psm_length: psm.len(), ..self }
    }

    /// Sets the payload: writes it after the header (and after the PSM on a
    /// connectionless channel) and writes the frame's payload length
    /// (PSM and payload) into bytes 0 and 1.
    pub fn payload(self, buffer: &mut [u8], payload: &[u8]) -> (r: Self)
        requires
            self.wf(),
            self.channel.cid == CID_CONNECTIONLESS ==> self.psm_length >= MIN_PSM_LENGTH,
            self.psm_length + payload@.len() <= u16::MAX,
            self.payload_offset() + payload@.len() <= old(buffer)@.len(),
        ensures
            r.wf(),
            r.channel == self.channel,
            r.psm_length == self.psm_length,
            r.payload_length == payload@.len(),
            final(buffer)@ == le_u16((self.psm_length + payload@.len()) as u16) + old(buffer)@.subrange(
                2,
                self.payload_offset(),
            ) + payload@ + old(buffer)@.subrange(
                self.payload_offset() + payload@.len(),
                old(buffer)@.len() as int,
            ),
    {
        let ghost b0 = buffer@;
        let offset = if self.channel.is_connection_oriented() {
            HEADER_LENGTH
        } else {
            HEADER_LENGTH + self.psm_length
        };
        copy_into(buffer, offset, payload);
        let pdu_length = (self.psm_length + payload.len()) as u16;
        let ghost b1 = buffer@;
        buffer[0] = pdu_length as u8;
        buffer[1] = (pdu_length >> 8u16) as u8;
        assert(buffer@ =~= le_u16(pdu_length) + b0.subrange(2, offset as int) + payload@ + b0.subrange(
            offset + payload@.len(),
            b0.len() as int,
        ));
        Builder { payload_length: payload.len(), ..self }
    }

    /// The length of the whole frame: header, PSM and payload.
    pub fn build(&self) -> (r: Result<usize, &'static str>)
        requires
            self.wf(),
        ensures
            r == Ok::<usize, &'static str>((HEADER_LENGTH + self.psm_length + self.payload_length) as usize),
    {
        Ok(HEADER_LENGTH + self.psm_length + self.payload_length)
    }
}

/// Copies `src` into `buffer` from `at` on.
fn copy_into(buffer: &mut [u8], at: usize, src: &[u8])
    requires
        at + src@.len() <= old(buffer)@.len(),
    ensures
        final(buffer)@ == old(buffer)@.subrange(0, at as int) + src@ + old(buffer)@.subrange(
            at + src@.len(),
            old(buffer)@.len() as int,
        ),
{
    let ghost b0 = buffer@;
    let mut i: usize = 0;
    while i < src.len()
        invariant
            i <= src@.len(),
            at + src@.len() <= buffer.len(),
            at + src@.len() <= b0.len(),
            buffer@ == b0.subrange(0, at as int) + src@.subrange(0, i as int) + b0.subrange(
                at + i,
                b0.len() as int,
            ),
        decreases src@.len() - i,
    {
        buffer[at + i] = src[i];
        assert(buffer@ =~= b0.subrange(0, at as int) + src@.subrange(0, i + 1) + b0.subrange(
            at + i + 1,
            b0.len() as int,
        ));
        i += 1;
    }
    assert(src@.subrange(0, src@.len() as int) =~= src@);
}

} // verus!
