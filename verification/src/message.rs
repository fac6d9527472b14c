//! HSES message structures: the common header, the request and response
//! sub-headers, and whole messages, with their byte layouts.

use crate::error::ProtocolError;
use crate::wire::{
    le_u16, le_u32, lemma_u16_bytes_roundtrip, lemma_u16_roundtrip, lemma_u32_bytes_roundtrip,
    lemma_u32_roundtrip, push_u16_le, push_u32_le, read_u16_le, read_u32_le, u16_at, u32_at,
};
use bytes::BytesMut;
use vstd::prelude::*;

verus! {

#[verifier::external_type_specification]
#[verifier::external_body]
pub struct ExBytesMut(BytesMut);

/// The bytes that a `bytes::BytesMut` buffer holds.
pub uninterp spec fn bytes_mut_contents(b: BytesMut) -> Seq<u8>;

/// `BytesMut::with_capacity(capacity)`: an empty buffer.
#[verifier::external_body]
fn bytes_mut_with_capacity(capacity: usize) -> (r: BytesMut)
    requires
        capacity <= isize::MAX,
    ensures
        bytes_mut_contents(r) == Seq::<u8>::empty(),
{
    BytesMut::with_capacity(capacity)
}

/// `BytesMut::extend_from_slice(dst, bytes)`: appends the bytes.
#[verifier::external_body]
fn bytes_mut_extend(dst: &mut BytesMut, bytes: &[u8])
    requires
        bytes_mut_contents(*old(dst)).len() + bytes@.len() <= isize::MAX,
    ensures
        bytes_mut_contents(*final(dst)) == bytes_mut_contents(*old(dst)) + bytes@,
{
    dst.extend_from_slice(bytes)
}

/// The bytes a `BytesMut` holds (through its `Deref` to `[u8]`), copied
/// into a vector.
#[verifier::external_body]
pub(crate) fn bytes_mut_to_vec(b: &BytesMut) -> (r: Vec<u8>)
    ensures
        r@ == bytes_mut_contents(*b),
{
    b.to_vec()
}

/// The magic bytes `YERC` that open every HSES header.
pub open spec fn yerc() -> Seq<u8> {
    seq![0x59u8, 0x45u8, 0x52u8, 0x43u8]
}

/// Size of the common header in bytes.
pub const COMMON_HEADER_SIZE: usize = 24;

/// Size of a request or response sub-header in bytes.
pub const SUB_HEADER_SIZE: usize = 8;

/// HSES common header (bytes 0-23 of every message).
#[derive(Debug, Clone)]
pub struct HsesCommonHeader {
    pub magic: [u8; 4],
    pub header_size: u16,
    pub payload_size: u16,
    pub reserved_magic: u8,
    pub division: u8,
    pub ack: u8,
    pub request_id: u8,
    pub block_number: u32,
    pub reserved: [u8; 8],
}

/// The 24 bytes that encode a common header.
pub open spec fn common_header_bytes(h: HsesCommonHeader) -> Seq<u8> {
    h.magic@ + le_u16(h.header_size) + le_u16(h.payload_size) + seq![
        h.reserved_magic,
        h.division,
        h.ack,
        h.request_id,
    ] + le_u32(h.block_number) + h.reserved@
}

/// The common header that the first 24 bytes of `s` hold.
pub open spec fn parse_common_header(s: Seq<u8>) -> HsesCommonHeader {
    HsesCommonHeader {
        magic: [s[0], s[1], s[2], s[3]],
        header_size: u16_at(s, 4),
        payload_size: u16_at(s, 6),
        reserved_magic: s[8],
        division: s[9],
        ack: s[10],
        request_id: s[11],
        block_number: u32_at(s, 12),
        reserved: [s[16], s[17], s[18], s[19], s[20], s[21], s[22], s[23]],
    }
}

/// The block number that a header with this acknowledgement flag carries.
pub open spec fn block_number_for_ack(ack: u8) -> u32 {
    if ack == 1 {
        0x8000_0000
    } else {
        0
    }
}

impl HsesCommonHeader {
    /// A header with the `YERC` magic, header size 0x20, reserved magic 3, the
    /// reserved bytes "99999999", and block number 0x80000000 for an
    /// acknowledgement (`ack == 1`) and 0 otherwise.
    pub fn new(division: u8, ack: u8, request_id: u8, payload_size: u16) -> (r: Self)
        ensures
            r.magic@ == yerc(),
            r.header_size == 0x20,
            r.payload_size == payload_size,
            r.reserved_magic == 3,
            r.division == division,
            r.ack == ack,
            r.request_id == request_id,
            r.block_number == block_number_for_ack(ack),
            r.reserved@ == Seq::new(8, |i: int| 0x39u8),
    {
        let r = Self {
            magic: [0x59u8, 0x45u8, 0x52u8, 0x43u8],
            header_size: 0x20,
            payload_size,
            reserved_magic: 0x03,
            division,
            ack,
            request_id,
            block_number: if ack == 0x01 {
                0x8000_0000
            } else {
                0
            },
            reserved: [0x39u8, 0x39u8, 0x39u8, 0x39u8, 0x39u8, 0x39u8, 0x39u8, 0x39u8],
        };
        assert(r.magic@ =~= yerc());
        assert(r.reserved@ =~= Seq::new(8, |i: int| 0x39u8));
        r
    }

    /// The 24 bytes of this header.
    fn to_vec(&self) -> (r: Vec<u8>)
        ensures
            r@ == common_header_bytes(*self),
    {
        let mut r = Vec::new();
        r.push(self.magic[0]);
        r.push(self.magic[1]);
        r.push(self.magic[2]);
        r.push(self.magic[3]);
        assert(r@ =~= self.magic@);
        push_u16_le(&mut r, self.header_size);
        push_u16_le(&mut r, self.payload_size);
        r.push(self.reserved_magic);
        r.push(self.division);
        r.push(self.ack);
        r.push(self.request_id);
        push_u32_le(&mut r, self.block_number);
        let ghost before = r@;
        let mut i: usize = 0;
        while i < 8
            invariant
                i <= 8,
                r@ == before + self.reserved@.take(i as int),
            decreases 8 - i,
        {
            r.push(self.reserved[i]);
            i = i + 1;
            assert(self.reserved@.take(i as int) =~= self.reserved@.take((i - 1) as int).push(
                self.reserved@[i - 1],
            ));
        }
        assert(self.reserved@.take(8) =~= self.reserved@);
        assert(r@ =~= common_header_bytes(*self));
        r
    }

    /// Appends the 24 bytes of this header to `dst`.
    pub fn encode(&self, dst: &mut BytesMut)
        requires
            bytes_mut_contents(*old(dst)).len() + 24 <= isize::MAX,
        ensures
            bytes_mut_contents(*final(dst)) == bytes_mut_contents(*old(dst)) + common_header_bytes(
                *self,
            ),
    {
        let v = self.to_vec();
        bytes_mut_extend(dst, v.as_slice());
    }

    /// Reads a header from the front of `src` and advances `src` past it.
    /// Fewer than 24 bytes are an underflow; a header that does not start with
    /// `YERC` is invalid. On an error `src` is left as it was.
    pub fn decode(src: &mut &[u8]) -> (r: Result<Self, ProtocolError>)
        ensures
            old(src)@.len() < 24 ==> r matches Err(ProtocolError::Underflow),
            old(src)@.len() >= 24 && old(src)@.take(4) != yerc() ==> r matches Err(
                ProtocolError::InvalidHeader,
            ),
            old(src)@.len() >= 24 && old(src)@.take(4) == yerc() ==> r == Ok::<
                HsesCommonHeader,
                ProtocolError,
            >(parse_common_header(old(src)@)) && final(src)@ == old(src)@.skip(24),
            r is Err ==> final(src)@ == old(src)@,
    {
        let s: &[u8] = *src;
        if s.len() < 24 {
            return Err(ProtocolError::Underflow);
        }
        let magic = [s[0], s[1], s[2], s[3]];
        if !(magic[0] == 0x59 && magic[1] == 0x45 && magic[2] == 0x52 && magic[3] == 0x43) {
            assert(s@.take(4) != yerc()) by {
                if s@.take(4) == yerc() {
                    assert(s@.take(4)[0] == 0x59);
                    assert(s@.take(4)[1] == 0x45);
                    assert(s@.take(4)[2] == 0x52);
                    assert(s@.take(4)[3] == 0x43);
                }
            }
            return Err(ProtocolError::InvalidHeader);
        }
        assert(s@.take(4) =~= yerc());
        let h = Self {
            magic,
            header_size: read_u16_le(s, 4),
            payload_size: read_u16_le(s, 6),
            reserved_magic: s[8],
            division: s[9],
            ack: s[10],
            request_id: s[11],
            block_number: read_u32_le(s, 12),
            reserved: [s[16], s[17], s[18], s[19], s[20], s[21], s[22], s[23]],
        };
        *src = vstd::slice::slice_subrange(s, 24, s.len());
        assert(src@ =~= old(src)@.skip(24));
        Ok(h)
    }
}

/// Reading back the bytes of a header gives the same header, whatever follows it.
pub proof fn law_common_header_roundtrip(h: HsesCommonHeader, rest: Seq<u8>)
    ensures
        parse_common_header(common_header_bytes(h) + rest) == h,
{
    let s = common_header_bytes(h) + rest;
    lemma_u16_roundtrip(h.header_size);
    lemma_u16_roundtrip(h.payload_size);
    lemma_u32_roundtrip(h.block_number);
    let p = parse_common_header(s);
    assert(s.subrange(4, 6) =~= le_u16(h.header_size));
    assert(s.subrange(6, 8) =~= le_u16(h.payload_size));
    assert(s.subrange(12, 16) =~= le_u32(h.block_number));
    assert(p.header_size == h.header_size);
    assert(p.payload_size == h.payload_size);
    assert(p.block_number == h.block_number);
    assert(p.magic@ =~= h.magic@);
    assert(p.reserved@ =~= h.reserved@);
    assert(p.magic == h.magic);
    assert(p.reserved == h.reserved);
}

/// Encoding a header read from 24 bytes gives back those bytes.
pub proof fn law_common_header_reencode(s: Seq<u8>)
    requires
        s.len() >= 24,
    ensures
        common_header_bytes(parse_common_header(s)) == s.take(24),
{
    lemma_u16_bytes_roundtrip(s[4], s[5]);
    lemma_u16_bytes_roundtrip(s[6], s[7]);
    lemma_u32_bytes_roundtrip(s[12], s[13], s[14], s[15]);
    assert(common_header_bytes(parse_common_header(s)) =~= s.take(24));
}

/// Request sub-header (bytes 24-31 of a request).
#[derive(Debug, Clone)]
pub struct HsesRequestSubHeader {
    pub command: u16,
    pub instance: u16,
    pub attribute: u8,
    pub service: u8,
    pub padding: u16,
}

/// The 8 bytes that encode a request sub-header.
pub open spec fn request_sub_header_bytes(h: HsesRequestSubHeader) -> Seq<u8> {
    le_u16(h.command) + le_u16(h.instance) + seq![h.attribute, h.service] + le_u16(h.padding)
}

/// The request sub-header that the first 8 bytes of `s` hold.
pub open spec fn parse_request_sub_header(s: Seq<u8>) -> HsesRequestSubHeader {
    HsesRequestSubHeader {
        command: u16_at(s, 0),
        instance: u16_at(s, 2),
        attribute: s[4],
        service: s[5],
        padding: u16_at(s, 6),
    }
}

impl HsesRequestSubHeader {
    /// A request sub-header with zero padding.
    pub fn new(command: u16, instance: u16, attribute: u8, service: u8) -> (r: Self)
        ensures
            r == (HsesRequestSubHeader { command, instance, attribute, service, padding: 0 }),
    {
        Self { command, instance, attribute, service, padding: 0 }
    }

    /// The 8 bytes of this sub-header.
    fn to_vec(&self) -> (r: Vec<u8>)
        ensures
            r@ == request_sub_header_bytes(*self),
    {
        let mut r = Vec::new();
        push_u16_le(&mut r, self.command);
        push_u16_le(&mut r, self.instance);
        r.push(self.attribute);
        r.push(self.service);
        push_u16_le(&mut r, self.padding);
        assert(r@ =~= request_sub_header_bytes(*self));
        r
    }

    /// Appends the 8 bytes of this sub-header to `dst`.
    pub fn encode(&self, dst: &mut BytesMut)
        requires
            bytes_mut_contents(*old(dst)).len() + 8 <= isize::MAX,
        ensures
            bytes_mut_contents(*final(dst)) == bytes_mut_contents(*old(dst))
                + request_sub_header_bytes(*self),
    {
        let v = self.to_vec();
        bytes_mut_extend(dst, v.as_slice());
    }

    /// Reads a sub-header from the front of `src` and advances `src` past it;
    /// fewer than 8 bytes are an underflow, and leave `src` as it was.
    pub fn decode(src: &mut &[u8]) -> (r: Result<Self, ProtocolError>)
        ensures
            old(src)@.len() < 8 ==> (r matches Err(ProtocolError::Underflow)) && final(src)@ == old(
                src,
            )@,
            old(src)@.len() >= 8 ==> r == Ok::<HsesRequestSubHeader, ProtocolError>(
                parse_request_sub_header(old(src)@),
            ) && final(src)@ == old(src)@.skip(8),
    {
        let s: &[u8] = *src;
        if s.len() < 8 {
            return Err(ProtocolError::Underflow);
        }
        let h = Self {
            command: read_u16_le(s, 0),
            instance: read_u16_le(s, 2),
            attribute: s[4],
            service: s[5],
            padding: read_u16_le(s, 6),
        };
        *src = vstd::slice::slice_subrange(s, 8, s.len());
        assert(src@ =~= old(src)@.skip(8));
        Ok(h)
    }
}

/// Reading back the bytes of a request sub-header gives the same sub-header.
pub proof fn law_request_sub_header_roundtrip(h: HsesRequestSubHeader, rest: Seq<u8>)
    ensures
        parse_request_sub_header(request_sub_header_bytes(h) + rest) == h,
{
    let s = request_sub_header_bytes(h) + rest;
    lemma_u16_roundtrip(h.command);
    lemma_u16_roundtrip(h.instance);
    lemma_u16_roundtrip(h.padding);
    assert(s.subrange(0, 2) =~= le_u16(h.command));
    assert(s.subrange(2, 4) =~= le_u16(h.instance));
    assert(s.subrange(6, 8) =~= le_u16(h.padding));
}

/// Response sub-header (bytes 24-31 of a response).
#[derive(Debug, Clone)]
pub struct HsesResponseSubHeader {
    pub service: u8,
    pub status: u8,
    pub added_status_size: u8,
    pub padding1: u8,
    pub added_status: u16,
    pub padding2: u16,
}

/// The 8 bytes that encode a response sub-header.
pub open spec fn response_sub_header_bytes(h: HsesResponseSubHeader) -> Seq<u8> {
    seq![h.service, h.status, h.added_status_size, h.padding1] + le_u16(h.added_status) + le_u16(
        h.padding2,
    )
}

/// The response sub-header that the first 8 bytes of `s` hold.
pub open spec fn parse_response_sub_header(s: Seq<u8>) -> HsesResponseSubHeader {
    HsesResponseSubHeader {
        service: s[0],
        status: s[1],
        added_status_size: s[2],
        padding1: s[3],
        added_status: u16_at(s, 4),
        padding2: u16_at(s, 6),
    }
}

impl HsesResponseSubHeader {
    /// A response sub-header for a request with the given service: the
    /// response service is the request service plus 0x80, and the added status
    /// is two bytes long.
    pub fn new(service: u8, status: u8, added_status: u16) -> (r: Self)
        requires
            service < 0x80,
        ensures
            r == (HsesResponseSubHeader {
                service: (service + 0x80) as u8,
                status,
                added_status_size: 2,
                padding1: 0,
                added_status,
                padding2: 0,
            }),
    {
        Self {
            service: service + 0x80,
            status,
            added_status_size: 2,
            padding1: 0,
            added_status,
            padding2: 0,
        }
    }

    /// The 8 bytes of this sub-header.
    fn to_vec(&self) -> (r: Vec<u8>)
        ensures
            r@ == response_sub_header_bytes(*self),
    {
        let mut r = Vec::new();
        r.push(self.service);
        r.push(self.status);
        r.push(self.added_status_size);
        r.push(self.padding1);
        push_u16_le(&mut r, self.added_status);
        push_u16_le(&mut r, self.padding2);
        assert(r@ =~= response_sub_header_bytes(*self));
        r
    }

    /// Appends the 8 bytes of this sub-header to `dst`.
    pub fn encode(&self, dst: &mut BytesMut)
        requires
            bytes_mut_contents(*old(dst)).len() + 8 <= isize::MAX,
        ensures
            bytes_mut_contents(*final(dst)) == bytes_mut_contents(*old(dst))
                + response_sub_header_bytes(*self),
    {
        let v = self.to_vec();
        bytes_mut_extend(dst, v.as_slice());
    }

    /// Reads a sub-header from the front of `src` and advances `src` past it;
    /// fewer than 8 bytes are an underflow, and leave `src` as it was.
    pub fn decode(src: &mut &[u8]) -> (r: Result<Self, ProtocolError>)
        ensures
            old(src)@.len() < 8 ==> (r matches Err(ProtocolError::Underflow)) && final(src)@ == old(
                src,
            )@,
            old(src)@.len() >= 8 ==> r == Ok::<HsesResponseSubHeader, ProtocolError>(
                parse_response_sub_header(old(src)@),
            ) && final(src)@ == old(src)@.skip(8),
    {
        let s: &[u8] = *src;
        if s.len() < 8 {
            return Err(ProtocolError::Underflow);
        }
        let h = Self {
            service: s[0],
            status: s[1],
            added_status_size: s[2],
            padding1: s[3],
            added_status: read_u16_le(s, 4),
            padding2: read_u16_le(s, 6),
        };
        *src = vstd::slice::slice_subrange(s, 8, s.len());
        assert(src@ =~= old(src)@.skip(8));
        Ok(h)
    }
}

/// Reading back the bytes of a response sub-header gives the same sub-header.
pub proof fn law_response_sub_header_roundtrip(h: HsesResponseSubHeader, rest: Seq<u8>)
    ensures
        parse_response_sub_header(response_sub_header_bytes(h) + rest) == h,
{
    let s = response_sub_header_bytes(h) + rest;
    lemma_u16_roundtrip(h.added_status);
    lemma_u16_roundtrip(h.padding2);
    assert(s.subrange(4, 6) =~= le_u16(h.added_status));
    assert(s.subrange(6, 8) =~= le_u16(h.padding2));
}

/// The bytes that encode a message: common header, sub-header, payload.
pub open spec fn request_message_bytes(m: HsesRequestMessage) -> Seq<u8> {
    common_header_bytes(m.header) + request_sub_header_bytes(m.sub_header) + m.payload@
}

/// The bytes that encode a response message.
pub open spec fn response_message_bytes(m: HsesResponseMessage) -> Seq<u8> {
    common_header_bytes(m.header) + response_sub_header_bytes(m.sub_header) + m.payload@
}

/// The headers and payload of a request built from these fields.
pub open spec fn request_message_of(
    m: HsesRequestMessage,
    division: u8,
    ack: u8,
    request_id: u8,
    command: u16,
    instance: u16,
    attribute: u8,
    service: u8,
    payload: Seq<u8>,
) -> bool {
    &&& m.header.magic@ == yerc()
    &&& m.header.header_size == 0x20
    &&& m.header.payload_size == payload.len() as u16
    &&& m.header.reserved_magic == 3
    &&& m.header.division == division
    &&& m.header.ack == ack
    &&& m.header.request_id == request_id
    &&& m.header.block_number == block_number_for_ack(ack)
    &&& m.header.reserved@ == Seq::new(8, |i: int| 0x39u8)
    &&& m.sub_header == (HsesRequestSubHeader { command, instance, attribute, service, padding: 0 })
    &&& m.payload@ == payload
}

/// A request message: common header, request sub-header and payload.
#[derive(Debug, Clone)]
pub struct HsesRequestMessage {
    pub header: HsesCommonHeader,
    pub sub_header: HsesRequestSubHeader,
    pub payload: Vec<u8>,
}

impl HsesRequestMessage {
    /// A request whose header announces the payload's length (cut to 16 bits).
    pub fn new(
        division: u8,
        ack: u8,
        request_id: u8,
        command: u16,
        instance: u16,
        attribute: u8,
        service: u8,
        payload: Vec<u8>,
    ) -> (r: Self)
        ensures
            request_message_of(
                r,
                division,
                ack,
                request_id,
                command,
                instance,
                attribute,
                service,
                payload@,
            ),
    {
        let header = HsesCommonHeader::new(division, ack, request_id, payload.len() as u16);
        let sub_header = HsesRequestSubHeader::new(command, instance, attribute, service);
        Self { header, sub_header, payload }
    }

    /// The bytes of this message.
    pub fn encode(&self) -> (r: BytesMut)
        requires
            self.payload@.len() + 32 <= isize::MAX,
        ensures
            bytes_mut_contents(r) == request_message_bytes(*self),
    {
        let mut buf = bytes_mut_with_capacity(32 + self.payload.len());
        self.header.encode(&mut buf);
        self.sub_header.encode(&mut buf);
        bytes_mut_extend(&mut buf, self.payload.as_slice());
        assert(bytes_mut_contents(buf) =~= request_message_bytes(*self));
        buf
    }

    /// Reads a request: the common header, then the sub-header, and the rest
    /// is the payload. Fewer than 24 bytes, or fewer than 32 after a valid
    /// header, are an underflow; a header without `YERC` is invalid.
    pub fn decode(src: &[u8]) -> (r: Result<Self, ProtocolError>)
        ensures
            src@.len() < 24 ==> r matches Err(ProtocolError::Underflow),
            src@.len() >= 24 && src@.take(4) != yerc() ==> r matches Err(
                ProtocolError::InvalidHeader,
            ),
            src@.len() >= 24 && src@.len() < 32 && src@.take(4) == yerc() ==> r matches Err(
                ProtocolError::Underflow,
            ),
            src@.len() >= 32 && src@.take(4) == yerc() ==> (r matches Ok(m) && m.header
                == parse_common_header(src@) && m.sub_header == parse_request_sub_header(
                src@.skip(24),
            ) && m.payload@ == src@.skip(32)),
    {
        let mut buf: &[u8] = src;
        let header = HsesCommonHeader::decode(&mut buf)?;
        let sub_header = HsesRequestSubHeader::decode(&mut buf)?;
        let payload = vstd::slice::slice_to_vec(buf);
        assert(src@.skip(24).skip(8) =~= src@.skip(32));
        Ok(Self { header, sub_header, payload })
    }
}

/// A response message: common header, response sub-header and payload.
#[derive(Debug, Clone)]
pub struct HsesResponseMessage {
    pub header: HsesCommonHeader,
    pub sub_header: HsesResponseSubHeader,
    pub payload: Vec<u8>,
}

impl HsesResponseMessage {
    /// A response whose header announces the payload's length (cut to 16 bits).
    pub fn new(
        division: u8,
        ack: u8,
        request_id: u8,
        service: u8,
        status: u8,
        added_status: u16,
        payload: Vec<u8>,
    ) -> (r: Self)
        requires
            service < 0x80,
        ensures
            r.header.magic@ == yerc(),
            r.header.header_size == 0x20,
            r.header.payload_size == payload@.len() as u16,
            r.header.reserved_magic == 3,
            r.header.division == division,
            r.header.ack == ack,
            r.header.request_id == request_id,
            r.header.block_number == block_number_for_ack(ack),
            r.header.reserved@ == Seq::new(8, |i: int| 0x39u8),
            r.sub_header == (HsesResponseSubHeader {
                service: (service + 0x80) as u8,
                status,
                added_status_size: 2,
                padding1: 0,
                added_status,
                padding2: 0,
            }),
            r.payload@ == payload@,
    {
        let header = HsesCommonHeader::new(division, ack, request_id, payload.len() as u16);
        let sub_header = HsesResponseSubHeader::new(service, status, added_status);
        Self { header, sub_header, payload }
    }

    /// The bytes of this message.
    pub fn encode(&self) -> (r: BytesMut)
        requires
            self.payload@.len() + 32 <= isize::MAX,
        ensures
            bytes_mut_contents(r) == response_message_bytes(*self),
    {
        let mut buf = bytes_mut_with_capacity(32 + self.payload.len());
        self.header.encode(&mut buf);
        self.sub_header.encode(&mut buf);
        bytes_mut_extend(&mut buf, self.payload.as_slice());
        assert(bytes_mut_contents(buf) =~= response_message_bytes(*self));
        buf
    }

    /// Reads a response: the common header, then the sub-header, and the rest
    /// is the payload. Fewer than 24 bytes, or fewer than 32 after a valid
    /// header, are an underflow; a header without `YERC` is invalid.
    pub fn decode(src: &[u8]) -> (r: Result<Self, ProtocolError>)
        ensures
            src@.len() < 24 ==> r matches Err(ProtocolError::Underflow),
            src@.len() >= 24 && src@.take(4) != yerc() ==> r matches Err(
                ProtocolError::InvalidHeader,
            ),
            src@.len() >= 24 && src@.len() < 32 && src@.take(4) == yerc() ==> r matches Err(
                ProtocolError::Underflow,
            ),
            src@.len() >= 32 && src@.take(4) == yerc() ==> (r matches Ok(m) && m.header
                == parse_common_header(src@) && m.sub_header == parse_response_sub_header(
                src@.skip(24),
            ) && m.payload@ == src@.skip(32)),
    {
        let mut buf: &[u8] = src;
        let header = HsesCommonHeader::decode(&mut buf)?;
        let sub_header = HsesResponseSubHeader::decode(&mut buf)?;
        let payload = vstd::slice::slice_to_vec(buf);
        assert(src@.skip(24).skip(8) =~= src@.skip(32));
        Ok(Self { header, sub_header, payload })
    }
}

/// A request message with the `YERC` magic decodes from its own bytes to the
/// same header, sub-header and payload.
pub proof fn law_request_message_roundtrip(m: HsesRequestMessage)
    requires
        m.header.magic@ == yerc(),
    ensures
        request_message_bytes(m).len() >= 32,
        request_message_bytes(m).take(4) == yerc(),
        parse_common_header(request_message_bytes(m)) == m.header,
        parse_request_sub_header(request_message_bytes(m).skip(24)) == m.sub_header,
        request_message_bytes(m).skip(32) == m.payload@,
{
    let b = request_message_bytes(m);
    let rest = request_sub_header_bytes(m.sub_header) + m.payload@;
    assert(b =~= common_header_bytes(m.header) + rest);
    law_common_header_roundtrip(m.header, rest);
    assert(b.skip(24) =~= request_sub_header_bytes(m.sub_header) + m.payload@);
    law_request_sub_header_roundtrip(m.sub_header, m.payload@);
    assert(b.take(4) =~= m.header.magic@);
    assert(b.skip(32) =~= m.payload@);
}

/// A response message with the `YERC` magic decodes from its own bytes to the
/// same header, sub-header and payload.
pub proof fn law_response_message_roundtrip(m: HsesResponseMessage)
    requires
        m.header.magic@ == yerc(),
    ensures
        response_message_bytes(m).len() >= 32,
        response_message_bytes(m).take(4) == yerc(),
        parse_common_header(response_message_bytes(m)) == m.header,
        parse_response_sub_header(response_message_bytes(m).skip(24)) == m.sub_header,
        response_message_bytes(m).skip(32) == m.payload@,
{
    let b = response_message_bytes(m);
    let rest = response_sub_header_bytes(m.sub_header) + m.payload@;
    assert(b =~= common_header_bytes(m.header) + rest);
    law_common_header_roundtrip(m.header, rest);
    assert(b.skip(24) =~= response_sub_header_bytes(m.sub_header) + m.payload@);
    law_response_sub_header_roundtrip(m.sub_header, m.payload@);
    assert(b.take(4) =~= m.header.magic@);
    assert(b.skip(32) =~= m.payload@);
}

} // verus!
