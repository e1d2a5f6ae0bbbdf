//! UDP relay packets (RFC 1928, section 7) and the plain UDP datagram header.
use vstd::prelude::*;
use crate::socks5::Socks5CodecError;
use crate::socks5::address::{Socks5Address, SpecSocks5Address, spec_encode_address, spec_parse_address, encodes_faithfully, lemma_address_roundtrip};
use crate::wire::{be_bytes, be_u16, push_slice, push_u16_be, read_u16_be, copy_range};

verus! {

/// A SOCKS5 UDP relay packet: fragment number, address and payload.
#[derive(Debug)]
pub struct Socks5UdpDataPacket {
    pub frag: u8,
    pub address: Socks5Address,
    pub data: Vec<u8>,
}

/// Decoding a UDP relay packet: two reserved bytes, the fragment number, an
/// address, and the payload, which is every byte after the address.
pub open spec fn spec_parse_udp_packet(s: Seq<u8>) -> Result<(u8, SpecSocks5Address, Seq<u8>), Socks5CodecError> {
    if s.len() < 3 {
        Err(Socks5CodecError::InvalidUdpPacket)
    } else {
        match spec_parse_address(s.subrange(3, s.len() as int)) {
            Err(_) => Err(Socks5CodecError::InvalidUdpPacket),
            Ok((a, n)) => Ok((s[2], a, s.subrange(3 + n as int, s.len() as int))),
        }
    }
}

/// The wire form of a UDP relay packet.
pub open spec fn spec_encode_udp_packet(frag: u8, address: SpecSocks5Address, data: Seq<u8>) -> Seq<u8> {
    seq![0u8, 0u8, frag] + spec_encode_address(address) + data
}

impl Socks5UdpDataPacket {
    /// Decodes a UDP relay packet.
    pub fn parse(src: &[u8]) -> (r: Result<Socks5UdpDataPacket, Socks5CodecError>)
        ensures
            match spec_parse_udp_packet(src@) {
                Ok((frag, a, data)) => r matches Ok(p) && p.frag == frag && p.address@ == a && p.data@ == data,
                Err(e) => r == Err::<Socks5UdpDataPacket, Socks5CodecError>(e),
            },
    {
        if src.len() < 3 {
            return Err(Socks5CodecError::InvalidUdpPacket);
        }
        let frag = src[2];
        let rest = vstd::slice::slice_subrange(src, 3, src.len());
        match Socks5Address::parse(rest) {
            Err(_) => Err(Socks5CodecError::InvalidUdpPacket),
            Ok((address, n)) => {
                let data = copy_range(src, 3 + n, src.len());
                Ok(Socks5UdpDataPacket { frag, address, data })
            },
        }
    }

    /// The wire form of this packet.
    pub fn to_bytes(&self) -> (r: Vec<u8>)
        ensures
            r@ == spec_encode_udp_packet(self.frag, self.address@, self.data@),
    {
        let mut out: Vec<u8> = Vec::new();
        push_u16_be(&mut out, 0);
        out.push(self.frag);
        self.address.encode_into(&mut out);
        push_slice(&mut out, self.data.as_slice());
        assert(out@ =~= spec_encode_udp_packet(self.frag, self.address@, self.data@));
        out
    }
}

/// A UDP relay packet reads back as the fragment number, address and payload
/// it was written from, for every address whose wire form reads back.
pub proof fn lemma_udp_packet_roundtrip(frag: u8, address: SpecSocks5Address, data: Seq<u8>)
    requires
        encodes_faithfully(address),
    ensures
        spec_parse_udp_packet(spec_encode_udp_packet(frag, address, data)) == Ok::<(u8, SpecSocks5Address, Seq<u8>), Socks5CodecError>(
            (frag, address, data),
        ),
{
    let s = spec_encode_udp_packet(frag, address, data);
    let enc = spec_encode_address(address);
    assert(s.subrange(3, s.len() as int) =~= enc + data);
    lemma_address_roundtrip(address, data);
    assert(s.subrange(3 + enc.len() as int, s.len() as int) =~= data);
}

/// A UDP relay packet starts with two zero bytes and the fragment number,
/// then holds the address in its wire form and the payload unchanged.
pub proof fn lemma_udp_packet_layout(frag: u8, address: SpecSocks5Address, data: Seq<u8>)
    ensures
        ({
            let p = spec_encode_udp_packet(frag, address, data);
            let n = spec_encode_address(address).len();
            &&& p.len() == 3 + n + data.len()
            &&& p[0] == 0u8 && p[1] == 0u8 && p[2] == frag
            &&& p.subrange(3, 3 + n as int) == spec_encode_address(address)
            &&& p.subrange(3 + n as int, p.len() as int) == data
        }),
{
    let p = spec_encode_udp_packet(frag, address, data);
    let n = spec_encode_address(address).len();
    assert(p.subrange(3, 3 + n as int) =~= spec_encode_address(address));
    assert(p.subrange(3 + n as int, p.len() as int) =~= data);
}

/// A UDP datagram: the header fields and the payload.
#[derive(Debug)]
pub struct UdpDiagram {
    pub source_port: u16,
    pub target_port: u16,
    pub length: u16,
    pub checksum: u16,
    pub data: Vec<u8>,
}

/// Whether `s` holds the eight header bytes and as many payload bytes as its
/// length field gives.
pub open spec fn udp_diagram_complete(s: Seq<u8>) -> bool {
    s.len() >= 8 && s.len() - 8 >= be_u16(s[4], s[5])
}

/// The wire form of a datagram.
pub open spec fn spec_encode_udp_diagram(d: UdpDiagram) -> Seq<u8> {
    be_bytes(d.source_port) + be_bytes(d.target_port) + be_bytes(d.length) + be_bytes(d.checksum) + d.data@
}

impl UdpDiagram {
    /// Reads a datagram: four big-endian header fields, then as many payload
    /// bytes as the length field gives; later bytes are not read.
    pub fn parse(bytes: &[u8]) -> (r: UdpDiagram)
        requires
            udp_diagram_complete(bytes@),
        ensures
            r.source_port == be_u16(bytes@[0], bytes@[1]),
            r.target_port == be_u16(bytes@[2], bytes@[3]),
            r.length == be_u16(bytes@[4], bytes@[5]),
            r.checksum == be_u16(bytes@[6], bytes@[7]),
            r.data@ == bytes@.subrange(8, 8 + r.length as int),
    {
        let source_port = read_u16_be(bytes, 0);
        let target_port = read_u16_be(bytes, 2);
        let length = read_u16_be(bytes, 4);
        let checksum = read_u16_be(bytes, 6);
        let data = copy_range(bytes, 8, 8 + length as usize);
        UdpDiagram { source_port, target_port, length, checksum, data }
    }

    /// The wire form of this datagram: the four header fields, then the payload.
    pub fn to_bytes(&self) -> (r: Vec<u8>)
        ensures
            r@ == spec_encode_udp_diagram(*self),
    {
        let mut out: Vec<u8> = Vec::new();
        push_u16_be(&mut out, self.source_port);
        push_u16_be(&mut out, self.target_port);
        push_u16_be(&mut out, self.length);
        push_u16_be(&mut out, self.checksum);
        push_slice(&mut out, self.data.as_slice());
        out
    }
}

/// A datagram whose length field counts its payload reads back from its wire
/// form with the same fields and payload.
pub proof fn lemma_udp_diagram_roundtrip(d: UdpDiagram)
    requires
        d.length == d.data@.len(),
    ensures
        ({
            let s = spec_encode_udp_diagram(d);
            &&& udp_diagram_complete(s)
            &&& be_u16(s[0], s[1]) == d.source_port
            &&& be_u16(s[2], s[3]) == d.target_port
            &&& be_u16(s[4], s[5]) == d.length
            &&& be_u16(s[6], s[7]) == d.checksum
            &&& s.subrange(8, 8 + d.length as int) == d.data@
        }),
{
    let s = spec_encode_udp_diagram(d);
    assert(s.subrange(8, 8 + d.length as int) =~= d.data@);
}

} // verus!
