//! Class B beacon frames (LoRaWAN L2 1.0.4, section 13).
//!
//! A beacon is laid out as
//!
//! ```norust
//! RFU1 | Param | Time | CRC1 | GwSpecific | RFU2 | CRC2
//! ```
//!
//! where the sizes of the two reserved regions depend on the spreading
//! factor. CRC1 covers `RFU1 | Param | Time`, CRC2 covers `GwSpecific | RFU2`.
//! Both are CRC-16 with polynomial x^16 + x^12 + x^5 + 1, a zero initial
//! value, no reflection and no final xor.
use crate::codec::{
    lemma_u16_round_trip, lemma_u24_bytes_round_trip, lemma_u24_round_trip, lemma_u32_round_trip,
    spec_u16_from_le_bytes, spec_u16_to_le_bytes, spec_u24_from_le_bytes, spec_u24_to_le_bytes,
    spec_u32_from_le_bytes, spec_u32_to_le_bytes, u16_from_le_bytes, u16_to_le_bytes,
    u24_from_le_bytes, u24_to_le_bytes, u32_from_le_bytes, u32_to_le_bytes,
};
use crate::Sf;
use vstd::prelude::*;

verus! {

/// One shift of the CRC register: the top bit leaves, and where it was set the
/// polynomial 0x1021 is folded in.
pub open spec fn crc16_shift(crc: u16) -> u16 {
    if crc & 0x8000 != 0 {
        (crc << 1) ^ 0x1021
    } else {
        crc << 1
    }
}

/// The CRC register after one more message byte, most significant bit first.
pub open spec fn crc16_update(crc: u16, byte: u8) -> u16 {
    crc16_shift(
        crc16_shift(
            crc16_shift(
                crc16_shift(
                    crc16_shift(crc16_shift(crc16_shift(crc16_shift(crc ^ ((byte as u16) << 8))))),
                ),
            ),
        ),
    )
}

/// The 16-bit checksum of a beacon region: the register starts at zero and
/// takes the bytes in order.
pub open spec fn crc16(data: Seq<u8>) -> u16
    decreases data.len(),
{
    if data.len() == 0 {
        0
    } else {
        crc16_update(crc16(data.drop_last()), data.last())
    }
}

/// Computes the checksum with `crc_0x8810::CRC_16_LORA.checksum`.
///
/// Trusted: that algorithm is documented as CRC-16/XMODEM (width 16,
/// polynomial 0x1021, initial value 0, input and output not reflected, no
/// final xor), which is what [`crc16`] states bit by bit.
#[verifier::external_body]
fn crc16_lora(data: &[u8]) -> (crc: u16)
    ensures
        crc == crc16(data@),
{
    crc_0x8810::CRC_16_LORA.checksum(data)
}

/// Computes the checksum of a beacon region.
pub fn checksum(data: &[u8]) -> (crc: u16)
    ensures
        crc == crc16(data@),
{
    crc16_lora(data)
}

/// Beacon `Param` byte: six reserved bits below a two-bit time precision.
#[derive(Debug, Clone, Copy, PartialEq, Eq, Structural)]
pub struct Param {
    pub value: u8,
}

impl Param {
    pub open spec fn spec_rfu(&self) -> u8 {
        self.value % 64
    }

    pub open spec fn spec_prec(&self) -> u8 {
        self.value / 64
    }

    pub fn from_bytes(bytes: [u8; 1]) -> (p: Self)
        ensures
            p.value == bytes[0],
    {
        Param { value: bytes[0] }
    }

    pub fn into_bytes(self) -> (bytes: [u8; 1])
        ensures
            bytes[0] == self.value,
    {
        [self.value]
    }

    /// The reserved bits 0 to 5.
    #[verifier::when_used_as_spec(spec_rfu)]
    pub fn rfu(&self) -> (v: u8)
        ensures
            v == self.spec_rfu(),
            v < 64,
    {
        let value: u8 = self.value;
        assert(value & 0x3f == value % 64) by (bit_vector);
        value & 0x3f
    }

    /// The time precision, bits 6 and 7.
    #[verifier::when_used_as_spec(spec_prec)]
    pub fn prec(&self) -> (v: u8)
        ensures
            v == self.spec_prec(),
            v < 4,
    {
        let value: u8 = self.value;
        assert(value >> 6 == value / 64) by (bit_vector);
        value >> 6
    }
}

/// Why a beacon was not accepted.
#[derive(Debug, Clone, Copy, PartialEq, Eq, Structural)]
pub enum Error {
    /// The frame does not have the size that the spreading factor calls for.
    WrongSize { need: usize, actual: usize },
    /// The checksum over `RFU1 | Param | Time` does not match: time and
    /// precision cannot be relied on.
    Crc1Wrong,
    /// The checksum over `GwSpecific | RFU2` does not match.
    Crc2Wrong,
}

/// Which antenna of the gateway a GPS coordinate belongs to.
#[derive(Debug, Clone, Copy, PartialEq, Eq, Structural)]
pub enum Antenna {
    First,
    Second,
    Third,
}

/// Meaning of the first byte of the gateway specific field.
#[derive(Debug, Clone, Copy, PartialEq, Eq, Structural)]
pub enum InfoDesc {
    GpsCoordinate { antenna: Antenna },
    NetIdAndGatewayId,
    Rfu { info_desc: u8 },
    NetworkSpecific { info_desc: u8 },
}

impl InfoDesc {
    pub open spec fn spec_from_byte(info_desc: u8) -> Self {
        if info_desc == 0 {
            InfoDesc::GpsCoordinate { antenna: Antenna::First }
        } else if info_desc == 1 {
            InfoDesc::GpsCoordinate { antenna: Antenna::Second }
        } else if info_desc == 2 {
            InfoDesc::GpsCoordinate { antenna: Antenna::Third }
        } else if info_desc == 3 {
            InfoDesc::NetIdAndGatewayId
        } else if info_desc <= 127 {
            InfoDesc::Rfu { info_desc }
        } else {
            InfoDesc::NetworkSpecific { info_desc }
        }
    }

    /// The byte that stands for this descriptor.
    pub open spec fn spec_to_byte(&self) -> u8 {
        match *self {
            InfoDesc::GpsCoordinate { antenna: Antenna::First } => 0,
            InfoDesc::GpsCoordinate { antenna: Antenna::Second } => 1,
            InfoDesc::GpsCoordinate { antenna: Antenna::Third } => 2,
            InfoDesc::NetIdAndGatewayId => 3,
            InfoDesc::Rfu { info_desc } => info_desc,
            InfoDesc::NetworkSpecific { info_desc } => info_desc,
        }
    }

    /// A descriptor is well formed when its tag lies in the range of its kind.
    pub open spec fn wf(&self) -> bool {
        match *self {
            InfoDesc::Rfu { info_desc } => 4 <= info_desc <= 127,
            InfoDesc::NetworkSpecific { info_desc } => 128 <= info_desc,
            _ => true,
        }
    }

    pub fn from_byte(info_desc: u8) -> (d: Self)
        ensures
            d == Self::spec_from_byte(info_desc),
            d.wf(),
            d.spec_to_byte() == info_desc,
    {
        if info_desc == 0 {
            InfoDesc::GpsCoordinate { antenna: Antenna::First }
        } else if info_desc == 1 {
            InfoDesc::GpsCoordinate { antenna: Antenna::Second }
        } else if info_desc == 2 {
            InfoDesc::GpsCoordinate { antenna: Antenna::Third }
        } else if info_desc == 3 {
            InfoDesc::NetIdAndGatewayId
        } else if info_desc <= 127 {
            InfoDesc::Rfu { info_desc }
        } else {
            InfoDesc::NetworkSpecific { info_desc }
        }
    }

    pub fn to_byte(&self) -> (b: u8)
        ensures
            b == self.spec_to_byte(),
            self.wf() ==> Self::spec_from_byte(b) == *self,
    {
        match *self {
            InfoDesc::GpsCoordinate { antenna: Antenna::First } => 0,
            InfoDesc::GpsCoordinate { antenna: Antenna::Second } => 1,
            InfoDesc::GpsCoordinate { antenna: Antenna::Third } => 2,
            InfoDesc::NetIdAndGatewayId => 3,
            InfoDesc::Rfu { info_desc } => info_desc,
            InfoDesc::NetworkSpecific { info_desc } => info_desc,
        }
    }
}

/// The decoded gateway specific field.
#[derive(Debug, Clone, Copy, PartialEq, Eq)]
pub enum GwSpecificKind {
    Gps { antenna: Antenna, lat: u32, long: u32 },
    NetIdAndGatewayId { net_id: u32, gateway_id: u32 },
    /// 4..=127
    Rfu { info_desc: u8, info: [u8; 6] },
    /// 128..=255
    NetworkSpecific { info_desc: u8, info: [u8; 6] },
}

impl GwSpecificKind {
    pub open spec fn spec_info_desc(&self) -> InfoDesc {
        match *self {
            GwSpecificKind::Gps { antenna, .. } => InfoDesc::GpsCoordinate { antenna },
            GwSpecificKind::NetIdAndGatewayId { .. } => InfoDesc::NetIdAndGatewayId,
            GwSpecificKind::Rfu { info_desc, .. } => InfoDesc::Rfu { info_desc },
            GwSpecificKind::NetworkSpecific { info_desc, .. } => InfoDesc::NetworkSpecific {
                info_desc,
            },
        }
    }

    /// A value is well formed when it can be written to the wire and read
    /// back: 24-bit fields fit in 24 bits, and the tag lies in the range of
    /// its kind.
    pub open spec fn wf(&self) -> bool {
        &&& self.spec_info_desc().wf()
        &&& match *self {
            GwSpecificKind::Gps { lat, long, .. } => lat < 0x100_0000 && long < 0x100_0000,
            GwSpecificKind::NetIdAndGatewayId { net_id, gateway_id } => net_id < 0x100_0000
                && gateway_id < 0x100_0000,
            _ => true,
        }
    }

    /// The six bytes that follow the descriptor byte.
    pub open spec fn spec_info_bytes(&self) -> Seq<u8> {
        match *self {
            GwSpecificKind::Gps { lat, long, .. } => spec_u24_to_le_bytes(lat)
                + spec_u24_to_le_bytes(long),
            GwSpecificKind::NetIdAndGatewayId { net_id, gateway_id } => spec_u24_to_le_bytes(net_id)
                + spec_u24_to_le_bytes(gateway_id),
            GwSpecificKind::Rfu { info, .. } => info@,
            GwSpecificKind::NetworkSpecific { info, .. } => info@,
        }
    }

    /// The seven bytes of the field on the wire.
    pub open spec fn spec_as_bytes(&self) -> Seq<u8> {
        seq![self.spec_info_desc().spec_to_byte()] + self.spec_info_bytes()
    }

    /// What seven bytes of the wire decode to: `bytes[0]` selects the kind,
    /// the six bytes after it are two 24-bit little-endian fields or an
    /// opaque blob.
    pub open spec fn spec_from_bytes(bytes: Seq<u8>) -> Self {
        match InfoDesc::spec_from_byte(bytes[0]) {
            InfoDesc::GpsCoordinate { antenna } => GwSpecificKind::Gps {
                antenna,
                lat: spec_u24_from_le_bytes(bytes.subrange(1, 4)),
                long: spec_u24_from_le_bytes(bytes.subrange(4, 7)),
            },
            InfoDesc::NetIdAndGatewayId => GwSpecificKind::NetIdAndGatewayId {
                net_id: spec_u24_from_le_bytes(bytes.subrange(1, 4)),
                gateway_id: spec_u24_from_le_bytes(bytes.subrange(4, 7)),
            },
            InfoDesc::Rfu { info_desc } => GwSpecificKind::Rfu {
                info_desc,
                info: [bytes[1], bytes[2], bytes[3], bytes[4], bytes[5], bytes[6]],
            },
            InfoDesc::NetworkSpecific { info_desc } => GwSpecificKind::NetworkSpecific {
                info_desc,
                info: [bytes[1], bytes[2], bytes[3], bytes[4], bytes[5], bytes[6]],
            },
        }
    }

    /// Writes the field as it stands on the wire.
    pub fn as_bytes(&self) -> (bytes: [u8; 7])
        requires
            self.wf(),
        ensures
            bytes@ == self.spec_as_bytes(),
            Self::spec_from_bytes(bytes@) == *self,
    {
        let bytes: [u8; 7] = match *self {
            GwSpecificKind::Gps { antenna, lat, long } => {
                let d: u8 = (InfoDesc::GpsCoordinate { antenna }).to_byte();
                let a: [u8; 3] = u24_to_le_bytes(lat);
                let b: [u8; 3] = u24_to_le_bytes(long);
                [d, a[0], a[1], a[2], b[0], b[1], b[2]]
            },
            GwSpecificKind::NetIdAndGatewayId { net_id, gateway_id } => {
                let a: [u8; 3] = u24_to_le_bytes(net_id);
                let b: [u8; 3] = u24_to_le_bytes(gateway_id);
                [3, a[0], a[1], a[2], b[0], b[1], b[2]]
            },
            GwSpecificKind::Rfu { info_desc, info } => [
                info_desc,
                info[0],
                info[1],
                info[2],
                info[3],
                info[4],
                info[5],
            ],
            GwSpecificKind::NetworkSpecific { info_desc, info } => [
                info_desc,
                info[0],
                info[1],
                info[2],
                info[3],
                info[4],
                info[5],
            ],
        };
        proof {
            assert(bytes@ =~= self.spec_as_bytes());
            lemma_gw_specific_round_trip(*self);
        }
        bytes
    }

    /// Decodes the seven bytes of the field.
    pub fn from_bytes(bytes: [u8; 7]) -> (kind: Self)
        ensures
            kind == Self::spec_from_bytes(bytes@),
            kind.wf(),
            kind.spec_as_bytes() == bytes@,
    {
        let n: InfoDesc = InfoDesc::from_byte(bytes[0]);
        proof {
            assert(bytes@.subrange(1, 4) =~= seq![bytes[1], bytes[2], bytes[3]]);
            assert(bytes@.subrange(4, 7) =~= seq![bytes[4], bytes[5], bytes[6]]);
            lemma_gw_specific_bytes_round_trip(bytes@);
        }
        match n {
            InfoDesc::GpsCoordinate { antenna } => {
                let lat: u32 = u24_from_le_bytes([bytes[1], bytes[2], bytes[3]]);
                let long: u32 = u24_from_le_bytes([bytes[4], bytes[5], bytes[6]]);
                GwSpecificKind::Gps { antenna, lat, long }
            },
            InfoDesc::NetworkSpecific { info_desc } => {
                let info: [u8; 6] = [bytes[1], bytes[2], bytes[3], bytes[4], bytes[5], bytes[6]];
                GwSpecificKind::NetworkSpecific { info_desc, info }
            },
            InfoDesc::NetIdAndGatewayId => {
                let net_id: u32 = u24_from_le_bytes([bytes[1], bytes[2], bytes[3]]);
                let gateway_id: u32 = u24_from_le_bytes([bytes[4], bytes[5], bytes[6]]);
                GwSpecificKind::NetIdAndGatewayId { net_id, gateway_id }
            },
            InfoDesc::Rfu { info_desc } => {
                let info: [u8; 6] = [bytes[1], bytes[2], bytes[3], bytes[4], bytes[5], bytes[6]];
                GwSpecificKind::Rfu { info_desc, info }
            },
        }
    }
}

/// The raw gateway specific field of a beacon: seven bytes, the first of
/// which says how to read the other six.
#[derive(Debug, Clone, Copy, PartialEq, Eq)]
pub struct GwSpecific {
    bytes: [u8; 7],
}

impl GwSpecific {
    pub closed spec fn view(&self) -> Seq<u8> {
        self.bytes@
    }

    pub fn from_bytes(bytes: [u8; 7]) -> (g: Self)
        ensures
            g@ == bytes@,
    {
        GwSpecific { bytes }
    }

    pub fn into_bytes(self) -> (bytes: [u8; 7])
        ensures
            bytes@ == self@,
    {
        self.bytes
    }

    /// The decoded form of the field.
    pub fn kind(&self) -> (kind: GwSpecificKind)
        ensures
            kind == GwSpecificKind::spec_from_bytes(self@),
            kind.wf(),
    {
        GwSpecificKind::from_bytes(self.bytes)
    }
}

/// A well-formed gateway specific value, written to the wire, decodes to
/// itself.
pub proof fn lemma_gw_specific_round_trip(kind: GwSpecificKind)
    requires
        kind.wf(),
    ensures
        kind.spec_as_bytes().len() == 7,
        GwSpecificKind::spec_from_bytes(kind.spec_as_bytes()) == kind,
{
    let bytes = kind.spec_as_bytes();
    match kind {
        GwSpecificKind::Gps { antenna, lat, long } => {
            lemma_u24_round_trip(lat);
            lemma_u24_round_trip(long);
            assert(bytes.subrange(1, 4) =~= spec_u24_to_le_bytes(lat));
            assert(bytes.subrange(4, 7) =~= spec_u24_to_le_bytes(long));
        },
        GwSpecificKind::NetIdAndGatewayId { net_id, gateway_id } => {
            lemma_u24_round_trip(net_id);
            lemma_u24_round_trip(gateway_id);
            assert(bytes.subrange(1, 4) =~= spec_u24_to_le_bytes(net_id));
            assert(bytes.subrange(4, 7) =~= spec_u24_to_le_bytes(gateway_id));
        },
        GwSpecificKind::Rfu { info_desc, info } => {
            let read: [u8; 6] = [bytes[1], bytes[2], bytes[3], bytes[4], bytes[5], bytes[6]];
            assert(read =~= info);
        },
        GwSpecificKind::NetworkSpecific { info_desc, info } => {
            let read: [u8; 6] = [bytes[1], bytes[2], bytes[3], bytes[4], bytes[5], bytes[6]];
            assert(read =~= info);
        },
    }
}

/// Any seven bytes decode to a well-formed value, and that value is written
/// back as the same seven bytes.
pub proof fn lemma_gw_specific_bytes_round_trip(bytes: Seq<u8>)
    requires
        bytes.len() == 7,
    ensures
        GwSpecificKind::spec_from_bytes(bytes).wf(),
        GwSpecificKind::spec_from_bytes(bytes).spec_as_bytes() == bytes,
{
    let kind = GwSpecificKind::spec_from_bytes(bytes);
    lemma_u24_bytes_round_trip(bytes.subrange(1, 4));
    lemma_u24_bytes_round_trip(bytes.subrange(4, 7));
    assert(kind.spec_info_bytes() =~= bytes.subrange(1, 7));
    assert(kind.spec_as_bytes() =~= bytes);
}

/// A decoded beacon.
#[derive(Debug, Clone, Copy, PartialEq, Eq)]
pub struct Beacon {
    pub param: Param,
    /// Seconds since the GPS epoch, 1980-01-06.
    pub time: u32,
    pub gw_specific: GwSpecificKind,
}

/// The bytes that CRC1 covers: `RFU1 | Param | Time`.
pub open spec fn crc1_region(sf: Sf, bytes: Seq<u8>) -> Seq<u8> {
    bytes.subrange(0, sf.spec_beacon_rfu1_bytes() + 5)
}

/// CRC1 as it stands in the frame.
pub open spec fn crc1_field(sf: Sf, bytes: Seq<u8>) -> u16 {
    spec_u16_from_le_bytes(
        bytes.subrange(sf.spec_beacon_rfu1_bytes() + 5, sf.spec_beacon_rfu1_bytes() + 7),
    )
}

/// The bytes that CRC2 covers: `GwSpecific | RFU2`.
pub open spec fn crc2_region(sf: Sf, bytes: Seq<u8>) -> Seq<u8> {
    bytes.subrange(sf.spec_beacon_rfu1_bytes() + 7, sf.spec_beacon_bytes() - 2)
}

/// CRC2 as it stands in the frame.
pub open spec fn crc2_field(sf: Sf, bytes: Seq<u8>) -> u16 {
    let end = sf.spec_beacon_bytes() as int;
    spec_u16_from_le_bytes(bytes.subrange(end - 2, end))
}

/// The fields of a frame of the right size, whatever its checksums say.
pub open spec fn beacon_fields(sf: Sf, bytes: Seq<u8>) -> Beacon {
    let at = sf.spec_beacon_rfu1_bytes() as int;
    Beacon {
        param: Param { value: bytes[at] },
        time: spec_u32_from_le_bytes(bytes.subrange(at + 1, at + 5)),
        gw_specific: GwSpecificKind::spec_from_bytes(bytes.subrange(at + 7, at + 14)),
    }
}

/// The outcome of parsing `bytes`, given the checksums computed over its two
/// covered regions.
pub open spec fn spec_parse_beacon_with_crcs(
    sf: Sf,
    bytes: Seq<u8>,
    crc1_calc: u16,
    crc2_calc: u16,
) -> Result<Beacon, Error> {
    if bytes.len() != sf.spec_beacon_bytes() {
        Err(Error::WrongSize { need: sf.spec_beacon_bytes(), actual: bytes.len() as usize })
    } else if crc1_field(sf, bytes) != crc1_calc {
        Err(Error::Crc1Wrong)
    } else if crc2_field(sf, bytes) != crc2_calc {
        Err(Error::Crc2Wrong)
    } else {
        Ok(beacon_fields(sf, bytes))
    }
}

/// The outcome of parsing `bytes` as a beacon sent with spreading factor `sf`.
pub open spec fn spec_parse_beacon(sf: Sf, bytes: Seq<u8>) -> Result<Beacon, Error> {
    spec_parse_beacon_with_crcs(
        sf,
        bytes,
        crc16(crc1_region(sf, bytes)),
        crc16(crc2_region(sf, bytes)),
    )
}

/// `n` zero bytes, as the reserved regions are sent.
pub open spec fn zeros(n: nat) -> Seq<u8> {
    Seq::new(n, |i: int| 0u8)
}

/// What CRC1 covers in the frame of `beacon`.
pub open spec fn encoded_crc1_region(sf: Sf, beacon: Beacon) -> Seq<u8> {
    zeros(sf.spec_beacon_rfu1_bytes() as nat) + seq![beacon.param.value] + spec_u32_to_le_bytes(
        beacon.time,
    )
}

/// What CRC2 covers in the frame of `beacon`.
pub open spec fn encoded_crc2_region(sf: Sf, beacon: Beacon) -> Seq<u8> {
    beacon.gw_specific.spec_as_bytes() + zeros(sf.spec_beacon_rfu2_bytes() as nat)
}

/// The frame of `beacon`: reserved regions zeroed, both checksums computed.
pub open spec fn spec_encode_beacon(sf: Sf, beacon: Beacon) -> Seq<u8> {
    encoded_crc1_region(sf, beacon) + spec_u16_to_le_bytes(crc16(encoded_crc1_region(sf, beacon)))
        + encoded_crc2_region(sf, beacon) + spec_u16_to_le_bytes(
        crc16(encoded_crc2_region(sf, beacon)),
    )
}

/// Appends `n` zero bytes.
fn push_zeros(out: &mut Vec<u8>, n: usize)
    ensures
        final(out)@ == old(out)@ + zeros(n as nat),
{
    let mut i: usize = 0;
    while i < n
        invariant
            i <= n,
            out@ == old(out)@ + zeros(i as nat),
        decreases n - i,
    {
        out.push(0);
        i += 1;
        assert(out@ =~= old(out)@ + zeros(i as nat));
    }
}

impl Beacon {
    /// Parses a beacon that was received with spreading factor `sf`.
    ///
    /// The size is checked first, then CRC1, then CRC2; the first check that
    /// fails names the error.
    pub fn parse_beacon(sf: Sf, bytes: &[u8]) -> (r: Result<Self, Error>)
        ensures
            r == spec_parse_beacon(sf, bytes@),
            bytes@.len() != sf.spec_beacon_bytes() <==> r matches Err(Error::WrongSize { .. }),
    {
        let need: usize = sf.beacon_bytes();
        let actual: usize = bytes.len();
        if actual != need {
            return Err(Error::WrongSize { need, actual });
        }
        let crc1_end: usize = sf.beacon_rfu1_bytes() + 1 + 4;
        let crc1_calc: u16 = checksum(vstd::slice::slice_subrange(bytes, 0, crc1_end));
        let crc2_start: usize = crc1_end + 2;
        let crc2_end: usize = crc2_start + 7 + sf.beacon_rfu2_bytes();
        let crc2_calc: u16 = checksum(vstd::slice::slice_subrange(bytes, crc2_start, crc2_end));
        Self::parse_beacon_with_crcs(sf, bytes, crc1_calc, crc2_calc)
    }

    /// Parses a beacon whose two checksums were computed elsewhere, by the
    /// radio for instance: `crc1_calc` over `RFU1 | Param | Time` and
    /// `crc2_calc` over `GwSpecific | RFU2`.
    pub fn parse_beacon_with_crcs(sf: Sf, bytes: &[u8], crc1_calc: u16, crc2_calc: u16) -> (r:
        Result<Self, Error>)
        ensures
            r == spec_parse_beacon_with_crcs(sf, bytes@, crc1_calc, crc2_calc),
    {
        let need: usize = sf.beacon_bytes();
        let actual: usize = bytes.len();
        if actual != need {
            return Err(Error::WrongSize { need, actual });
        }
        let at: usize = sf.beacon_rfu1_bytes();
        let param: u8 = bytes[at];
        let time: u32 = u32_from_le_bytes(
            [bytes[at + 1], bytes[at + 2], bytes[at + 3], bytes[at + 4]],
        );
        let crc1: u16 = u16_from_le_bytes([bytes[at + 5], bytes[at + 6]]);
        proof {
            assert(bytes@.subrange(at + 1, at + 5) =~= seq![
                bytes[at + 1],
                bytes[at + 2],
                bytes[at + 3],
                bytes[at + 4],
            ]);
            assert(bytes@.subrange(at + 5, at + 7) =~= seq![bytes[at + 5], bytes[at + 6]]);
        }
        if crc1 != crc1_calc {
            return Err(Error::Crc1Wrong);
        }
        let gw: [u8; 7] = [
            bytes[at + 7],
            bytes[at + 8],
            bytes[at + 9],
            bytes[at + 10],
            bytes[at + 11],
            bytes[at + 12],
            bytes[at + 13],
        ];
        let gw_specific: GwSpecificKind = GwSpecificKind::from_bytes(gw);
        let crc2: u16 = u16_from_le_bytes([bytes[need - 2], bytes[need - 1]]);
        proof {
            assert(bytes@.subrange(at + 7, at + 14) =~= gw@);
            assert(bytes@.subrange(need - 2, need as int) =~= seq![
                bytes[need - 2],
                bytes[need - 1],
            ]);
        }
        if crc2 != crc2_calc {
            return Err(Error::Crc2Wrong);
        }
        Ok(Beacon { param: Param { value: param }, time, gw_specific })
    }

    /// Builds the frame of this beacon for spreading factor `sf`: the
    /// reserved regions are zeroed and both checksums are computed.
    pub fn encode(&self, sf: Sf) -> (out: Vec<u8>)
        requires
            self.gw_specific.wf(),
        ensures
            out@ == spec_encode_beacon(sf, *self),
            out@.len() == sf.spec_beacon_bytes(),
            spec_parse_beacon(sf, out@) == Ok::<Beacon, Error>(*self),
    {
        let mut out: Vec<u8> = Vec::new();
        push_zeros(&mut out, sf.beacon_rfu1_bytes());
        out.push(self.param.value);
        let time: [u8; 4] = u32_to_le_bytes(self.time);
        out.push(time[0]);
        out.push(time[1]);
        out.push(time[2]);
        out.push(time[3]);
        assert(out@ =~= encoded_crc1_region(sf, *self));
        let crc1: [u8; 2] = u16_to_le_bytes(checksum(out.as_slice()));
        out.push(crc1[0]);
        out.push(crc1[1]);
        let ghost head = out@;
        let crc2_start: usize = out.len();
        let gw: [u8; 7] = self.gw_specific.as_bytes();
        out.push(gw[0]);
        out.push(gw[1]);
        out.push(gw[2]);
        out.push(gw[3]);
        out.push(gw[4]);
        out.push(gw[5]);
        out.push(gw[6]);
        push_zeros(&mut out, sf.beacon_rfu2_bytes());
        assert(out@ =~= head + encoded_crc2_region(sf, *self));
        let crc2_end: usize = out.len();
        let region2: &[u8] = vstd::slice::slice_subrange(out.as_slice(), crc2_start, crc2_end);
        assert(region2@ =~= encoded_crc2_region(sf, *self));
        let crc2: [u8; 2] = u16_to_le_bytes(checksum(region2));
        out.push(crc2[0]);
        out.push(crc2[1]);
        proof {
            assert(out@ =~= spec_encode_beacon(sf, *self));
            lemma_beacon_round_trip(sf, *self);
        }
        out
    }
}

/// The size of a beacon is 16 bytes plus the two reserved regions, and a
/// frame of any other size is rejected as `WrongSize`, whatever it holds.
pub proof fn lemma_beacon_size(sf: Sf, bytes: Seq<u8>)
    ensures
        sf.spec_beacon_bytes() == 16 + sf.spec_beacon_rfu1_bytes() + sf.spec_beacon_rfu2_bytes(),
        sf.spec_beacon_bytes() == match sf {
            Sf::_8 => 19int,
            Sf::_9 => 17,
            Sf::_10 => 19,
            Sf::_11 => 21,
            Sf::_12 => 23,
        },
        bytes.len() != sf.spec_beacon_bytes() ==> spec_parse_beacon(sf, bytes) == Err::<
            Beacon,
            Error,
        >(Error::WrongSize { need: sf.spec_beacon_bytes(), actual: bytes.len() as usize }),
        bytes.len() == sf.spec_beacon_bytes() ==> !(spec_parse_beacon(sf, bytes) matches Err(
            Error::WrongSize { .. },
        )),
{
}

/// The frame built for a well-formed beacon parses, and gives that beacon
/// back.
pub proof fn lemma_beacon_round_trip(sf: Sf, beacon: Beacon)
    requires
        beacon.gw_specific.wf(),
    ensures
        spec_encode_beacon(sf, beacon).len() == sf.spec_beacon_bytes(),
        spec_parse_beacon(sf, spec_encode_beacon(sf, beacon)) == Ok::<Beacon, Error>(beacon),
{
    let bytes = spec_encode_beacon(sf, beacon);
    let r1 = encoded_crc1_region(sf, beacon);
    let r2 = encoded_crc2_region(sf, beacon);
    let at = sf.spec_beacon_rfu1_bytes() as int;
    let end = sf.spec_beacon_bytes() as int;
    lemma_gw_specific_round_trip(beacon.gw_specific);
    assert(r1.len() == at + 5);
    assert(r2.len() == 7 + sf.spec_beacon_rfu2_bytes());
    assert(bytes.len() == end);
    assert(crc1_region(sf, bytes) =~= r1);
    assert(crc2_region(sf, bytes) =~= r2);
    assert(bytes.subrange(at + 5, at + 7) =~= spec_u16_to_le_bytes(crc16(r1)));
    assert(bytes.subrange(end - 2, end) =~= spec_u16_to_le_bytes(crc16(r2)));
    lemma_u16_round_trip(crc16(r1), spec_u16_to_le_bytes(crc16(r1)));
    lemma_u16_round_trip(crc16(r2), spec_u16_to_le_bytes(crc16(r2)));
    assert(bytes.subrange(at + 1, at + 5) =~= spec_u32_to_le_bytes(beacon.time));
    lemma_u32_round_trip(beacon.time, spec_u32_to_le_bytes(beacon.time));
    assert(bytes.subrange(at + 7, at + 14) =~= beacon.gw_specific.spec_as_bytes());
    assert(bytes[at] == beacon.param.value);
}

/// For a fixed message byte the CRC register is stepped one-to-one, and for a
/// fixed register two different bytes lead to different registers.
pub proof fn lemma_crc16_update_injective(c1: u16, c2: u16, x: u8, y: u8)
    ensures
        crc16_update(c1, x) == crc16_update(c2, x) ==> c1 == c2,
        crc16_update(c1, x) == crc16_update(c1, y) ==> x == y,
{
    assert(crc16_update(c1, x) == crc16_update(c2, x) ==> c1 == c2) by (bit_vector);
    assert(crc16_update(c1, x) == crc16_update(c1, y) ==> x == y) by (bit_vector);
}

/// Two messages of one length that differ in exactly one byte have different
/// checksums.
pub proof fn lemma_crc16_detects_byte_change(a: Seq<u8>, b: Seq<u8>, pos: int)
    requires
        a.len() == b.len(),
        0 <= pos < a.len(),
        a[pos] != b[pos],
        forall|i: int| 0 <= i < a.len() && i != pos ==> a[i] == b[i],
    ensures
        crc16(a) != crc16(b),
    decreases a.len(),
{
    if pos == a.len() - 1 {
        assert(a.drop_last() =~= b.drop_last());
        lemma_crc16_update_injective(crc16(a.drop_last()), 0, a.last(), b.last());
    } else {
        lemma_crc16_detects_byte_change(a.drop_last(), b.drop_last(), pos);
        lemma_crc16_update_injective(crc16(a.drop_last()), crc16(b.drop_last()), a.last(), 0);
    }
}

/// The frame `bytes` with bit `bit` of the byte at `pos` inverted.
pub open spec fn flip_bit(bytes: Seq<u8>, pos: int, bit: u8) -> Seq<u8> {
    bytes.update(pos, bytes[pos] ^ (1u8 << bit))
}

/// Inverting any one bit in the region that CRC1 covers turns a valid beacon
/// into one that is rejected as `Crc1Wrong`, while the region that CRC2
/// covers and CRC2 itself stay as they were and still agree.
pub proof fn lemma_crc1_detects_bit_flip(sf: Sf, bytes: Seq<u8>, pos: int, bit: u8)
    requires
        spec_parse_beacon(sf, bytes) is Ok,
        0 <= pos < sf.spec_beacon_rfu1_bytes() + 5,
        bit < 8,
    ensures
        spec_parse_beacon(sf, flip_bit(bytes, pos, bit)) == Err::<Beacon, Error>(Error::Crc1Wrong),
        crc2_region(sf, flip_bit(bytes, pos, bit)) == crc2_region(sf, bytes),
        crc2_field(sf, flip_bit(bytes, pos, bit)) == crc2_field(sf, bytes),
        crc2_field(sf, flip_bit(bytes, pos, bit)) == crc16(
            crc2_region(sf, flip_bit(bytes, pos, bit)),
        ),
{
    let flipped = flip_bit(bytes, pos, bit);
    let at = sf.spec_beacon_rfu1_bytes() as int;
    let end = sf.spec_beacon_bytes() as int;
    let old_byte: u8 = bytes[pos];
    assert(old_byte ^ (1u8 << bit) != old_byte) by (bit_vector)
        requires
            bit < 8,
    ;
    assert(crc2_region(sf, flipped) =~= crc2_region(sf, bytes));
    assert(flipped.subrange(end - 2, end) =~= bytes.subrange(end - 2, end));
    assert(flipped.subrange(at + 5, at + 7) =~= bytes.subrange(at + 5, at + 7));
    lemma_crc16_detects_byte_change(crc1_region(sf, bytes), crc1_region(sf, flipped), pos);
}

/// Changing bytes in the region that CRC2 covers, or CRC2 itself, never makes
/// a beacon fail as `Crc1Wrong`: the two regions are checked independently.
pub proof fn lemma_crc_regions_independent(sf: Sf, bytes: Seq<u8>, other: Seq<u8>)
    requires
        bytes.len() == sf.spec_beacon_bytes(),
        other.len() == sf.spec_beacon_bytes(),
        forall|i: int| 0 <= i < sf.spec_beacon_rfu1_bytes() + 7 ==> bytes[i] == other[i],
    ensures
        spec_parse_beacon(sf, bytes) == Err::<Beacon, Error>(Error::Crc1Wrong)
            <==> spec_parse_beacon(sf, other) == Err::<Beacon, Error>(Error::Crc1Wrong),
{
    let at = sf.spec_beacon_rfu1_bytes() as int;
    assert(crc1_region(sf, bytes) =~= crc1_region(sf, other));
    assert(bytes.subrange(at + 5, at + 7) =~= other.subrange(at + 5, at + 7));
}

} // verus!
