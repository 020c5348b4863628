//! The format of all packets that are part of uplink and downlink, providing
//! encoding and decoding.
//!
//! Contains items defined in LoRaWAN L2 1.0.4, 4. MAC Frame Formats and 6.
//! End-Device Activation.
//!
//! PHYPayload:
//! ```norust
//!  1   | 7..M         | 4
//! MHDR | MACPayload   | MIC
//!
//! MHDR | Join-Request | MIC
//! MHDR | Join-Accept  | MIC
//! ```
//!
//! MACPayload:
//! ```norust
//! FHDR | FPort | FRMPayload
//! ```
//!
//! FHDR:
//! ```norust
//! DevAddr | FCtrl | FCnt | FOpts
//! ```
use crate::codec::{
    spec_u16_from_le_bytes, spec_u16_to_le_bytes, spec_u24_from_le_bytes,
    spec_u32_from_le_bytes, spec_u32_to_le_bytes, spec_u64_from_le_bytes, u16_from_le_bytes,
    u16_to_le_bytes, u24_from_le_bytes, u32_from_le_bytes, u32_to_le_bytes, u64_from_le_bytes,
};
use crate::crypto::{
    aes128_cmac, aes128_cmac_tag, aes128_encrypt, crypt, ecb_encrypt, end_device_app_skey,
    end_device_network_skey, mic_block, mic_from_tag, spec_crypt, spec_ecb_encrypt,
    spec_mic_block, spec_mic_from_tag, spec_session_key_block, Direction, SessionKeys,
    MAX_CRYPT_LEN,
};
use crate::DevAddr;
use core::marker::PhantomData;
use vstd::prelude::*;

pub mod decode_state;

pub use crate::crypto::{frame_port_key, Key};

verus! {

/// FType, 3 bits.
#[derive(Debug, Clone, Copy, PartialEq, Eq, Structural)]
pub enum FrameType {
    /// Join-Request
    JoinRequest,
    /// Join-Accept
    JoinAccept,
    UnconfirmedDataUplink,
    UnconfirmedDataDownlink,
    ConfirmedDataUplink,
    ConfirmedDataDownlink,
    Rfu,
    Proprietary,
}

impl FrameType {
    /// The frame type that the three bits `bits` stand for.
    pub open spec fn spec_from_bits(bits: u8) -> FrameType {
        if bits == 0 {
            FrameType::JoinRequest
        } else if bits == 1 {
            FrameType::JoinAccept
        } else if bits == 2 {
            FrameType::UnconfirmedDataUplink
        } else if bits == 3 {
            FrameType::UnconfirmedDataDownlink
        } else if bits == 4 {
            FrameType::ConfirmedDataUplink
        } else if bits == 5 {
            FrameType::ConfirmedDataDownlink
        } else if bits == 6 {
            FrameType::Rfu
        } else {
            FrameType::Proprietary
        }
    }

    /// The three bits that stand for the frame type.
    pub open spec fn spec_bits(&self) -> u8 {
        match *self {
            FrameType::JoinRequest => 0,
            FrameType::JoinAccept => 1,
            FrameType::UnconfirmedDataUplink => 2,
            FrameType::UnconfirmedDataDownlink => 3,
            FrameType::ConfirmedDataUplink => 4,
            FrameType::ConfirmedDataDownlink => 5,
            FrameType::Rfu => 6,
            FrameType::Proprietary => 7,
        }
    }

    /// The way a data frame of this type travels; no other frame has one.
    pub open spec fn spec_direction(&self) -> Option<Direction> {
        match *self {
            FrameType::UnconfirmedDataUplink | FrameType::ConfirmedDataUplink => Some(
                Direction::Uplink,
            ),
            FrameType::UnconfirmedDataDownlink | FrameType::ConfirmedDataDownlink => Some(
                Direction::Downlink,
            ),
            _ => None,
        }
    }

    /// Whether this is one of the four types of data frames.
    pub open spec fn spec_is_data(&self) -> bool {
        self.spec_direction() is Some
    }

    /// Decodes the low three bits of `bits`.
    pub fn from_bits(bits: u8) -> (t: Self)
        ensures
            t == Self::spec_from_bits(bits % 8),
            t.spec_bits() == bits % 8,
    {
        match bits % 8 {
            0 => FrameType::JoinRequest,
            1 => FrameType::JoinAccept,
            2 => FrameType::UnconfirmedDataUplink,
            3 => FrameType::UnconfirmedDataDownlink,
            4 => FrameType::ConfirmedDataUplink,
            5 => FrameType::ConfirmedDataDownlink,
            6 => FrameType::Rfu,
            _ => FrameType::Proprietary,
        }
    }

    #[verifier::when_used_as_spec(spec_bits)]
    pub fn bits(&self) -> (b: u8)
        ensures
            b == self.spec_bits(),
            b < 8,
            Self::spec_from_bits(b) == *self,
    {
        match *self {
            FrameType::JoinRequest => 0,
            FrameType::JoinAccept => 1,
            FrameType::UnconfirmedDataUplink => 2,
            FrameType::UnconfirmedDataDownlink => 3,
            FrameType::ConfirmedDataUplink => 4,
            FrameType::ConfirmedDataDownlink => 5,
            FrameType::Rfu => 6,
            FrameType::Proprietary => 7,
        }
    }

    #[verifier::when_used_as_spec(spec_direction)]
    pub fn direction(&self) -> (d: Option<Direction>)
        ensures
            d == self.spec_direction(),
    {
        match *self {
            FrameType::UnconfirmedDataUplink | FrameType::ConfirmedDataUplink => Some(
                Direction::Uplink,
            ),
            FrameType::UnconfirmedDataDownlink | FrameType::ConfirmedDataDownlink => Some(
                Direction::Downlink,
            ),
            _ => None,
        }
    }

    #[verifier::when_used_as_spec(spec_is_data)]
    pub fn is_data(&self) -> (b: bool)
        ensures
            b == self.spec_is_data(),
    {
        match *self {
            FrameType::UnconfirmedDataUplink
            | FrameType::ConfirmedDataUplink
            | FrameType::UnconfirmedDataDownlink
            | FrameType::ConfirmedDataDownlink => true,
            _ => false,
        }
    }
}

/// MHDR: the frame type in bits 0 to 2, three reserved bits, and the major
/// version of the protocol in bits 6 and 7.
#[derive(Debug, Clone, Copy, PartialEq, Eq, Structural)]
pub struct MacHeader {
    pub value: u8,
}

impl MacHeader {
    pub open spec fn spec_ftype(&self) -> FrameType {
        FrameType::spec_from_bits(self.value % 8)
    }

    pub open spec fn spec_rfu(&self) -> u8 {
        (self.value / 8) % 8
    }

    pub open spec fn spec_major(&self) -> u8 {
        self.value / 64
    }

    /// The header with all bits zero: a Join-Request of major version 0.
    pub fn new() -> (h: Self)
        ensures
            h.value == 0,
    {
        MacHeader { value: 0 }
    }

    pub fn from_bytes(bytes: [u8; 1]) -> (h: Self)
        ensures
            h.value == bytes[0],
    {
        MacHeader { value: bytes[0] }
    }

    pub fn into_bytes(self) -> (bytes: [u8; 1])
        ensures
            bytes@ == seq![self.value],
    {
        let bytes: [u8; 1] = [self.value];
        assert(bytes@ =~= seq![self.value]);
        bytes
    }

    #[verifier::when_used_as_spec(spec_ftype)]
    pub fn ftype(&self) -> (t: FrameType)
        ensures
            t == self.spec_ftype(),
    {
        FrameType::from_bits(self.value % 8)
    }

    #[verifier::when_used_as_spec(spec_rfu)]
    pub fn rfu(&self) -> (v: u8)
        ensures
            v == self.spec_rfu(),
            v < 8,
    {
        (self.value / 8) % 8
    }

    #[verifier::when_used_as_spec(spec_major)]
    pub fn major(&self) -> (v: u8)
        ensures
            v == self.spec_major(),
            v < 4,
    {
        self.value / 64
    }

    /// The header with its frame type replaced.
    pub fn with_ftype(self, ftype: FrameType) -> (h: Self)
        ensures
            h.spec_ftype() == ftype,
            h.spec_rfu() == self.spec_rfu(),
            h.spec_major() == self.spec_major(),
    {
        let v: u8 = self.value;
        let bits: u8 = ftype.bits();
        assert(v - v % 8 + bits <= 255 && (v - v % 8 + bits) % 8 == bits && ((v - v % 8 + bits) / 8)
            % 8 == (v / 8) % 8 && (v - v % 8 + bits) / 64 == v / 64) by (bit_vector)
            requires
                bits < 8,
        ;
        MacHeader { value: v - v % 8 + bits }
    }

    /// The header with its reserved bits replaced.
    pub fn with_rfu(self, rfu: u8) -> (h: Self)
        requires
            rfu < 8,
        ensures
            h.spec_ftype() == self.spec_ftype(),
            h.spec_rfu() == rfu,
            h.spec_major() == self.spec_major(),
    {
        let v: u8 = self.value;
        assert(v - ((v / 8) % 8) * 8 + rfu * 8 <= 255 && ((v / 8) % 8) * 8 <= v && (v - ((v / 8)
            % 8) * 8 + rfu * 8) % 8 == v % 8 && ((v - ((v / 8) % 8) * 8 + rfu * 8) / 8) % 8 == rfu
            && (v - ((v / 8) % 8) * 8 + rfu * 8) / 64 == v / 64) by (bit_vector)
            requires
                rfu < 8,
        ;
        MacHeader { value: v - ((v / 8) % 8) * 8 + rfu * 8 }
    }

    /// The header with its major version replaced.
    pub fn with_major(self, major: u8) -> (h: Self)
        requires
            major < 4,
        ensures
            h.spec_ftype() == self.spec_ftype(),
            h.spec_rfu() == self.spec_rfu(),
            h.spec_major() == major,
    {
        let v: u8 = self.value;
        assert(v % 64 + major * 64 <= 255 && (v % 64 + major * 64) % 8 == v % 8 && ((v % 64 + major
            * 64) / 8) % 8 == (v / 8) % 8 && (v % 64 + major * 64) / 64 == major) by (bit_vector)
            requires
                major < 4,
        ;
        MacHeader { value: v % 64 + major * 64 }
    }
}

/// A buffer that holds the bytes of a frame: a borrowed slice, or a vector
/// that the frame owns.
pub trait FrameBytes {
    /// The bytes held.
    spec fn spec_bytes(&self) -> Seq<u8>;

    fn bytes(&self) -> (b: &[u8])
        ensures
            b@ == self.spec_bytes(),
    ;
}

impl<'a> FrameBytes for &'a [u8] {
    open spec fn spec_bytes(&self) -> Seq<u8> {
        (*self)@
    }

    fn bytes(&self) -> (b: &[u8]) {
        *self
    }
}

impl FrameBytes for Vec<u8> {
    open spec fn spec_bytes(&self) -> Seq<u8> {
        self@
    }

    fn bytes(&self) -> (b: &[u8]) {
        self.as_slice()
    }
}

/// The smallest frame: MHDR, a payload of seven bytes, and the MIC.
pub const PHY_PAYLOAD_MIN_SIZE: usize = 1 + 7 + 4;

#[derive(Debug, Clone, Copy, PartialEq, Eq, Structural)]
pub enum PhyPayloadDecodeError {
    SmallerThanMinSize { have: usize, need: usize },
}

#[derive(Debug, Clone, Copy, PartialEq, Eq, Structural)]
pub enum JoinRequestParseError {
    SizeMismatch { have: usize, need: usize },
}

#[derive(Debug, Clone, Copy, PartialEq, Eq, Structural)]
pub enum JoinAcceptParseError {
    SizeMismatch { have: usize },
}

#[derive(Debug, Clone, Copy, PartialEq, Eq, Structural)]
pub enum FrameHeaderParseError {
    TooSmall { have: usize },
}

#[derive(Debug, Clone, Copy, PartialEq, Eq, Structural)]
pub enum PayloadParseError {
    UnknownMajor { major: u8 },
    JoinRequestParseError(JoinRequestParseError),
    JoinAcceptParseError(JoinAcceptParseError),
}

impl From<JoinRequestParseError> for PayloadParseError {
    fn from(other: JoinRequestParseError) -> (e: Self)
        ensures
            e == PayloadParseError::JoinRequestParseError(other),
    {
        PayloadParseError::JoinRequestParseError(other)
    }
}

impl vstd::std_specs::convert::FromSpecImpl<JoinRequestParseError> for PayloadParseError {
    open spec fn obeys_from_spec() -> bool {
        true
    }

    open spec fn from_spec(other: JoinRequestParseError) -> Self {
        PayloadParseError::JoinRequestParseError(other)
    }
}

impl From<JoinAcceptParseError> for PayloadParseError {
    fn from(other: JoinAcceptParseError) -> (e: Self)
        ensures
            e == PayloadParseError::JoinAcceptParseError(other),
    {
        PayloadParseError::JoinAcceptParseError(other)
    }
}

impl vstd::std_specs::convert::FromSpecImpl<JoinAcceptParseError> for PayloadParseError {
    open spec fn obeys_from_spec() -> bool {
        true
    }

    open spec fn from_spec(other: JoinAcceptParseError) -> Self {
        PayloadParseError::JoinAcceptParseError(other)
    }
}

/// Size of a Join-Request payload: `JoinEUI(8) | DevEUI(8) | DevNonce(2)`.
pub const JOIN_REQUEST_SIZE: usize = 8 + 8 + 2;

/// Size of a Join-Accept payload without a CFList:
/// `JoinNonce(3) | NetID(3) | DevAddr(4) | DLSettings(1) | RxDelay(1)`.
pub const JOIN_ACCEPT_SIZE: usize = 3 + 3 + 4 + 1 + 1;

/// Size of the optional CFList of a Join-Accept.
pub const CF_LIST_SIZE: usize = 16;

/// A Join-Request in owned form.
#[derive(Debug, Clone, Copy, PartialEq, Eq, Structural)]
pub struct JoinRequestBuf {
    pub join_eui: u64,
    pub dev_eui: u64,
    /// Set to 0 when the end-device is powered up and incrimented with every
    /// Join-Request. A given `DevNonce` shall never be reused for a given
    /// JoinEUI value. If the end-device can be power cycled, then `DevNonce`
    /// shall be persistent.
    pub dev_nonce: u16,
}

/// A Join-Request payload, as a view of its 18 bytes.
#[derive(Debug, Clone, Copy)]
pub struct JoinRequest<'a> {
    bytes: &'a [u8],
}

impl<'a> JoinRequest<'a> {
    #[verifier::type_invariant]
    spec fn inv(self) -> bool {
        self.bytes@.len() == JOIN_REQUEST_SIZE
    }

    /// The bytes of the payload.
    pub closed spec fn view(&self) -> Seq<u8> {
        self.bytes@
    }

    /// Accepts exactly 18 bytes.
    pub fn from_bytes(bytes: &'a [u8]) -> (r: Result<Self, JoinRequestParseError>)
        ensures
            bytes@.len() == JOIN_REQUEST_SIZE <==> r is Ok,
            r matches Ok(j) ==> j@ == bytes@,
            r matches Err(e) ==> e == (JoinRequestParseError::SizeMismatch {
                have: bytes@.len() as usize,
                need: JOIN_REQUEST_SIZE,
            }),
    {
        let need: usize = JOIN_REQUEST_SIZE;
        let have: usize = bytes.len();
        if have != need {
            return Err(JoinRequestParseError::SizeMismatch { have, need });
        }
        Ok(Self { bytes })
    }

    pub fn as_bytes(&self) -> (b: &'a [u8])
        ensures
            b@ == self@,
            b@.len() == JOIN_REQUEST_SIZE,
    {
        proof {
            use_type_invariant(self);
        }
        self.bytes
    }

    pub fn join_eui(&self) -> (v: u64)
        ensures
            v == spec_u64_from_le_bytes(self@.subrange(0, 8)),
    {
        let b: &[u8] = self.as_bytes();
        let a: [u8; 8] = [b[0], b[1], b[2], b[3], b[4], b[5], b[6], b[7]];
        assert(a@ =~= self@.subrange(0, 8));
        u64_from_le_bytes(a)
    }

    pub fn dev_eui(&self) -> (v: u64)
        ensures
            v == spec_u64_from_le_bytes(self@.subrange(8, 16)),
    {
        let b: &[u8] = self.as_bytes();
        let a: [u8; 8] = [b[8], b[9], b[10], b[11], b[12], b[13], b[14], b[15]];
        assert(a@ =~= self@.subrange(8, 16));
        u64_from_le_bytes(a)
    }

    pub fn dev_nonce(&self) -> (v: u16)
        ensures
            v == spec_u16_from_le_bytes(self@.subrange(16, 18)),
    {
        let b: &[u8] = self.as_bytes();
        let a: [u8; 2] = [b[16], b[17]];
        assert(a@ =~= self@.subrange(16, 18));
        u16_from_le_bytes(a)
    }

    pub fn to_owned(&self) -> (buf: JoinRequestBuf)
        ensures
            buf.join_eui == spec_u64_from_le_bytes(self@.subrange(0, 8)),
            buf.dev_eui == spec_u64_from_le_bytes(self@.subrange(8, 16)),
            buf.dev_nonce == spec_u16_from_le_bytes(self@.subrange(16, 18)),
    {
        JoinRequestBuf {
            dev_eui: self.dev_eui(),
            dev_nonce: self.dev_nonce(),
            join_eui: self.join_eui(),
        }
    }
}

/// DLSettings: bit 0 reserved, the RX1 data rate offset in bits 1 to 3, the
/// RX2 data rate in bits 4 to 7.
#[derive(Debug, Clone, Copy, PartialEq, Eq, Structural)]
pub struct DlSettings {
    pub value: u8,
}

impl DlSettings {
    pub open spec fn spec_rfu(&self) -> bool {
        self.value % 2 == 1
    }

    pub open spec fn spec_rx1_dr_offset(&self) -> u8 {
        (self.value / 2) % 8
    }

    pub open spec fn spec_rx2_data_rate(&self) -> u8 {
        self.value / 16
    }

    pub fn from_bytes(bytes: [u8; 1]) -> (s: Self)
        ensures
            s.value == bytes[0],
    {
        DlSettings { value: bytes[0] }
    }

    pub fn into_bytes(self) -> (bytes: [u8; 1])
        ensures
            bytes@ == seq![self.value],
    {
        let bytes: [u8; 1] = [self.value];
        assert(bytes@ =~= seq![self.value]);
        bytes
    }

    #[verifier::when_used_as_spec(spec_rfu)]
    pub fn rfu(&self) -> (b: bool)
        ensures
            b == self.spec_rfu(),
    {
        self.value % 2 == 1
    }

    #[verifier::when_used_as_spec(spec_rx1_dr_offset)]
    pub fn rx1_dr_offset(&self) -> (v: u8)
        ensures
            v == self.spec_rx1_dr_offset(),
            v < 8,
    {
        (self.value / 2) % 8
    }

    #[verifier::when_used_as_spec(spec_rx2_data_rate)]
    pub fn rx2_data_rate(&self) -> (v: u8)
        ensures
            v == self.spec_rx2_data_rate(),
            v < 16,
    {
        self.value / 16
    }
}

/// A Join-Accept in owned form.
#[derive(Debug, Clone, Copy)]
pub struct JoinAcceptBuf {
    pub join_nonce: [u8; 3],
    pub net_id: [u8; 3],
    pub dev_addr: DevAddr,
    pub dl_settings: DlSettings,
    pub rx_delay: u8,
    pub cf_list: Option<[u8; 16]>,
}

/// A Join-Accept payload, as a view of its 12 bytes, or 28 with a CFList.
#[derive(Debug, Clone, Copy)]
pub struct JoinAccept<'a> {
    bytes: &'a [u8],
}

impl<'a> JoinAccept<'a> {
    #[verifier::type_invariant]
    spec fn inv(self) -> bool {
        self.bytes@.len() == JOIN_ACCEPT_SIZE || self.bytes@.len() == JOIN_ACCEPT_SIZE
            + CF_LIST_SIZE
    }

    /// The bytes of the payload.
    pub closed spec fn view(&self) -> Seq<u8> {
        self.bytes@
    }

    /// Accepts exactly 12 or 28 bytes.
    pub fn from_bytes(bytes: &'a [u8]) -> (r: Result<Self, JoinAcceptParseError>)
        ensures
            (bytes@.len() == 12 || bytes@.len() == 28) <==> r is Ok,
            r matches Ok(j) ==> j@ == bytes@,
            r matches Err(e) ==> e == (JoinAcceptParseError::SizeMismatch {
                have: bytes@.len() as usize,
            }),
    {
        let need1: usize = JOIN_ACCEPT_SIZE;
        let need2: usize = need1 + CF_LIST_SIZE;
        let have: usize = bytes.len();
        if need1 != have && need2 != have {
            return Err(JoinAcceptParseError::SizeMismatch { have });
        }
        Ok(Self { bytes })
    }

    pub fn as_bytes(&self) -> (b: &'a [u8])
        ensures
            b@ == self@,
            b@.len() == 12 || b@.len() == 28,
    {
        proof {
            use_type_invariant(self);
        }
        self.bytes
    }

    pub fn join_nonce(&self) -> (v: u32)
        ensures
            v == spec_u24_from_le_bytes(self@.subrange(0, 3)),
    {
        let b: &[u8] = self.as_bytes();
        let a: [u8; 3] = [b[0], b[1], b[2]];
        assert(a@ =~= self@.subrange(0, 3));
        u24_from_le_bytes(a)
    }

    pub fn net_id(&self) -> (v: u32)
        ensures
            v == spec_u24_from_le_bytes(self@.subrange(3, 6)),
    {
        let b: &[u8] = self.as_bytes();
        let a: [u8; 3] = [b[3], b[4], b[5]];
        assert(a@ =~= self@.subrange(3, 6));
        u24_from_le_bytes(a)
    }

    pub fn dev_addr(&self) -> (v: u32)
        ensures
            v == spec_u32_from_le_bytes(self@.subrange(6, 10)),
    {
        let b: &[u8] = self.as_bytes();
        let a: [u8; 4] = [b[6], b[7], b[8], b[9]];
        assert(a@ =~= self@.subrange(6, 10));
        u32_from_le_bytes(a)
    }

    pub fn dl_settings(&self) -> (s: DlSettings)
        ensures
            s.value == self@[10],
    {
        let b: &[u8] = self.as_bytes();
        DlSettings::from_bytes([b[10]])
    }

    pub fn rx_delay(&self) -> (v: u8)
        ensures
            v == self@[11],
    {
        let b: &[u8] = self.as_bytes();
        b[11]
    }

    /// The CFList: the 16 bytes that follow `RxDelay`, where the payload has
    /// them.
    pub fn cf_list(&self) -> (r: Option<&'a [u8]>)
        ensures
            self@.len() == 28 <==> r is Some,
            r matches Some(list) ==> list@ == self@.subrange(12, 28),
    {
        let b: &'a [u8] = self.as_bytes();
        let need: usize = JOIN_ACCEPT_SIZE;
        if b.len() == need {
            None
        } else {
            Some(vstd::slice::slice_subrange(b, need, b.len()))
        }
    }

    /// NwkSKey: the network session key that this Join-Accept and the
    /// `DevNonce` of the Join-Request that it answers lead to.
    ///
    /// ```norust
    /// NwkSKey = aes128_encrypt(AppKey, 0x01 | JoinNonce | NetID | DevNonce | pad16)
    /// ```
    pub fn calculate_network_session_key(&self, app_key: &[u8; 16], dev_nonce: u16) -> (key: [
        u8; 16
    ])
        ensures
            key@ == aes128_encrypt(
                app_key@,
                spec_session_key_block(
                    0x01,
                    self@.subrange(0, 3),
                    self@.subrange(3, 6),
                    spec_u16_to_le_bytes(dev_nonce) + seq![0u8],
                ),
            ),
    {
        let b: &[u8] = self.as_bytes();
        let join_nonce: [u8; 3] = [b[0], b[1], b[2]];
        let net_id: [u8; 3] = [b[3], b[4], b[5]];
        let n: [u8; 2] = u16_to_le_bytes(dev_nonce);
        let nonce: [u8; 3] = [n[0], n[1], 0];
        proof {
            assert(join_nonce@ =~= self@.subrange(0, 3));
            assert(net_id@ =~= self@.subrange(3, 6));
            assert(nonce@ =~= spec_u16_to_le_bytes(dev_nonce) + seq![0u8]);
        }
        end_device_network_skey(app_key, join_nonce, net_id, nonce)
    }

    /// AppSKey: the application session key that this Join-Accept and the
    /// `DevNonce` of the Join-Request that it answers lead to.
    ///
    /// ```norust
    /// AppSKey = aes128_encrypt(AppKey, 0x02 | JoinNonce | NetID | DevNonce | pad16)
    /// ```
    pub fn calculate_app_session_key(&self, app_key: &[u8; 16], dev_nonce: u16) -> (key: [u8; 16])
        ensures
            key@ == aes128_encrypt(
                app_key@,
                spec_session_key_block(
                    0x02,
                    self@.subrange(0, 3),
                    self@.subrange(3, 6),
                    spec_u16_to_le_bytes(dev_nonce) + seq![0u8],
                ),
            ),
    {
        let b: &[u8] = self.as_bytes();
        let join_nonce: [u8; 3] = [b[0], b[1], b[2]];
        let net_id: [u8; 3] = [b[3], b[4], b[5]];
        let n: [u8; 2] = u16_to_le_bytes(dev_nonce);
        let nonce: [u8; 3] = [n[0], n[1], 0];
        proof {
            assert(join_nonce@ =~= self@.subrange(0, 3));
            assert(net_id@ =~= self@.subrange(3, 6));
            assert(nonce@ =~= spec_u16_to_le_bytes(dev_nonce) + seq![0u8]);
        }
        end_device_app_skey(app_key, join_nonce, net_id, nonce)
    }

    pub fn to_owned(&self) -> (buf: JoinAcceptBuf)
        ensures
            buf.join_nonce@ == self@.subrange(0, 3),
            buf.net_id@ == self@.subrange(3, 6),
            buf.dev_addr.addr == spec_u32_from_le_bytes(self@.subrange(6, 10)),
            buf.dl_settings.value == self@[10],
            buf.rx_delay == self@[11],
            self@.len() == 28 <==> buf.cf_list is Some,
            buf.cf_list matches Some(list) ==> list@ == self@.subrange(12, 28),
    {
        let b: &[u8] = self.as_bytes();
        let join_nonce: [u8; 3] = [b[0], b[1], b[2]];
        let net_id: [u8; 3] = [b[3], b[4], b[5]];
        assert(join_nonce@ =~= self@.subrange(0, 3));
        assert(net_id@ =~= self@.subrange(3, 6));
        let cf_list: Option<[u8; 16]> = if b.len() == JOIN_ACCEPT_SIZE {
            None
        } else {
            let list: [u8; 16] = [
                b[12],
                b[13],
                b[14],
                b[15],
                b[16],
                b[17],
                b[18],
                b[19],
                b[20],
                b[21],
                b[22],
                b[23],
                b[24],
                b[25],
                b[26],
                b[27],
            ];
            assert(list@ =~= self@.subrange(12, 28));
            Some(list)
        };
        JoinAcceptBuf {
            join_nonce,
            net_id,
            dev_addr: DevAddr { addr: self.dev_addr() },
            dl_settings: self.dl_settings(),
            rx_delay: self.rx_delay(),
            cf_list,
        }
    }
}

/// FCtrl of an uplink: ADR in bit 0, ADRACKReq in bit 1, ACK in bit 2,
/// ClassB in bit 3, FOptsLen in bits 4 to 7.
#[derive(Debug, Clone, Copy, PartialEq, Eq, Structural)]
pub struct UplinkFrameControl {
    pub value: u8,
}

impl UplinkFrameControl {
    pub open spec fn spec_adr(&self) -> bool {
        self.value % 2 == 1
    }

    pub open spec fn spec_adr_ack_req(&self) -> bool {
        (self.value / 2) % 2 == 1
    }

    pub open spec fn spec_ack(&self) -> bool {
        (self.value / 4) % 2 == 1
    }

    pub open spec fn spec_class_b(&self) -> bool {
        (self.value / 8) % 2 == 1
    }

    pub open spec fn spec_frame_opts_len(&self) -> u8 {
        self.value / 16
    }

    pub fn from_bytes(bytes: [u8; 1]) -> (c: Self)
        ensures
            c.value == bytes[0],
    {
        UplinkFrameControl { value: bytes[0] }
    }

    pub fn into_bytes(self) -> (bytes: [u8; 1])
        ensures
            bytes@ == seq![self.value],
    {
        let bytes: [u8; 1] = [self.value];
        assert(bytes@ =~= seq![self.value]);
        bytes
    }

    #[verifier::when_used_as_spec(spec_adr)]
    pub fn adr(&self) -> (b: bool)
        ensures
            b == self.spec_adr(),
    {
        self.value % 2 == 1
    }

    #[verifier::when_used_as_spec(spec_adr_ack_req)]
    pub fn adr_ack_req(&self) -> (b: bool)
        ensures
            b == self.spec_adr_ack_req(),
    {
        (self.value / 2) % 2 == 1
    }

    #[verifier::when_used_as_spec(spec_ack)]
    pub fn ack(&self) -> (b: bool)
        ensures
            b == self.spec_ack(),
    {
        (self.value / 4) % 2 == 1
    }

    /// Set true by the end-device to indicate to the Network Server that the
    /// end-device has enabled class B and is now ready to receive scheduled
    /// downlink pings.
    #[verifier::when_used_as_spec(spec_class_b)]
    pub fn class_b(&self) -> (b: bool)
        ensures
            b == self.spec_class_b(),
    {
        (self.value / 8) % 2 == 1
    }

    /// `FOptsLen`: actual length of the frame options field (`FOpts`)
    /// included in the frame.
    #[verifier::when_used_as_spec(spec_frame_opts_len)]
    pub fn frame_opts_len(&self) -> (v: u8)
        ensures
            v == self.spec_frame_opts_len(),
            v < 16,
    {
        self.value / 16
    }
}

/// FCtrl of a downlink: ADR in bit 0, bit 1 reserved, ACK in bit 2,
/// FPending in bit 3, FOptsLen in bits 4 to 7.
#[derive(Debug, Clone, Copy, PartialEq, Eq, Structural)]
pub struct DownlinkFrameControl {
    pub value: u8,
}

impl DownlinkFrameControl {
    pub open spec fn spec_adr(&self) -> bool {
        self.value % 2 == 1
    }

    pub open spec fn spec_rfu(&self) -> bool {
        (self.value / 2) % 2 == 1
    }

    pub open spec fn spec_ack(&self) -> bool {
        (self.value / 4) % 2 == 1
    }

    pub open spec fn spec_frame_pending(&self) -> bool {
        (self.value / 8) % 2 == 1
    }

    pub open spec fn spec_frame_opts_len(&self) -> u8 {
        self.value / 16
    }

    pub fn from_bytes(bytes: [u8; 1]) -> (c: Self)
        ensures
            c.value == bytes[0],
    {
        DownlinkFrameControl { value: bytes[0] }
    }

    pub fn into_bytes(self) -> (bytes: [u8; 1])
        ensures
            bytes@ == seq![self.value],
    {
        let bytes: [u8; 1] = [self.value];
        assert(bytes@ =~= seq![self.value]);
        bytes
    }

    #[verifier::when_used_as_spec(spec_adr)]
    pub fn adr(&self) -> (b: bool)
        ensures
            b == self.spec_adr(),
    {
        self.value % 2 == 1
    }

    #[verifier::when_used_as_spec(spec_rfu)]
    pub fn rfu(&self) -> (b: bool)
        ensures
            b == self.spec_rfu(),
    {
        (self.value / 2) % 2 == 1
    }

    #[verifier::when_used_as_spec(spec_ack)]
    pub fn ack(&self) -> (b: bool)
        ensures
            b == self.spec_ack(),
    {
        (self.value / 4) % 2 == 1
    }

    #[verifier::when_used_as_spec(spec_frame_pending)]
    pub fn frame_pending(&self) -> (b: bool)
        ensures
            b == self.spec_frame_pending(),
    {
        (self.value / 8) % 2 == 1
    }

    /// `FOptsLen`
    #[verifier::when_used_as_spec(spec_frame_opts_len)]
    pub fn frame_opts_len(&self) -> (v: u8)
        ensures
            v == self.spec_frame_opts_len(),
            v < 16,
    {
        self.value / 16
    }
}

/// Size of a frame header without frame options:
/// `DevAddr(4) | FCtrl(1) | FCnt(2)`.
pub const FHDR_MIN_SIZE: usize = 4 + 1 + 2;

/// The length of `FOpts` that the FCtrl byte of a MAC payload announces.
pub open spec fn spec_fopts_len(payload: Seq<u8>) -> int {
    payload[4] as int / 16
}

/// The length of the frame header that a MAC payload announces.
pub open spec fn spec_fhdr_len(payload: Seq<u8>) -> int {
    FHDR_MIN_SIZE + spec_fopts_len(payload)
}

/// Whether a MAC payload holds the frame header that it announces.
pub open spec fn spec_fhdr_fits(payload: Seq<u8>) -> bool {
    payload.len() >= FHDR_MIN_SIZE && payload.len() >= spec_fhdr_len(payload)
}

/// Whether a MAC payload goes on after its frame header: the next byte is
/// then FPort, and what follows FPort is FRMPayload.
pub open spec fn spec_has_fport(payload: Seq<u8>) -> bool {
    spec_fhdr_fits(payload) && payload.len() > spec_fhdr_len(payload)
}

/// FRMPayload of a MAC payload; empty where there is no FPort.
pub open spec fn spec_frm_payload(payload: Seq<u8>) -> Seq<u8> {
    if spec_has_fport(payload) {
        payload.subrange(spec_fhdr_len(payload) + 1, payload.len() as int)
    } else {
        Seq::empty()
    }
}

/// FHDR in owned form.
#[derive(Debug, Clone, Copy)]
pub struct FrameHeaderBuf {
    /// DevAddr
    pub dev_addr: [u8; 4],
    /// FCtrl
    pub fctrl: u8,
    /// FCnt
    pub frame_count: u16,
    /// FOpts: 0 to 15 bytes, as many as FCtrl announces.
    pub fopts: [u8; 15],
}

/// FHDR, as a view of bytes that start with it:
/// `DevAddr | FCtrl | FCnt | FOpts`.
///
/// The view holds seven bytes or more. Whether the frame options that FCtrl
/// announces are all there is found out when they are asked for.
#[derive(Debug, Clone, Copy)]
pub struct FrameHeader<'a> {
    bytes: &'a [u8],
}

impl<'a> FrameHeader<'a> {
    #[verifier::type_invariant]
    spec fn inv(self) -> bool {
        self.bytes@.len() >= FHDR_MIN_SIZE
    }

    /// The bytes of the view.
    pub closed spec fn view(&self) -> Seq<u8> {
        self.bytes@
    }

    /// Takes `bytes` as a frame header. Seven bytes are needed: DevAddr,
    /// FCtrl and FCnt. The bytes are kept as they are.
    pub fn from_bytes(bytes: &'a [u8]) -> (r: Result<Self, FrameHeaderParseError>)
        ensures
            bytes@.len() >= 7 <==> r is Ok,
            r matches Ok(h) ==> h@ == bytes@,
            r matches Err(e) ==> e == (FrameHeaderParseError::TooSmall {
                have: bytes@.len() as usize,
            }),
    {
        let have: usize = bytes.len();
        let need: usize = FHDR_MIN_SIZE;
        if have < need {
            return Err(FrameHeaderParseError::TooSmall { have });
        }
        Ok(Self { bytes })
    }

    pub fn as_bytes(&self) -> (b: &'a [u8])
        ensures
            b@ == self@,
            b@.len() >= 7,
    {
        proof {
            use_type_invariant(self);
        }
        self.bytes
    }

    pub fn dev_addr(&self) -> (v: u32)
        ensures
            v == spec_u32_from_le_bytes(self@.subrange(0, 4)),
    {
        let b: &[u8] = self.as_bytes();
        let a: [u8; 4] = [b[0], b[1], b[2], b[3]];
        assert(a@ =~= self@.subrange(0, 4));
        u32_from_le_bytes(a)
    }

    pub fn fctrl(&self) -> (v: u8)
        ensures
            v == self@[4],
    {
        let b: &[u8] = self.as_bytes();
        b[4]
    }

    /// The 16 bits of the frame counter that travel in the frame.
    pub fn frame_count(&self) -> (v: u16)
        ensures
            v == spec_u16_from_le_bytes(self@.subrange(5, 7)),
    {
        let b: &[u8] = self.as_bytes();
        let a: [u8; 2] = [b[5], b[6]];
        assert(a@ =~= self@.subrange(5, 7));
        u16_from_le_bytes(a)
    }

    /// The frame options: MAC commands that ride along unencrypted. They are
    /// the bytes after FCnt, as many as FCtrl announces; `TooSmall` where the
    /// view holds fewer.
    pub fn fopts(&self) -> (r: Result<&'a [u8], FrameHeaderParseError>)
        ensures
            spec_fhdr_fits(self@) <==> r is Ok,
            r matches Ok(o) ==> o@ == self@.subrange(7, spec_fhdr_len(self@)),
            r matches Err(e) ==> e == (FrameHeaderParseError::TooSmall {
                have: self@.len() as usize,
            }),
    {
        let b: &'a [u8] = self.as_bytes();
        let have: usize = b.len();
        let need: usize = FHDR_MIN_SIZE + (b[4] / 16) as usize;
        if have < need {
            return Err(FrameHeaderParseError::TooSmall { have });
        }
        Ok(vstd::slice::slice_subrange(b, FHDR_MIN_SIZE, need))
    }

    /// The header in owned form. Of the frame options that FCtrl announces
    /// those are taken that the view holds; the rest of `fopts` is zero.
    pub fn to_owned(&self) -> (buf: FrameHeaderBuf)
        ensures
            buf.dev_addr@ == self@.subrange(0, 4),
            buf.fctrl == self@[4],
            buf.frame_count == spec_u16_from_le_bytes(self@.subrange(5, 7)),
            forall|i: int|
                0 <= i < 15 ==> buf.fopts[i] == if i < spec_fopts_len(self@) && 7 + i
                    < self@.len() {
                    self@[7 + i]
                } else {
                    0u8
                },
    {
        let b: &[u8] = self.as_bytes();
        let dev_addr: [u8; 4] = [b[0], b[1], b[2], b[3]];
        assert(dev_addr@ =~= self@.subrange(0, 4));
        let announced: usize = (b[4] / 16) as usize;
        let mut fopts: [u8; 15] = [0; 15];
        let mut i: usize = 0;
        while i < announced && 7 + i < b.len()
            invariant
                i <= announced <= 15,
                7 + i <= b@.len(),
                b@ == self@,
                announced == spec_fopts_len(self@),
                forall|k: int|
                    0 <= k < 15 ==> fopts[k] == if k < i {
                        self@[7 + k]
                    } else {
                        0u8
                    },
            decreases announced - i,
        {
            fopts[i] = b[7 + i];
            i += 1;
        }
        FrameHeaderBuf { dev_addr, fctrl: b[4], frame_count: self.frame_count(), fopts }
    }
}

/// MACPayload
///
/// ```norust
/// struct MACPayload {
///    FHDR: [u8; Q], where Q: 7..=22,
///    FPort: Option<u8>,
///    FRMPayload: [u8; P], where P: 0..N
/// }
/// ```
///
/// The bytes are taken as they come: where the header ends is found out when
/// a part is asked for.
#[derive(Debug, Clone, Copy)]
pub struct MacPayload<'a> {
    pub bytes: &'a [u8],
}

impl<'a> MacPayload<'a> {
    /// The bytes of the payload.
    pub open spec fn view(&self) -> Seq<u8> {
        self.bytes@
    }

    /// The frame header: the first seven bytes and the frame options that
    /// FCtrl announces. `TooSmall` where the payload is shorter than the
    /// header that it announces.
    pub fn frame_header(&self) -> (r: Result<FrameHeader<'a>, FrameHeaderParseError>)
        ensures
            spec_fhdr_fits(self@) <==> r is Ok,
            r matches Ok(h) ==> h@ == self@.subrange(0, spec_fhdr_len(self@)),
            r matches Err(e) ==> e == (FrameHeaderParseError::TooSmall {
                have: self@.len() as usize,
            }),
    {
        match self.fhdr_bytes() {
            Ok(header) => FrameHeader::from_bytes(header),
            Err(e) => Err(e),
        }
    }

    /// The bytes of the frame header; `TooSmall` where the payload is shorter
    /// than the header that it announces.
    pub fn fhdr_bytes(&self) -> (r: Result<&'a [u8], FrameHeaderParseError>)
        ensures
            spec_fhdr_fits(self@) <==> r is Ok,
            r matches Ok(h) ==> h@ == self@.subrange(0, spec_fhdr_len(self@)),
            r matches Err(e) ==> e == (FrameHeaderParseError::TooSmall {
                have: self@.len() as usize,
            }),
    {
        let have: usize = self.bytes.len();
        if have < FHDR_MIN_SIZE {
            return Err(FrameHeaderParseError::TooSmall { have });
        }
        let need: usize = FHDR_MIN_SIZE + (self.bytes[4] / 16) as usize;
        if have < need {
            return Err(FrameHeaderParseError::TooSmall { have });
        }
        Ok(vstd::slice::slice_subrange(self.bytes, 0, need))
    }

    /// FPort: the byte after the frame header, where the payload goes on
    /// after the header.
    pub fn fport(&self) -> (r: Option<u8>)
        ensures
            spec_has_fport(self@) <==> r is Some,
            r matches Some(port) ==> port == self@[spec_fhdr_len(self@)],
    {
        let have: usize = self.bytes.len();
        if have < FHDR_MIN_SIZE {
            return None;
        }
        let at: usize = FHDR_MIN_SIZE + (self.bytes[4] / 16) as usize;
        if have > at {
            Some(self.bytes[at])
        } else {
            None
        }
    }

    /// FRMPayload: what follows FPort. It is empty where there is no FPort.
    pub fn frm_paylod_bytes(&self) -> (r: &'a [u8])
        ensures
            r@ == spec_frm_payload(self@),
    {
        let have: usize = self.bytes.len();
        if have < FHDR_MIN_SIZE {
            return vstd::slice::slice_subrange(self.bytes, have, have);
        }
        let at: usize = FHDR_MIN_SIZE + (self.bytes[4] / 16) as usize;
        if have > at {
            vstd::slice::slice_subrange(self.bytes, at + 1, have)
        } else {
            let r: &'a [u8] = vstd::slice::slice_subrange(self.bytes, have, have);
            assert(r@ =~= Seq::<u8>::empty());
            r
        }
    }
}

#[derive(Debug, Clone, Copy)]
pub enum Payload<'a> {
    MacPayload(MacPayload<'a>),
    JoinRequest(JoinRequest<'a>),
    JoinAccept(JoinAccept<'a>),
}

/// MHDR of a frame: its first byte.
pub open spec fn spec_mac_header(frame: Seq<u8>) -> MacHeader {
    MacHeader { value: frame[0] }
}

/// The payload of a frame: what stands between MHDR and the MIC.
pub open spec fn spec_payload_bytes(frame: Seq<u8>) -> Seq<u8> {
    frame.subrange(1, frame.len() - 4)
}

/// The MIC of a frame: its last four bytes.
pub open spec fn spec_mic(frame: Seq<u8>) -> Seq<u8> {
    frame.subrange(frame.len() - 4, frame.len() as int)
}

/// The part of a frame that its MIC protects: MHDR and payload.
pub open spec fn spec_msg(frame: Seq<u8>) -> Seq<u8> {
    frame.subrange(0, frame.len() - 4)
}

/// Why the payload of a frame cannot be taken apart, if it cannot: the major
/// version is not 0, or a Join-Request or Join-Accept has a size that its
/// layout does not allow.
pub open spec fn spec_payload_error(frame: Seq<u8>) -> Option<PayloadParseError> {
    let header = spec_mac_header(frame);
    let have = spec_payload_bytes(frame).len();
    if header.spec_major() != 0 {
        Some(PayloadParseError::UnknownMajor { major: header.spec_major() })
    } else if header.spec_ftype() == FrameType::JoinRequest && have != JOIN_REQUEST_SIZE {
        Some(
            PayloadParseError::JoinRequestParseError(
                JoinRequestParseError::SizeMismatch {
                    have: have as usize,
                    need: JOIN_REQUEST_SIZE,
                },
            ),
        )
    } else if header.spec_ftype() == FrameType::JoinAccept && have != JOIN_ACCEPT_SIZE && have
        != JOIN_ACCEPT_SIZE + CF_LIST_SIZE {
        Some(
            PayloadParseError::JoinAcceptParseError(
                JoinAcceptParseError::SizeMismatch { have: have as usize },
            ),
        )
    } else {
        None
    }
}

/// Whether a message integrity code is defined for the message `msg`, which
/// is MHDR and payload: it is for Join-Request and Join-Accept, and for a
/// data frame whose message has a length that fits in the one byte that
/// block `B_0` has for it.
pub open spec fn spec_mic_defined(msg: Seq<u8>) -> bool {
    let ftype = spec_mac_header(msg).spec_ftype();
    msg.len() >= 1 && (ftype == FrameType::JoinRequest || ftype == FrameType::JoinAccept || (
    ftype.spec_is_data() && msg.len() <= 255))
}

/// What the CMAC is computed over. For Join-Request and Join-Accept it is the
/// message, MHDR and payload. For a data frame block `B_0` goes first, which
/// holds direction, device address, frame counter and the message's length.
pub open spec fn spec_mic_input(
    msg: Seq<u8>,
    direction: Direction,
    dev_addr: u32,
    fcnt: u32,
) -> Seq<u8> {
    if spec_mac_header(msg).spec_ftype().spec_is_data() {
        spec_mic_block(direction, dev_addr, fcnt, msg.len() as u8) + msg
    } else {
        msg
    }
}

/// The message integrity code of the message `msg`: the first four bytes of
/// the CMAC tag.
pub open spec fn spec_expected_mic(
    key: Seq<u8>,
    msg: Seq<u8>,
    direction: Direction,
    dev_addr: u32,
    fcnt: u32,
) -> Seq<u8> {
    spec_mic_from_tag(aes128_cmac(key, spec_mic_input(msg, direction, dev_addr, fcnt)))
}

/// Whether a message, MHDR and payload, is one that a message integrity code
/// is defined for.
pub fn mic_defined(msg: &[u8]) -> (b: bool)
    ensures
        b == spec_mic_defined(msg@),
{
    if msg.len() < 1 {
        return false;
    }
    let ftype: FrameType = MacHeader::from_bytes([msg[0]]).ftype();
    match ftype {
        FrameType::JoinRequest | FrameType::JoinAccept => true,
        FrameType::Rfu | FrameType::Proprietary => false,
        _ => msg.len() <= 255,
    }
}

/// Builds what the CMAC of a message is computed over.
pub fn mic_input(msg: &[u8], direction: Direction, dev_addr: DevAddr, fcnt: u32) -> (out: Vec<u8>)
    requires
        spec_mic_defined(msg@),
    ensures
        out@ == spec_mic_input(msg@, direction, dev_addr.addr, fcnt),
{
    let mut out: Vec<u8> = Vec::new();
    if MacHeader::from_bytes([msg[0]]).ftype().is_data() {
        let b0: [u8; 16] = mic_block(direction, dev_addr, fcnt, msg.len() as u8);
        let mut k: usize = 0;
        while k < 16
            invariant
                k <= 16,
                out@ == b0@.subrange(0, k as int),
            decreases 16 - k,
        {
            out.push(b0[k]);
            k += 1;
            assert(out@ =~= b0@.subrange(0, k as int));
        }
        assert(out@ =~= b0@);
    }
    let ghost head = out@;
    let mut j: usize = 0;
    while j < msg.len()
        invariant
            j <= msg@.len(),
            out@ == head + msg@.subrange(0, j as int),
        decreases msg@.len() - j,
    {
        out.push(msg[j]);
        j += 1;
        assert(out@ =~= head + msg@.subrange(0, j as int));
    }
    assert(msg@.subrange(0, msg@.len() as int) =~= msg@);
    out
}

/// Computes the message integrity code of a message, MHDR and payload.
///
/// `key` is the AppKey for Join-Request and Join-Accept and the NwkSKey for
/// a data frame. Direction, address and frame counter enter the code of a
/// data frame only.
pub fn compute_mic(
    key: &[u8],
    msg: &[u8],
    direction: Direction,
    dev_addr: DevAddr,
    fcnt: u32,
) -> (mic: [u8; 4])
    requires
        key@.len() == 16,
        spec_mic_defined(msg@),
    ensures
        mic@ == spec_expected_mic(key@, msg@, direction, dev_addr.addr, fcnt),
{
    let input: Vec<u8> = mic_input(msg, direction, dev_addr, fcnt);
    let tag: [u8; 16] = aes128_cmac_tag(key, input.as_slice());
    mic_from_tag(&tag)
}

/// Why a frame could not be built.
#[derive(Debug, Clone, Copy, PartialEq, Eq, Structural)]
pub enum EncodeError {
    /// The payload is shorter than the seven bytes that the smallest frame
    /// holds.
    PayloadTooSmall { have: usize, need: usize },
    /// No message integrity code is defined for a frame with this header and
    /// a payload of this size.
    MicUndefined,
}

/// The frame with header `mhdr` and payload `payload`: header, payload, and
/// the message integrity code of the two.
pub open spec fn spec_encode(
    mhdr: MacHeader,
    payload: Seq<u8>,
    key: Seq<u8>,
    direction: Direction,
    dev_addr: u32,
    fcnt: u32,
) -> Seq<u8> {
    seq![mhdr.value] + payload + spec_expected_mic(
        key,
        seq![mhdr.value] + payload,
        direction,
        dev_addr,
        fcnt,
    )
}

/// Builds a frame: the header byte, the payload, and the message integrity
/// code computed over the two, in that order.
///
/// The payload is taken as it is: FRMPayload is encrypted before, with
/// [`crypt`]. A payload below seven bytes is rejected, and so is a frame that
/// no message integrity code is defined for.
pub fn encode(
    mhdr: MacHeader,
    payload: &[u8],
    key: &[u8; 16],
    direction: Direction,
    dev_addr: DevAddr,
    fcnt: u32,
) -> (r: Result<Vec<u8>, EncodeError>)
    ensures
        payload@.len() < 7 ==> r == Err::<Vec<u8>, EncodeError>(
            EncodeError::PayloadTooSmall { have: payload@.len() as usize, need: 7 },
        ),
        payload@.len() >= 7 && !spec_mic_defined(seq![mhdr.value] + payload@) ==> r == Err::<
            Vec<u8>,
            EncodeError,
        >(EncodeError::MicUndefined),
        payload@.len() >= 7 && spec_mic_defined(seq![mhdr.value] + payload@) ==> r is Ok,
        r matches Ok(frame) ==> {
            &&& frame@ == spec_encode(mhdr, payload@, key@, direction, dev_addr.addr, fcnt)
            &&& frame@.len() == payload@.len() + 5
            &&& spec_mac_header(frame@) == mhdr
            &&& spec_payload_bytes(frame@) == payload@
            &&& spec_mic(frame@) == spec_expected_mic(
                key@,
                spec_msg(frame@),
                direction,
                dev_addr.addr,
                fcnt,
            )
        },
{
    let have: usize = payload.len();
    if have < 7 {
        return Err(EncodeError::PayloadTooSmall { have, need: 7 });
    }
    let mut frame: Vec<u8> = Vec::new();
    frame.push(mhdr.value);
    let mut j: usize = 0;
    while j < payload.len()
        invariant
            j <= payload@.len(),
            frame@ == seq![mhdr.value] + payload@.subrange(0, j as int),
        decreases payload@.len() - j,
    {
        frame.push(payload[j]);
        j += 1;
        assert(frame@ =~= seq![mhdr.value] + payload@.subrange(0, j as int));
    }
    assert(payload@.subrange(0, payload@.len() as int) =~= payload@);
    let ghost msg = frame@;
    if !mic_defined(frame.as_slice()) {
        return Err(EncodeError::MicUndefined);
    }
    let mic: [u8; 4] = compute_mic(key.as_slice(), frame.as_slice(), direction, dev_addr, fcnt);
    frame.push(mic[0]);
    frame.push(mic[1]);
    frame.push(mic[2]);
    frame.push(mic[3]);
    proof {
        assert(frame@ =~= msg + mic@);
        assert(spec_payload_bytes(frame@) =~= payload@);
        assert(spec_msg(frame@) =~= msg);
        assert(spec_mic(frame@) =~= mic@);
    }
    Ok(frame)
}

/// The MAC payload of a data frame that carries no frame options and sets no
/// bit of FCtrl: `DevAddr | 0x00 | FCnt | FPort | FRMPayload`, with the low
/// 16 bits of the frame counter.
pub open spec fn spec_data_payload(dev_addr: u32, fcnt: u32, frame_port: u8, frm: Seq<u8>) -> Seq<
    u8,
> {
    spec_u32_to_le_bytes(dev_addr) + seq![0u8] + spec_u32_to_le_bytes(fcnt).subrange(0, 2)
        + seq![frame_port] + frm
}

/// Builds the MAC payload of a data frame around an FRMPayload, which is
/// taken as it is.
pub fn data_payload(dev_addr: DevAddr, fcnt: u32, frame_port: u8, frm: &[u8]) -> (out: Vec<u8>)
    ensures
        out@ == spec_data_payload(dev_addr.addr, fcnt, frame_port, frm@),
        out@.len() == 8 + frm@.len(),
{
    let addr: [u8; 4] = u32_to_le_bytes(dev_addr.addr);
    let cnt: [u8; 4] = u32_to_le_bytes(fcnt);
    let mut out: Vec<u8> = Vec::new();
    out.push(addr[0]);
    out.push(addr[1]);
    out.push(addr[2]);
    out.push(addr[3]);
    out.push(0);
    out.push(cnt[0]);
    out.push(cnt[1]);
    out.push(frame_port);
    let ghost head = out@;
    let mut j: usize = 0;
    while j < frm.len()
        invariant
            j <= frm@.len(),
            out@ == head + frm@.subrange(0, j as int),
        decreases frm@.len() - j,
    {
        out.push(frm[j]);
        j += 1;
        assert(out@ =~= head + frm@.subrange(0, j as int));
    }
    assert(frm@.subrange(0, frm@.len() as int) =~= frm@);
    assert(head =~= spec_u32_to_le_bytes(dev_addr.addr) + seq![0u8] + spec_u32_to_le_bytes(
        fcnt,
    ).subrange(0, 2) + seq![frame_port]);
    out
}

/// The longest application payload of an uplink without frame options: with
/// MHDR, frame header and FPort before it, the message must not exceed the
/// 255 bytes that block `B_0` can count.
pub const MAX_UPLINK_PAYLOAD: usize = 255 - 1 - 7 - 1;

/// MHDR of an uplink of major version 0, confirmed or not.
pub open spec fn spec_uplink_header(confirmed: bool) -> MacHeader {
    MacHeader {
        value: if confirmed {
            4
        } else {
            2
        },
    }
}

/// The uplink that carries `payload` on `frame_port`: the payload is
/// encrypted under the key of the port, put behind a frame header without
/// options, and the frame is closed with the message integrity code under
/// the network session key.
pub open spec fn spec_uplink_frame(
    confirmed: bool,
    nwk_s_key: Seq<u8>,
    port_key: Seq<u8>,
    dev_addr: u32,
    fcnt: u32,
    frame_port: u8,
    payload: Seq<u8>,
) -> Seq<u8> {
    spec_encode(
        spec_uplink_header(confirmed),
        spec_data_payload(
            dev_addr,
            fcnt,
            frame_port,
            spec_crypt(payload, port_key, Direction::Uplink, dev_addr, fcnt),
        ),
        nwk_s_key,
        Direction::Uplink,
        dev_addr,
        fcnt,
    )
}

/// Builds the frame of an uplink around an application payload.
///
/// A payload above [`MAX_UPLINK_PAYLOAD`] bytes gives a frame that no message
/// integrity code is defined for, and is rejected as `MicUndefined`.
pub fn uplink_frame(
    confirmed: bool,
    keys: &SessionKeys,
    dev_addr: DevAddr,
    fcnt: u32,
    frame_port: u8,
    payload: &[u8],
) -> (r: Result<Vec<u8>, EncodeError>)
    ensures
        payload@.len() <= MAX_UPLINK_PAYLOAD <==> r is Ok,
        r matches Err(e) ==> e == EncodeError::MicUndefined,
        r matches Ok(frame) ==> {
            &&& frame@ == spec_uplink_frame(
                confirmed,
                keys.nwk_s_key@,
                keys.spec_key_for_port(frame_port),
                dev_addr.addr,
                fcnt,
                frame_port,
                payload@,
            )
            &&& frame@.len() == payload@.len() + 13
            &&& spec_mac_header(frame@) == spec_uplink_header(confirmed)
        },
{
    if payload.len() > MAX_UPLINK_PAYLOAD {
        return Err(EncodeError::MicUndefined);
    }
    let ftype: FrameType = if confirmed {
        FrameType::ConfirmedDataUplink
    } else {
        FrameType::UnconfirmedDataUplink
    };
    let header: MacHeader = MacHeader::new().with_ftype(ftype);
    assert(header == spec_uplink_header(confirmed)) by {
        assert(header.value % 8 == ftype.spec_bits());
        assert((header.value / 8) % 8 == 0 && header.value / 64 == 0);
    }
    let frm: Vec<u8> = keys.crypt(frame_port, payload, Direction::Uplink, dev_addr, fcnt);
    let mac_payload: Vec<u8> = data_payload(dev_addr, fcnt, frame_port, frm.as_slice());
    proof {
        let msg = seq![header.value] + mac_payload@;
        assert(msg[0] == header.value);
        assert(spec_mac_header(msg).spec_ftype() == ftype);
        assert(spec_mic_defined(msg));
    }
    encode(header, mac_payload.as_slice(), &keys.nwk_s_key, Direction::Uplink, dev_addr, fcnt)
}

/// A frame as it travels: MHDR, payload and MIC.
///
/// ```norust
/// struct PhyPayload {
///     MHDR: u8,
///     MACPayload: [u8;7..],
///     MIC: u32,
/// }
/// ```
///
/// `S` is the state of the frame, [`decode_state::Encrypted`] or
/// [`decode_state::Decrypted`]. A frame holds at least 12 bytes.
#[derive(Debug)]
pub struct PhyPayload<T: FrameBytes, S> {
    _type_state: PhantomData<S>,
    bytes: T,
}

// Offsets, etc, that are valid for all decode states
impl<T: FrameBytes, S> PhyPayload<T, S> {
    #[verifier::type_invariant]
    spec fn inv(self) -> bool {
        self.bytes.spec_bytes().len() >= PHY_PAYLOAD_MIN_SIZE
    }

    /// The bytes of the frame.
    pub closed spec fn view(&self) -> Seq<u8> {
        self.bytes.spec_bytes()
    }

    /// All bytes of the frame, of which there are at least 12.
    pub fn as_bytes(&self) -> (b: &[u8])
        ensures
            b@ == self@,
            b@.len() >= PHY_PAYLOAD_MIN_SIZE,
    {
        proof {
            use_type_invariant(self);
        }
        self.bytes.bytes()
    }

    pub fn mac_header(&self) -> (h: MacHeader)
        ensures
            h == spec_mac_header(self@),
    {
        let b: &[u8] = self.as_bytes();
        MacHeader::from_bytes([b[0]])
    }

    pub fn payload_bytes(&self) -> (p: &[u8])
        ensures
            p@ == spec_payload_bytes(self@),
            p@.len() == self@.len() - 5,
            p@.len() >= 7,
    {
        let b: &[u8] = self.as_bytes();
        let end: usize = b.len() - 4;
        vstd::slice::slice_subrange(b, 1, end)
    }

    pub fn mic(&self) -> (m: [u8; 4])
        ensures
            m@ == spec_mic(self@),
    {
        let b: &[u8] = self.as_bytes();
        let start: usize = b.len() - 4;
        let m: [u8; 4] = [b[start], b[start + 1], b[start + 2], b[start + 3]];
        assert(m@ =~= spec_mic(self@));
        m
    }

    /// MHDR and payload: the part of the frame that the MIC protects.
    pub fn msg(&self) -> (m: &[u8])
        ensures
            m@ == spec_msg(self@),
            m@.len() >= 8,
            spec_mac_header(m@) == spec_mac_header(self@),
    {
        let b: &[u8] = self.as_bytes();
        let end: usize = b.len() - 4;
        vstd::slice::slice_subrange(b, 0, end)
    }
}

/// The direction that the frame type of a frame stands for; `Uplink` where
/// the frame is no data frame.
pub open spec fn spec_wire_direction(frame: Seq<u8>) -> Direction {
    match spec_mac_header(frame).spec_ftype().spec_direction() {
        Some(d) => d,
        None => Direction::Uplink,
    }
}

/// The device address in the frame header of a data frame.
pub open spec fn spec_wire_dev_addr(frame: Seq<u8>) -> u32 {
    spec_u32_from_le_bytes(frame.subrange(1, 5))
}

/// The frame counter in the frame header of a data frame: the 16 bits that
/// travel, with zeros above them.
pub open spec fn spec_wire_fcnt(frame: Seq<u8>) -> u32 {
    spec_u16_from_le_bytes(frame.subrange(6, 8)) as u32
}

/// The frame `frame` with its encrypted part decrypted under `key`.
///
/// - In a Join-Accept all that follows MHDR was sent through the AES
///   decryption, block by block, and is taken back through the encryption.
/// - In a data frame with an FPort, FRMPayload is xored with the keystream
///   for the frame's direction and device address and the frame counter
///   `fcnt`.
/// - Every other frame holds nothing encrypted and stays as it is.
pub open spec fn spec_decrypt(frame: Seq<u8>, key: Seq<u8>, fcnt: u32) -> Seq<u8> {
    let ftype = spec_mac_header(frame).spec_ftype();
    let payload = spec_payload_bytes(frame);
    if ftype == FrameType::JoinAccept {
        frame.subrange(0, 1) + spec_ecb_encrypt(key, frame.subrange(1, frame.len() as int))
    } else if ftype.spec_is_data() && spec_has_fport(payload) {
        frame.subrange(0, 2 + spec_fhdr_len(payload)) + spec_crypt(
            spec_frm_payload(payload),
            key,
            spec_wire_direction(frame),
            spec_wire_dev_addr(frame),
            fcnt,
        ) + spec_mic(frame)
    } else {
        frame
    }
}

/// Whether the encrypted part of a frame is within reach of the keystream.
pub open spec fn spec_can_decrypt(frame: Seq<u8>) -> bool {
    spec_mac_header(frame).spec_ftype().spec_is_data() ==> spec_frm_payload(
        spec_payload_bytes(frame),
    ).len() <= MAX_CRYPT_LEN
}

impl<T: FrameBytes> PhyPayload<T, decode_state::Encrypted> {
    /// Takes `bytes` as a frame. A frame holds at least 12 bytes: MHDR, a
    /// payload of seven bytes, and the MIC. Nothing else is checked here.
    pub fn from_bytes(bytes: T) -> (r: Result<Self, PhyPayloadDecodeError>)
        ensures
            bytes.spec_bytes().len() >= 12 <==> r is Ok,
            r matches Ok(frame) ==> frame@ == bytes.spec_bytes(),
            r matches Err(e) ==> e == (PhyPayloadDecodeError::SmallerThanMinSize {
                have: bytes.spec_bytes().len() as usize,
                need: 12,
            }),
    {
        let have: usize = bytes.bytes().len();
        {
            let need: usize = PHY_PAYLOAD_MIN_SIZE;
            if have < need {
                return Err(PhyPayloadDecodeError::SmallerThanMinSize { have, need });
            }
        }
        Ok(Self { _type_state: PhantomData, bytes })
    }

    /// Takes the payload apart by the frame type.
    ///
    /// A major version other than 0 is rejected. A Join-Request has a payload
    /// of 18 bytes and a Join-Accept one of 12 or 28; any other size is
    /// rejected. The payload of every other frame is handed on as a MAC
    /// payload without a look at it.
    pub fn payload(&self) -> (r: Result<Payload<'_>, PayloadParseError>)
        ensures
            r is Err <==> spec_payload_error(self@) is Some,
            r matches Err(e) ==> spec_payload_error(self@) == Some(e),
            r matches Ok(Payload::JoinRequest(j)) ==> spec_mac_header(self@).spec_ftype()
                == FrameType::JoinRequest && j@ == spec_payload_bytes(self@),
            r matches Ok(Payload::JoinAccept(j)) ==> spec_mac_header(self@).spec_ftype()
                == FrameType::JoinAccept && j@ == spec_payload_bytes(self@),
            r matches Ok(Payload::MacPayload(m)) ==> spec_mac_header(self@).spec_ftype()
                != FrameType::JoinRequest && spec_mac_header(self@).spec_ftype()
                != FrameType::JoinAccept && m@ == spec_payload_bytes(self@),
    {
        let mh: MacHeader = self.mac_header();
        if mh.major() != 0 {
            return Err(PayloadParseError::UnknownMajor { major: mh.major() });
        }
        let bytes: &[u8] = self.payload_bytes();
        match mh.ftype() {
            FrameType::JoinRequest => match JoinRequest::from_bytes(bytes) {
                Ok(j) => Ok(Payload::JoinRequest(j)),
                Err(e) => Err(PayloadParseError::from(e)),
            },
            FrameType::JoinAccept => match JoinAccept::from_bytes(bytes) {
                Ok(j) => Ok(Payload::JoinAccept(j)),
                Err(e) => Err(PayloadParseError::from(e)),
            },
            _ => Ok(Payload::MacPayload(MacPayload { bytes })),
        }
    }

    /// Whether [`Self::expected_mic`] and [`Self::mic_expected`] take this
    /// frame: it is a Join-Request, or a data frame of at most 259 bytes.
    pub fn can_authenticate(&self) -> (b: bool)
        ensures
            b == (spec_mic_defined(spec_msg(self@)) && spec_mac_header(self@).spec_ftype()
                != FrameType::JoinAccept),
    {
        match self.mac_header().ftype() {
            FrameType::JoinAccept => false,
            _ => mic_defined(self.msg()),
        }
    }

    /// Computes the message integrity code that the frame should carry.
    ///
    /// - Join-Request: `CMAC(AppKey, MHDR | JoinEUI | DevEUI | DevNonce)`
    /// - data frame: `CMAC(NwkSKey, B_0 | MHDR | FHDR | FPort | FRMPayload)`,
    ///   where `B_0` holds `direction`, `dev_addr` and `fcnt`
    ///
    /// and of it the first four bytes. The code of a Join-Accept is computed
    /// over the decrypted frame: decrypt it first. The result is to be
    /// compared with [`Self::mic`]; what follows from a difference is for the
    /// caller to say.
    pub fn expected_mic(&self, key: &[u8; 16], direction: Direction, dev_addr: DevAddr, fcnt: u32)
        -> (mic: [u8; 4])
        requires
            spec_mic_defined(spec_msg(self@)),
            spec_mac_header(self@).spec_ftype() != FrameType::JoinAccept,
        ensures
            mic@ == spec_expected_mic(key@, spec_msg(self@), direction, dev_addr.addr, fcnt),
    {
        compute_mic(key.as_slice(), self.msg(), direction, dev_addr, fcnt)
    }

    /// Computes the message integrity code that the frame should carry, with
    /// what the frame itself says: for a data frame the direction of its
    /// frame type, the device address of its header, and the 16 bits of the
    /// frame counter of its header with zeros above them.
    ///
    /// `app_key` is the AppKey for a Join-Request and the NwkSKey for a data
    /// frame, 16 bytes either way.
    pub fn mic_expected(&self, app_key: &[u8]) -> (mic: [u8; 4])
        requires
            app_key@.len() == 16,
            spec_mic_defined(spec_msg(self@)),
            spec_mac_header(self@).spec_ftype() != FrameType::JoinAccept,
        ensures
            mic@ == spec_expected_mic(
                app_key@,
                spec_msg(self@),
                spec_wire_direction(self@),
                spec_wire_dev_addr(self@),
                spec_wire_fcnt(self@),
            ),
    {
        let b: &[u8] = self.as_bytes();
        let direction: Direction = match self.mac_header().ftype().direction() {
            Some(d) => d,
            None => Direction::Uplink,
        };
        let addr: [u8; 4] = [b[1], b[2], b[3], b[4]];
        let cnt: [u8; 2] = [b[6], b[7]];
        proof {
            assert(addr@ =~= self@.subrange(1, 5));
            assert(cnt@ =~= self@.subrange(6, 8));
        }
        let dev_addr: DevAddr = DevAddr { addr: u32_from_le_bytes(addr) };
        let fcnt: u32 = u16_from_le_bytes(cnt) as u32;
        compute_mic(app_key, self.msg(), direction, dev_addr, fcnt)
    }

    /// Whether [`Self::decrypt`] takes this frame.
    pub fn can_decrypt(&self) -> (b: bool)
        ensures
            b == spec_can_decrypt(self@),
    {
        let payload: MacPayload<'_> = MacPayload { bytes: self.payload_bytes() };
        !self.mac_header().ftype().is_data() || payload.frm_paylod_bytes().len() <= MAX_CRYPT_LEN
    }

    /// Decrypts the frame, which is the one way from an encrypted frame to a
    /// decrypted one.
    ///
    /// `key` is the AppKey for a Join-Accept; for a data frame it is the
    /// session key that [`frame_port_key`] names for its FPort, and `fcnt`
    /// is the frame counter that the frame was encrypted under.
    pub fn decrypt(self, key: &[u8; 16], fcnt: u32) -> (out: PhyPayload<
        Vec<u8>,
        decode_state::Decrypted,
    >)
        requires
            spec_can_decrypt(self@),
        ensures
            out@ == spec_decrypt(self@, key@, fcnt),
            out@.len() == self@.len(),
            spec_mac_header(out@) == spec_mac_header(self@),
    {
        let b: &[u8] = self.as_bytes();
        let ftype: FrameType = self.mac_header().ftype();
        let payload: MacPayload<'_> = MacPayload { bytes: self.payload_bytes() };
        let mut out: Vec<u8> = Vec::new();
        match (ftype, ftype.direction(), payload.fport()) {
            (FrameType::JoinAccept, _, _) => {
                out.push(b[0]);
                let mut body: Vec<u8> = ecb_encrypt(
                    key,
                    vstd::slice::slice_subrange(b, 1, b.len()),
                );
                out.append(&mut body);
                assert(out@ =~= spec_decrypt(self@, key@, fcnt));
            },
            (_, Some(direction), Some(_)) => {
                let start: usize = 2 + FHDR_MIN_SIZE + (b[5] / 16) as usize;
                let addr: [u8; 4] = [b[1], b[2], b[3], b[4]];
                proof {
                    assert(addr@ =~= self@.subrange(1, 5));
                    assert(payload@[4] == b@[5]);
                    assert(start == 2 + spec_fhdr_len(payload@));
                }
                let dev_addr: DevAddr = DevAddr { addr: u32_from_le_bytes(addr) };
                let end: usize = b.len() - 4;
                let frm: &[u8] = vstd::slice::slice_subrange(b, start, end);
                assert(frm@ =~= spec_frm_payload(payload@));
                let mut k: usize = 0;
                while k < start
                    invariant
                        k <= start <= b@.len(),
                        out@ == b@.subrange(0, k as int),
                    decreases start - k,
                {
                    out.push(b[k]);
                    k += 1;
                    assert(out@ =~= b@.subrange(0, k as int));
                }
                let mut plain: Vec<u8> = crypt(frm, key, direction, dev_addr, fcnt);
                out.append(&mut plain);
                out.push(b[end]);
                out.push(b[end + 1]);
                out.push(b[end + 2]);
                out.push(b[end + 3]);
                assert(out@ =~= spec_decrypt(self@, key@, fcnt));
            },
            _ => {
                let mut k: usize = 0;
                while k < b.len()
                    invariant
                        k <= b@.len(),
                        out@ == b@.subrange(0, k as int),
                    decreases b@.len() - k,
                {
                    out.push(b[k]);
                    k += 1;
                    assert(out@ =~= b@.subrange(0, k as int));
                }
                assert(out@ =~= spec_decrypt(self@, key@, fcnt));
            },
        }
        PhyPayload { _type_state: PhantomData, bytes: out }
    }
}

impl<T: FrameBytes> PhyPayload<T, decode_state::Decrypted> {
    /// The decrypted FRMPayload of a data frame: the application data, or
    /// MAC commands where FPort is 0. It is empty where the frame has no
    /// FPort.
    pub fn frm_payload(&self) -> (r: &[u8])
        ensures
            r@ == spec_frm_payload(spec_payload_bytes(self@)),
    {
        let payload: MacPayload<'_> = MacPayload { bytes: self.payload_bytes() };
        payload.frm_paylod_bytes()
    }

    /// The decrypted body of a Join-Accept; `SizeMismatch` where the payload
    /// is not 12 or 28 bytes long.
    pub fn join_accept(&self) -> (r: Result<JoinAccept<'_>, JoinAcceptParseError>)
        ensures
            (self@.len() == 17 || self@.len() == 33) <==> r is Ok,
            r matches Ok(j) ==> j@ == spec_payload_bytes(self@),
            r matches Err(e) ==> e == (JoinAcceptParseError::SizeMismatch {
                have: (self@.len() - 5) as usize,
            }),
    {
        JoinAccept::from_bytes(self.payload_bytes())
    }

    /// Computes the message integrity code that a decrypted Join-Accept
    /// should carry:
    ///
    /// ```norust
    /// CMAC = aes128_cmac(AppKey,
    ///     MHDR | JoinNonce | NetID | DevAddr | DLSettings | RXDelay | CFList)
    /// MIC = CMAC[0..3]
    /// ```
    ///
    /// It is to be compared with [`Self::mic`], which after decryption is the
    /// code that the sender computed.
    pub fn mic_expected(&self, app_key: &[u8]) -> (mic: [u8; 4])
        requires
            app_key@.len() == 16,
            spec_mac_header(self@).spec_ftype() == FrameType::JoinAccept,
        ensures
            mic@ == spec_mic_from_tag(aes128_cmac(app_key@, spec_msg(self@))),
            mic@ == spec_expected_mic(app_key@, spec_msg(self@), Direction::Uplink, 0, 0),
    {
        compute_mic(app_key, self.msg(), Direction::Uplink, DevAddr { addr: 0 }, 0)
    }
}

/// A frame that was built from a header and a payload of seven bytes or more
/// is a frame of at least 12 bytes, and taken apart it gives the header and
/// the payload back, with the message integrity code of the two.
pub proof fn lemma_encode_round_trip(
    mhdr: MacHeader,
    payload: Seq<u8>,
    key: Seq<u8>,
    direction: Direction,
    dev_addr: u32,
    fcnt: u32,
)
    requires
        payload.len() >= 7,
    ensures
        ({
            let frame = spec_encode(mhdr, payload, key, direction, dev_addr, fcnt);
            &&& frame.len() == payload.len() + 5
            &&& frame.len() >= PHY_PAYLOAD_MIN_SIZE
            &&& spec_mac_header(frame) == mhdr
            &&& spec_payload_bytes(frame) == payload
            &&& spec_mic(frame) == spec_expected_mic(
                key,
                spec_msg(frame),
                direction,
                dev_addr,
                fcnt,
            )
        }),
{
    let msg = seq![mhdr.value] + payload;
    let mic = spec_expected_mic(key, msg, direction, dev_addr, fcnt);
    let frame = spec_encode(mhdr, payload, key, direction, dev_addr, fcnt);
    assert(mic.len() == 4);
    assert(frame =~= msg + mic);
    assert(spec_payload_bytes(frame) =~= payload);
    assert(spec_msg(frame) =~= msg);
    assert(spec_mic(frame) =~= mic);
}

/// Decrypting a data frame twice, under the same key and frame counter, gives
/// the frame back: what decrypts FRMPayload is what encrypted it.
pub proof fn lemma_decrypt_data_frame_twice(frame: Seq<u8>, key: Seq<u8>, fcnt: u32)
    requires
        frame.len() >= PHY_PAYLOAD_MIN_SIZE,
        spec_mac_header(frame).spec_ftype().spec_is_data(),
    ensures
        spec_decrypt(frame, key, fcnt).len() == frame.len(),
        spec_decrypt(spec_decrypt(frame, key, fcnt), key, fcnt) == frame,
{
    let payload = spec_payload_bytes(frame);
    let once = spec_decrypt(frame, key, fcnt);
    if spec_has_fport(payload) {
        let at = 2 + spec_fhdr_len(payload);
        let frm = spec_frm_payload(payload);
        let direction = spec_wire_direction(frame);
        let dev_addr = spec_wire_dev_addr(frame);
        let plain = spec_crypt(frm, key, direction, dev_addr, fcnt);
        crate::crypto::lemma_crypt_involution(frm, key, direction, dev_addr, fcnt);
        assert(payload[4] == frame[5]);
        assert(frm =~= frame.subrange(at, frame.len() - 4));
        assert(once =~= frame.subrange(0, at) + plain + spec_mic(frame));
        assert(once.len() == frame.len());
        assert(forall|i: int| 0 <= i < at ==> once[i] == frame[i]);
        let payload2 = spec_payload_bytes(once);
        assert(payload2[4] == once[5]);
        assert(spec_fhdr_len(payload2) == spec_fhdr_len(payload));
        assert(spec_has_fport(payload2));
        assert(spec_frm_payload(payload2) =~= plain);
        assert(once.subrange(1, 5) =~= frame.subrange(1, 5));
        assert(spec_mic(once) =~= spec_mic(frame));
        assert(once.subrange(0, at) =~= frame.subrange(0, at));
        assert(spec_decrypt(once, key, fcnt) =~= frame.subrange(0, at) + frm + spec_mic(frame));
        assert(frame.subrange(0, at) + frm + spec_mic(frame) =~= frame);
    }
}

} // verus!
